//! The queries of the staking pool that need no viewing key, and the two
//! that are answered once the key has been checked.
use vstd::prelude::*;
use crate::chain::HumanAddr;
use crate::errors::ContractError;
use crate::lp_staking::state::{position_of, StakingStorage};
use crate::lp_staking_msg::LPStakingQueryAnswer;
use crate::rewards::{projected_reward, projected_reward_spec};
use crate::types::SecretContract;

verus! {

/// What the rewards query answers for `address` when the master reports
/// `new_rewards` as not yet allocated.
pub open spec fn pending_rewards_answer(
    deps: StakingStorage,
    address: HumanAddr,
    new_rewards: u128,
) -> Result<LPStakingQueryAnswer, ContractError> {
    match projected_reward_spec(
        deps.reward_pool,
        position_of(deps.users.entries@, address@),
        new_rewards,
    ) {
        Ok(rewards) => Ok(LPStakingQueryAnswer::Rewards { rewards }),
        Err(e) => Err(e),
    }
}

/// The reward `address` would be paid if it settled now, counting
/// `new_rewards` that the master has not allocated yet.
pub fn query_pending_rewards(deps: &StakingStorage, address: &HumanAddr, new_rewards: u128) -> (res:
    Result<LPStakingQueryAnswer, ContractError>)
    ensures
        res == pending_rewards_answer(*deps, *address, new_rewards),
{
    let user = deps.load_user(address);
    match projected_reward(deps.reward_pool, user, new_rewards) {
        Ok(rewards) => Ok(LPStakingQueryAnswer::Rewards { rewards }),
        Err(e) => Err(e),
    }
}

/// What the balance query answers for `address`.
pub open spec fn deposit_answer(deps: StakingStorage, address: HumanAddr) -> Result<
    LPStakingQueryAnswer,
    ContractError,
> {
    Ok(LPStakingQueryAnswer::Balance { amount: position_of(deps.users.entries@, address@).locked })
}

/// The amount `address` has staked.
pub fn query_deposit(deps: &StakingStorage, address: &HumanAddr) -> (res: Result<
    LPStakingQueryAnswer,
    ContractError,
>)
    ensures
        res == deposit_answer(*deps, *address),
{
    let user = deps.load_user(address);
    Ok(LPStakingQueryAnswer::Balance { amount: user.locked })
}

/// Whether the pool is stopped.
pub fn query_contract_status(deps: &StakingStorage) -> (res: Result<
    LPStakingQueryAnswer,
    ContractError,
>)
    ensures
        res == Ok::<LPStakingQueryAnswer, ContractError>(
            LPStakingQueryAnswer::ContractStatus { is_stopped: deps.config.is_stopped },
        ),
{
    Ok(LPStakingQueryAnswer::ContractStatus { is_stopped: deps.config.is_stopped })
}

/// The token rewards are paid in.
pub fn query_reward_token(deps: &StakingStorage) -> (res: Result<
    LPStakingQueryAnswer,
    ContractError,
>)
    ensures
        res == Ok::<LPStakingQueryAnswer, ContractError>(
            LPStakingQueryAnswer::RewardToken { token: deps.config.reward_token },
        ),
{
    Ok(LPStakingQueryAnswer::RewardToken { token: deps.config.reward_token.clone() })
}

/// The token that is staked.
pub fn query_incentivized_token(deps: &StakingStorage) -> (res: Result<
    LPStakingQueryAnswer,
    ContractError,
>)
    ensures
        res == Ok::<LPStakingQueryAnswer, ContractError>(
            LPStakingQueryAnswer::IncentivizedToken { token: deps.config.inc_token },
        ),
{
    Ok(LPStakingQueryAnswer::IncentivizedToken { token: deps.config.inc_token.clone() })
}

/// Name and symbol of the position token. It has one decimal and reports no
/// total supply.
pub fn query_token_info(deps: &StakingStorage) -> (res: Result<LPStakingQueryAnswer, ContractError>)
    ensures
        res == Ok::<LPStakingQueryAnswer, ContractError>(
            LPStakingQueryAnswer::TokenInfo {
                name: deps.token_info.name,
                symbol: deps.token_info.symbol,
                decimals: 1,
                total_supply: None,
            },
        ),
{
    Ok(
        LPStakingQueryAnswer::TokenInfo {
            name: deps.token_info.name.clone(),
            symbol: deps.token_info.symbol.clone(),
            decimals: 1,
            total_supply: None,
        },
    )
}

/// The total amount staked.
pub fn query_total_locked(deps: &StakingStorage) -> (res: Result<
    LPStakingQueryAnswer,
    ContractError,
>)
    ensures
        res == Ok::<LPStakingQueryAnswer, ContractError>(
            LPStakingQueryAnswer::TotalLocked { amount: deps.reward_pool.inc_token_supply },
        ),
{
    Ok(LPStakingQueryAnswer::TotalLocked { amount: deps.reward_pool.inc_token_supply })
}

/// An answer that lists exactly the contracts `subs`.
pub open spec fn lists_subscribers(
    res: Result<LPStakingQueryAnswer, ContractError>,
    subs: Seq<SecretContract>,
) -> bool {
    res matches Ok(LPStakingQueryAnswer::Subscribers { contracts }) && contracts@ == subs
}

/// The subscribers, in the order they are notified.
pub fn query_subscribers(deps: &StakingStorage) -> (res: Result<
    LPStakingQueryAnswer,
    ContractError,
>)
    ensures
        lists_subscribers(res, deps.subscribers@),
{
    let mut contracts: Vec<SecretContract> = Vec::new();
    let mut i: usize = 0;
    while i < deps.subscribers.len()
        invariant
            i <= deps.subscribers@.len(),
            contracts@ == deps.subscribers@.take(i as int),
        decreases deps.subscribers@.len() - i,
    {
        contracts.push(deps.subscribers[i].clone());
        assert(contracts@ =~= deps.subscribers@.take(i as int + 1));
        i += 1;
    }
    assert(deps.subscribers@.take(i as int) =~= deps.subscribers@);
    Ok(LPStakingQueryAnswer::Subscribers { contracts })
}

} // verus!
