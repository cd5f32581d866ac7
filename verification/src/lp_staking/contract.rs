//! Creating the staking pool, serving its requests and answering its
//! queries.
use vstd::prelude::*;
use vstd::string::StringExecFns;
use vstd::utf8::encode_utf8;
use crate::chain::{CosmosMsg, Env, HandleResponse, HumanAddr, InitResponse};
use crate::errors::ContractError;
use crate::hashing::{sha_256, sha_256_digest};
use crate::keyed::{KeyedStore, value_at, with_value};
use crate::lp_staking::admin::{
    add_subscribers, add_subscribers_post, change_admin, change_admin_post, remove_subscribers,
    remove_subscribers_post, resume_contract, resume_contract_post, stop_contract,
    stop_contract_post,
};
use crate::lp_staking::answers::{answer_with, is_plain_response, refused, StakingAnswer};
use crate::lp_staking::constants::RESPONSE_BLOCK_SIZE;
use crate::lp_staking::invariants::lemma_handle_conserves_stake;
use crate::lp_staking::queries::{
    deposit_answer, lists_subscribers, pending_rewards_answer, query_contract_status,
    query_deposit, query_incentivized_token, query_pending_rewards, query_reward_token,
    query_subscribers, query_token_info, query_total_locked,
};
use crate::lp_staking::settlement::{
    deposit_post, emergency_redeem, emergency_redeem_post, notify_allocation,
    notify_allocation_post, receive, redeem, redeem_post,
};
use crate::lp_staking::state::{Config, StakingStorage};
use crate::lp_staking_msg::{
    LPStakingHandleAnswer, LPStakingHandleMsg, LPStakingInitMsg, LPStakingQueryAnswer,
    LPStakingQueryMsg, LPStakingResponseStatus,
};
use crate::snip20::{
    is_encoded_call, register_receive_msg, set_viewing_key_msg, snip20_register_receive_body,
    snip20_set_viewing_key_body,
};
use crate::types::{RewardPool, SecretContract};
use crate::viewing_key::{generated_key, VIEWING_KEY_SIZE, ViewingKey};

verus! {

/// The digest of the viewing key spelled `key` is stored for `who`, and
/// nothing else differs between `before` and `after`.
pub open spec fn key_stored(
    before: StakingStorage,
    after: StakingStorage,
    who: HumanAddr,
    key: Seq<char>,
) -> bool {
    &&& after.config == before.config
    &&& after.reward_pool == before.reward_pool
    &&& after.token_info == before.token_info
    &&& after.subscribers == before.subscribers
    &&& after.users == before.users
    &&& exists|hashed: Vec<u8>|
        hashed@ == sha_256_digest(encode_utf8(key)) && after.viewing_keys.entries@
            == #[trigger] with_value(before.viewing_keys.entries@, who, hashed)
}

/// Stores `hashed` as the digest of the viewing key of `who`.
pub fn store_viewing_key(deps: &mut StakingStorage, who: HumanAddr, hashed: Vec<u8>)
    ensures
        final(deps).viewing_keys.entries@ == with_value(
            old(deps).viewing_keys.entries@,
            who,
            hashed,
        ),
        *final(deps) == (StakingStorage { viewing_keys: final(deps).viewing_keys, ..*old(deps) }),
{
    deps.viewing_keys.set(who, hashed);
}

/// What generating a viewing key does: the key drawn for the invocation is
/// handed back and its digest is stored for the sender.
pub open spec fn create_viewing_key_post(
    before: StakingStorage,
    env: Env,
    entropy: Seq<char>,
    after: StakingStorage,
    res: Result<HandleResponse<StakingAnswer>, ContractError>,
) -> bool {
    let text = generated_key(env, before.config.prng_seed@, encode_utf8(entropy));
    &&& res is Ok
    &&& res->Ok_0.messages@.len() == 0
    &&& res->Ok_0.log@.len() == 0
    &&& res->Ok_0.data matches Some(
        StakingAnswer::Handle(LPStakingHandleAnswer::CreateViewingKey { key }),
    ) && key.0@ == text
    &&& key_stored(before, after, env.message.sender, text)
}

/// Generates a viewing key for the sender from the pool's seed and `entropy`.
pub fn create_viewing_key(deps: &mut StakingStorage, env: &Env, entropy: String) -> (res: Result<
    HandleResponse<StakingAnswer>,
    ContractError,
>)
    ensures
        create_viewing_key_post(*old(deps), *env, entropy@, *final(deps), res),
{
    let key = ViewingKey::new(
        env,
        deps.config.prng_seed.as_slice(),
        entropy.as_str().as_bytes(),
    );
    let hashed = key.to_hashed();
    let ghost stored = hashed;
    store_viewing_key(deps, env.message.sender.clone(), hashed);
    assert(deps.viewing_keys.entries@ == with_value(
        old(deps).viewing_keys.entries@,
        env.message.sender,
        stored,
    ));
    Ok(
        HandleResponse {
            messages: Vec::new(),
            log: Vec::new(),
            data: Some(StakingAnswer::Handle(LPStakingHandleAnswer::CreateViewingKey { key })),
        },
    )
}

/// What setting a viewing key does: the digest of `key` is stored for the
/// sender.
pub open spec fn set_viewing_key_post(
    before: StakingStorage,
    env: Env,
    key: Seq<char>,
    after: StakingStorage,
    res: Result<HandleResponse<StakingAnswer>, ContractError>,
) -> bool {
    &&& res is Ok
    &&& is_plain_response(
        res->Ok_0,
        Some(
            StakingAnswer::Handle(
                LPStakingHandleAnswer::SetViewingKey { status: LPStakingResponseStatus::Success },
            ),
        ),
    )
    &&& key_stored(before, after, env.message.sender, key)
}

/// Makes `key` the sender's viewing key.
pub fn set_viewing_key(deps: &mut StakingStorage, env: &Env, key: String) -> (res: Result<
    HandleResponse<StakingAnswer>,
    ContractError,
>)
    ensures
        set_viewing_key_post(*old(deps), *env, key@, *final(deps), res),
{
    let vk = ViewingKey(key);
    let hashed = vk.to_hashed();
    let ghost stored = hashed;
    store_viewing_key(deps, env.message.sender.clone(), hashed);
    assert(deps.viewing_keys.entries@ == with_value(
        old(deps).viewing_keys.entries@,
        env.message.sender,
        stored,
    ));
    Ok(
        answer_with(
            LPStakingHandleAnswer::SetViewingKey { status: LPStakingResponseStatus::Success },
        ),
    )
}

/// The subscribers a pool starts with.
pub open spec fn initial_subscribers(subscribers: Option<Vec<SecretContract>>) -> Seq<
    SecretContract,
> {
    match subscribers {
        Some(subs) => subs@,
        None => Seq::empty(),
    }
}

/// What creating a pool gives: an empty pool configured as `msg` says, with
/// the sender as its admin, and four instructions: the pool registers as a
/// receiver with the reward token and with the incentivized token, then sets
/// its viewing key with both.
pub open spec fn init_post(
    env: Env,
    msg: LPStakingInitMsg,
    res: Result<(StakingStorage, InitResponse), ContractError>,
) -> bool {
    let register = snip20_register_receive_body(env.contract_code_hash@, 1);
    let set_key = snip20_set_viewing_key_body(msg.viewing_key@, RESPONSE_BLOCK_SIZE);
    if register is None || set_key is None {
        res is Err && res->Err_0 == ContractError::Encoding
    } else {
        let (deps, resp) = res->Ok_0;
        &&& res is Ok
        &&& deps.config.admin == env.message.sender
        &&& deps.config.reward_token == msg.reward_token
        &&& deps.config.inc_token == msg.inc_token
        &&& deps.config.master == msg.master
        &&& deps.config.viewing_key == msg.viewing_key
        &&& deps.config.prng_seed@ == sha_256_digest(msg.prng_seed@)
        &&& !deps.config.is_stopped
        &&& deps.config.own_addr == env.contract.address
        &&& deps.reward_pool == (RewardPool {
            residue: 0,
            inc_token_supply: 0,
            acc_reward_per_share: 0,
        })
        &&& deps.token_info == msg.token_info
        &&& deps.subscribers@ == initial_subscribers(msg.subscribers)
        &&& deps.users.entries@.len() == 0
        &&& deps.viewing_keys.entries@.len() == 0
        &&& resp.log@.len() == 0
        &&& resp.messages@.len() == 4
        &&& is_encoded_call(resp.messages@[0], msg.reward_token, register->Some_0)
        &&& is_encoded_call(resp.messages@[1], msg.inc_token, register->Some_0)
        &&& is_encoded_call(resp.messages@[2], msg.reward_token, set_key->Some_0)
        &&& is_encoded_call(resp.messages@[3], msg.inc_token, set_key->Some_0)
    }
}

/// Creates a staking pool for the sender.
pub fn init(env: &Env, msg: LPStakingInitMsg) -> (res: Result<
    (StakingStorage, InitResponse),
    ContractError,
>)
    ensures
        init_post(*env, msg, res),
{
    let prng_seed_hashed = sha_256(msg.prng_seed.as_slice());
    let mut messages: Vec<CosmosMsg> = Vec::new();
    match register_receive_msg(&env.contract_code_hash, 1, &msg.reward_token) {
        Ok(m) => messages.push(m),
        Err(_) => {
            return Err(ContractError::Encoding);
        },
    }
    match register_receive_msg(&env.contract_code_hash, 1, &msg.inc_token) {
        Ok(m) => messages.push(m),
        Err(_) => {
            return Err(ContractError::Encoding);
        },
    }
    match set_viewing_key_msg(&msg.viewing_key, RESPONSE_BLOCK_SIZE, &msg.reward_token) {
        Ok(m) => messages.push(m),
        Err(_) => {
            return Err(ContractError::Encoding);
        },
    }
    match set_viewing_key_msg(&msg.viewing_key, RESPONSE_BLOCK_SIZE, &msg.inc_token) {
        Ok(m) => messages.push(m),
        Err(_) => {
            return Err(ContractError::Encoding);
        },
    }
    let subscribers = match msg.subscribers {
        Some(subs) => subs,
        None => Vec::new(),
    };
    let deps = StakingStorage {
        config: Config {
            admin: env.message.sender.clone(),
            reward_token: msg.reward_token,
            inc_token: msg.inc_token,
            master: msg.master,
            viewing_key: msg.viewing_key,
            prng_seed: prng_seed_hashed,
            is_stopped: false,
            own_addr: env.contract.address.clone(),
        },
        reward_pool: RewardPool { residue: 0, inc_token_supply: 0, acc_reward_per_share: 0 },
        token_info: msg.token_info,
        subscribers,
        users: KeyedStore::new(),
        viewing_keys: KeyedStore::new(),
    };
    Ok((deps, InitResponse { messages, log: Vec::new() }))
}

/// What a request does. A stopped pool serves the emergency exit and
/// resuming and refuses everything else as paused; a running pool serves
/// everything but these two.
pub open spec fn handle_post(
    before: StakingStorage,
    env: Env,
    msg: LPStakingHandleMsg,
    after: StakingStorage,
    res: Result<HandleResponse<StakingAnswer>, ContractError>,
) -> bool {
    if before.config.is_stopped {
        match msg {
            LPStakingHandleMsg::EmergencyRedeem {  } => emergency_redeem_post(
                before,
                env,
                after,
                res,
            ),
            LPStakingHandleMsg::ResumeContract {  } => resume_contract_post(
                before,
                env,
                after,
                res,
            ),
            _ => refused(before, after, res, ContractError::Paused),
        }
    } else {
        match msg {
            LPStakingHandleMsg::Redeem { amount } => after == before && redeem_post(
                before,
                env,
                amount,
                res,
            ),
            LPStakingHandleMsg::Receive { from, amount, .. } => after == before && deposit_post(
                before,
                env,
                from,
                amount,
                res,
            ),
            LPStakingHandleMsg::CreateViewingKey { entropy, .. } => create_viewing_key_post(
                before,
                env,
                entropy@,
                after,
                res,
            ),
            LPStakingHandleMsg::SetViewingKey { key, .. } => set_viewing_key_post(
                before,
                env,
                key@,
                after,
                res,
            ),
            LPStakingHandleMsg::StopContract {  } => stop_contract_post(before, env, after, res),
            LPStakingHandleMsg::ChangeAdmin { address } => change_admin_post(
                before,
                env,
                address,
                after,
                res,
            ),
            LPStakingHandleMsg::NotifyAllocation { amount, hook } => notify_allocation_post(
                before,
                env,
                amount,
                hook,
                after,
                res,
            ),
            LPStakingHandleMsg::AddSubs { contracts } => add_subscribers_post(
                before,
                env,
                contracts@,
                after,
                res,
            ),
            LPStakingHandleMsg::RemoveSubs { contracts } => remove_subscribers_post(
                before,
                env,
                contracts@,
                after,
                res,
            ),
            _ => refused(before, after, res, ContractError::UnknownAction),
        }
    }
}

/// Serves one request.
pub fn handle(deps: &mut StakingStorage, env: &Env, msg: LPStakingHandleMsg) -> (res: Result<
    HandleResponse<StakingAnswer>,
    ContractError,
>)
    ensures
        handle_post(*old(deps), *env, msg, *final(deps), res),
        old(deps).conserves_stake() ==> final(deps).conserves_stake(),
{
    if deps.config.is_stopped {
        let res = match msg {
            LPStakingHandleMsg::EmergencyRedeem {  } => emergency_redeem(deps, env),
            LPStakingHandleMsg::ResumeContract {  } => resume_contract(deps, env),
            _ => Err(ContractError::Paused),
        };
        proof {
            if old(deps).conserves_stake() {
                lemma_handle_conserves_stake(*old(deps), *env, msg, *deps, res);
            }
        }
        return res;
    }
    let res = match msg {
        LPStakingHandleMsg::Redeem { amount } => redeem(deps, env, amount),
        LPStakingHandleMsg::Receive { from, amount, msg, .. } => receive(
            deps,
            env,
            from,
            amount,
            msg,
        ),
        LPStakingHandleMsg::CreateViewingKey { entropy, .. } => create_viewing_key(
            deps,
            env,
            entropy,
        ),
        LPStakingHandleMsg::SetViewingKey { key, .. } => set_viewing_key(deps, env, key),
        LPStakingHandleMsg::StopContract {  } => stop_contract(deps, env),
        LPStakingHandleMsg::ChangeAdmin { address } => change_admin(deps, env, address),
        LPStakingHandleMsg::NotifyAllocation { amount, hook } => notify_allocation(
            deps,
            env,
            amount,
            hook,
        ),
        LPStakingHandleMsg::AddSubs { contracts } => add_subscribers(deps, env, contracts),
        LPStakingHandleMsg::RemoveSubs { contracts } => remove_subscribers(deps, env, contracts),
        _ => Err(ContractError::UnknownAction),
    };
    proof {
        if old(deps).conserves_stake() {
            lemma_handle_conserves_stake(*old(deps), *env, msg, *deps, res);
        }
    }
    res
}

/// Whether the viewing key an authenticated query presents is the one
/// stored for the address it asks about.
pub open spec fn key_accepted(deps: StakingStorage, msg: LPStakingQueryMsg) -> bool {
    value_at(deps.viewing_keys.entries@, msg.queried_address()@) matches Some(hashed)
        && sha_256_digest(encode_utf8(msg.presented_key()@)) == hashed@
}

/// What an authenticated query answers once the key was checked: with a key
/// that was accepted the rewards or the balance of the address, otherwise a
/// refusal that does not tell a wrong key from a missing one.
pub open spec fn checked_query_post(
    deps: StakingStorage,
    msg: LPStakingQueryMsg,
    accepted: bool,
    new_rewards: u128,
    res: Result<LPStakingQueryAnswer, ContractError>,
) -> bool {
    if accepted {
        match msg {
            LPStakingQueryMsg::Rewards { address, .. } => res == pending_rewards_answer(
                deps,
                address,
                new_rewards,
            ),
            LPStakingQueryMsg::Balance { address, .. } => res == deposit_answer(deps, address),
            _ => true,
        }
    } else {
        res matches Ok(LPStakingQueryAnswer::QueryError { msg: text }) && text@
            == "Wrong viewing key for this address or viewing key not set"@
    }
}

/// Answers a query for rewards or balance whose viewing key was `accepted`
/// or not.
pub fn answer_checked_query(
    deps: &StakingStorage,
    msg: &LPStakingQueryMsg,
    accepted: bool,
    new_rewards: u128,
) -> (res: Result<LPStakingQueryAnswer, ContractError>)
    requires
        msg.is_authenticated(),
    ensures
        checked_query_post(*deps, *msg, accepted, new_rewards, res),
{
    if accepted {
        return match msg {
            LPStakingQueryMsg::Rewards { address, .. } => query_pending_rewards(
                deps,
                address,
                new_rewards,
            ),
            LPStakingQueryMsg::Balance { address, .. } => query_deposit(deps, address),
            _ => {
                assert(false);
                vstd::pervasive::unreached()
            },
        };
    }
    Ok(
        LPStakingQueryAnswer::QueryError {
            msg: String::from_str("Wrong viewing key for this address or viewing key not set"),
        },
    )
}

/// What an authenticated query answers: the rewards or the balance of the
/// address if the key it presents is the one stored for the address.
pub open spec fn authenticated_post(
    deps: StakingStorage,
    msg: LPStakingQueryMsg,
    new_rewards: u128,
    res: Result<LPStakingQueryAnswer, ContractError>,
) -> bool {
    checked_query_post(deps, msg, key_accepted(deps, msg), new_rewards, res)
}

/// Answers a query for rewards or balance. `new_rewards` is what the master
/// reports as not yet allocated to the pool; only the rewards query uses it.
pub fn authenticated_queries(deps: &StakingStorage, msg: LPStakingQueryMsg, new_rewards: u128) -> (res:
    Result<LPStakingQueryAnswer, ContractError>)
    requires
        msg.is_authenticated(),
    ensures
        authenticated_post(*deps, msg, new_rewards, res),
{
    let (address, key) = msg.get_validation_params();
    let accepted = match deps.viewing_keys.get(address) {
        Some(expected_key) => key.check_viewing_key(expected_key.as_slice()),
        None => {
            // The check is made all the same, so that the time an answer
            // takes does not tell whether a key is set.
            let unset = [0u8;VIEWING_KEY_SIZE];
            key.check_viewing_key(&unset);
            false
        },
    };
    answer_checked_query(deps, &msg, accepted, new_rewards)
}

/// What a query answers.
pub open spec fn query_post(
    deps: StakingStorage,
    msg: LPStakingQueryMsg,
    new_rewards: u128,
    res: Result<LPStakingQueryAnswer, ContractError>,
) -> bool {
    match msg {
        LPStakingQueryMsg::ContractStatus {  } => res == Ok::<LPStakingQueryAnswer, ContractError>(
            LPStakingQueryAnswer::ContractStatus { is_stopped: deps.config.is_stopped },
        ),
        LPStakingQueryMsg::RewardToken {  } => res == Ok::<LPStakingQueryAnswer, ContractError>(
            LPStakingQueryAnswer::RewardToken { token: deps.config.reward_token },
        ),
        LPStakingQueryMsg::IncentivizedToken {  } => res == Ok::<
            LPStakingQueryAnswer,
            ContractError,
        >(LPStakingQueryAnswer::IncentivizedToken { token: deps.config.inc_token }),
        LPStakingQueryMsg::TokenInfo {  } => res == Ok::<LPStakingQueryAnswer, ContractError>(
            LPStakingQueryAnswer::TokenInfo {
                name: deps.token_info.name,
                symbol: deps.token_info.symbol,
                decimals: 1,
                total_supply: None,
            },
        ),
        LPStakingQueryMsg::TotalLocked {  } => res == Ok::<LPStakingQueryAnswer, ContractError>(
            LPStakingQueryAnswer::TotalLocked { amount: deps.reward_pool.inc_token_supply },
        ),
        LPStakingQueryMsg::Subscribers {  } => lists_subscribers(res, deps.subscribers@),
        _ => authenticated_post(deps, msg, new_rewards, res),
    }
}

/// Answers a query. `new_rewards` is what the master reports as not yet
/// allocated to the pool; only the rewards query uses it.
pub fn query(deps: &StakingStorage, msg: LPStakingQueryMsg, new_rewards: u128) -> (res: Result<
    LPStakingQueryAnswer,
    ContractError,
>)
    ensures
        query_post(*deps, msg, new_rewards, res),
{
    match msg {
        LPStakingQueryMsg::ContractStatus {  } => query_contract_status(deps),
        LPStakingQueryMsg::RewardToken {  } => query_reward_token(deps),
        LPStakingQueryMsg::IncentivizedToken {  } => query_incentivized_token(deps),
        LPStakingQueryMsg::TokenInfo {  } => query_token_info(deps),
        LPStakingQueryMsg::TotalLocked {  } => query_total_locked(deps),
        LPStakingQueryMsg::Subscribers {  } => query_subscribers(deps),
        _ => authenticated_queries(deps, msg, new_rewards),
    }
}

} // verus!
