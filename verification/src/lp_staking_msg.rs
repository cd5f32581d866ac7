//! Messages of the staking pool.
use vstd::prelude::*;
use crate::chain::HumanAddr;
use crate::types::{SecretContract, TokenInfo};
use crate::viewing_key::ViewingKey;

verus! {

/// What the pool is created with.
#[derive(Clone, Debug, PartialEq, Eq)]
pub struct LPStakingInitMsg {
    pub reward_token: SecretContract,
    pub inc_token: SecretContract,
    pub master: SecretContract,
    pub viewing_key: String,
    pub token_info: TokenInfo,
    pub prng_seed: Vec<u8>,
    pub subscribers: Option<Vec<SecretContract>>,
}

/// The requests the pool acts on.
#[derive(Clone, Debug, PartialEq, Eq)]
#[allow(inconsistent_fields)]
pub enum LPStakingHandleMsg {
    /// Withdraw `amount`, or the whole position when it is absent.
    Redeem { amount: Option<u128> },
    CreateViewingKey { entropy: String, padding: Option<String> },
    SetViewingKey { key: String, padding: Option<String> },
    /// Take the stake out and forfeit every pending reward.
    EmergencyRedeem {  },
    /// The incentivized token reports a transfer of `amount` from `from`.
    Receive { sender: HumanAddr, from: HumanAddr, amount: u128, msg: LPStakingReceiveMsg },
    StopContract {  },
    ResumeContract {  },
    ChangeAdmin { address: HumanAddr },
    AddSubs { contracts: Vec<SecretContract> },
    RemoveSubs { contracts: Vec<HumanAddr> },
    /// The master's callback: `amount` was allocated to the pool, and the
    /// continuation in `hook`, if any, is to be carried out now.
    NotifyAllocation { amount: u128, hook: Option<LPStakingHookMsg> },
}

/// What the pool answers to a request.
#[derive(Clone, Debug, PartialEq, Eq)]
#[allow(inconsistent_fields)]
pub enum LPStakingHandleAnswer {
    Redeem { status: LPStakingResponseStatus },
    CreateViewingKey { key: ViewingKey },
    SetViewingKey { status: LPStakingResponseStatus },
    StopContract { status: LPStakingResponseStatus },
    ResumeContract { status: LPStakingResponseStatus },
    ChangeAdmin { status: LPStakingResponseStatus },
    SetDeadline { status: LPStakingResponseStatus },
    ClaimRewardPool { status: LPStakingResponseStatus },
    EmergencyRedeem { status: LPStakingResponseStatus },
    AddSubs { status: LPStakingResponseStatus },
    RemoveSubs { status: LPStakingResponseStatus },
}

/// What a transfer of the incentivized token asks of the pool.
#[derive(Clone, Copy, Debug, PartialEq, Eq)]
#[allow(inconsistent_fields)]
pub enum LPStakingReceiveMsg {
    Deposit {  },
}

/// The continuation of a two-phase operation: what to do to whose position
/// once the master has allocated.
#[derive(Clone, Debug, PartialEq, Eq)]
#[allow(inconsistent_fields)]
pub enum LPStakingHookMsg {
    Deposit { from: HumanAddr, amount: u128 },
    Redeem { to: HumanAddr, amount: Option<u128> },
}

/// What the pool answers to a transfer it received.
#[derive(Clone, Copy, Debug, PartialEq, Eq)]
#[allow(inconsistent_fields)]
pub enum LPStakingReceiveAnswer {
    Deposit { status: LPStakingResponseStatus },
    DepositRewards { status: LPStakingResponseStatus },
}

/// The queries the pool answers.
#[derive(Clone, Debug, PartialEq, Eq)]
#[allow(inconsistent_fields)]
pub enum LPStakingQueryMsg {
    TokenInfo {  },
    ContractStatus {  },
    RewardToken {  },
    IncentivizedToken {  },
    TotalLocked {  },
    Subscribers {  },
    /// Pending rewards of `address`; needs its viewing key.
    Rewards { address: HumanAddr, key: String, height: u64 },
    /// Staked balance of `address`; needs its viewing key.
    Balance { address: HumanAddr, key: String },
}

impl LPStakingQueryMsg {
    /// Whether the query is answered only to the holder of a viewing key.
    pub open spec fn is_authenticated(&self) -> bool {
        self is Rewards || self is Balance
    }

    /// The address an authenticated query is about.
    pub open spec fn queried_address(&self) -> HumanAddr {
        match self {
            LPStakingQueryMsg::Rewards { address, .. } => *address,
            LPStakingQueryMsg::Balance { address, .. } => *address,
            _ => arbitrary(),
        }
    }

    /// The viewing key an authenticated query presents.
    pub open spec fn presented_key(&self) -> String {
        match self {
            LPStakingQueryMsg::Rewards { key, .. } => *key,
            LPStakingQueryMsg::Balance { key, .. } => *key,
            _ => arbitrary(),
        }
    }

    /// The address and the viewing key of an authenticated query.
    pub fn get_validation_params(&self) -> (res: (&HumanAddr, ViewingKey))
        requires
            self.is_authenticated(),
        ensures
            *res.0 == self.queried_address(),
            res.1.0 == self.presented_key(),
    {
        match self {
            LPStakingQueryMsg::Rewards { address, key, .. } => (address, ViewingKey(key.clone())),
            LPStakingQueryMsg::Balance { address, key } => (address, ViewingKey(key.clone())),
            _ => {
                assert(false);
                vstd::pervasive::unreached()
            },
        }
    }
}

/// What the pool answers to a query.
#[derive(Clone, Debug, PartialEq, Eq)]
#[allow(inconsistent_fields)]
pub enum LPStakingQueryAnswer {
    TokenInfo { name: String, symbol: String, decimals: u8, total_supply: Option<u128> },
    Rewards { rewards: u128 },
    Balance { amount: u128 },
    ContractStatus { is_stopped: bool },
    RewardToken { token: SecretContract },
    IncentivizedToken { token: SecretContract },
    TotalLocked { amount: u128 },
    Subscribers { contracts: Vec<SecretContract> },
    QueryError { msg: String },
}

#[derive(Clone, Copy, Debug, PartialEq, Eq, Structural)]
pub enum LPStakingResponseStatus {
    Success,
    Failure,
}

} // verus!
