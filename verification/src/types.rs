//! Records shared by the staking pool and the governance contracts.
use vstd::prelude::*;
use crate::chain::HumanAddr;

verus! {

/// A reference to another contract: its address and the hash of its code.
#[derive(Debug, PartialEq, Eq)]
pub struct SecretContract {
    pub address: HumanAddr,
    pub contract_hash: String,
}

impl Clone for SecretContract {
    fn clone(&self) -> (res: Self)
        ensures
            res == *self,
    {
        SecretContract { address: self.address.clone(), contract_hash: self.contract_hash.clone() }
    }
}

/// Display name and ticker of the staking position token.
#[derive(Debug, PartialEq, Eq)]
pub struct TokenInfo {
    pub name: String,
    pub symbol: String,
}

impl Clone for TokenInfo {
    fn clone(&self) -> (res: Self)
        ensures
            res == *self,
    {
        TokenInfo { name: self.name.clone(), symbol: self.symbol.clone() }
    }
}

/// Global state of the reward pool.
#[derive(Clone, Copy, Debug, PartialEq, Eq, Structural)]
pub struct RewardPool {
    /// Rewards that arrived while nothing was staked.
    pub residue: u128,
    /// Total amount of the incentivized token that is staked.
    pub inc_token_supply: u128,
    /// Cumulative reward per staked unit, scaled by [`crate::rewards::REWARD_SCALE`].
    pub acc_reward_per_share: u128,
}

/// One participant's position.
#[derive(Clone, Copy, Debug, PartialEq, Eq, Structural)]
pub struct UserInfo {
    /// Amount staked.
    pub locked: u128,
    /// Reward already credited, as of the last settlement.
    pub debt: u128,
}

} // verus!
