//! What the poll factory keeps between invocations.
use vstd::prelude::*;
use crate::chain::HumanAddr;
use crate::secret_vote_types::PollConfig;
use crate::types::SecretContract;

verus! {

/// Configuration of the factory.
#[derive(Clone, Debug, PartialEq, Eq)]
pub struct Config {
    /// The code new polls are created from.
    pub poll_contract: PollContract,
    /// The staking pool whose balances are the voting power.
    pub staking_pool: SecretContract,
    /// How many polls were created so far.
    pub id_counter: u128,
    /// Digest of the seed the factory was created with.
    pub prng_seed: Vec<u8>,
}

/// The code a poll is instantiated from.
#[derive(Clone, Debug, PartialEq, Eq)]
pub struct PollContract {
    pub code_id: u64,
    pub code_hash: String,
}

/// A poll that is still running.
#[derive(Debug, PartialEq, Eq)]
pub struct ActivePoll {
    pub address: HumanAddr,
    /// In seconds since the epoch.
    pub end_time: u64,
}

impl Clone for ActivePoll {
    fn clone(&self) -> (res: Self)
        ensures
            res == *self,
    {
        ActivePoll { address: self.address.clone(), end_time: self.end_time }
    }
}

/// Everything the factory stores.
#[derive(Clone, Debug, PartialEq, Eq)]
pub struct FactoryStorage {
    pub admin: HumanAddr,
    /// The configuration of polls that are created without one.
    pub default_poll_config: PollConfig,
    pub config: Config,
    /// Digest of the challenge handed to the poll that was created last and
    /// has not registered yet.
    pub current_challenge: Option<Vec<u8>>,
    /// The polls that receive changes of voting power, in the order they
    /// registered.
    pub active_polls: Vec<ActivePoll>,
}

/// The polls of `polls` that have not ended before `now`.
pub open spec fn still_active(polls: Seq<ActivePoll>, now: u64) -> Seq<ActivePoll> {
    polls.filter(|p: ActivePoll| p.end_time >= now)
}

} // verus!
