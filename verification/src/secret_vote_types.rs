//! Records and messages shared by the poll factory and the polls it creates.
use vstd::prelude::*;
use crate::chain::{HumanAddr, MsgBody};
use crate::types::SecretContract;

verus! {

/// The code a poll is instantiated from.
#[derive(Debug, PartialEq, Eq)]
pub struct PollContract {
    pub code_id: u64,
    pub code_hash: String,
}

/// When a poll ends and what makes its result valid.
#[derive(Clone, Copy, Debug, PartialEq, Eq, Structural)]
pub struct PollConfig {
    /// In seconds.
    pub duration: u64,
    /// Percent of the eligible supply that has to take part.
    pub quorum: u8,
    /// What the winning choice has to exceed.
    pub min_threshold: u8,
}

/// What a poll is about and who proposed it.
#[derive(Debug, PartialEq, Eq)]
pub struct PollMetadata {
    pub title: String,
    pub description: String,
    pub author_addr: Option<HumanAddr>,
    pub author_alias: String,
}

impl Clone for PollMetadata {
    fn clone(&self) -> (res: Self)
        ensures
            res == *self,
    {
        let author_addr = match &self.author_addr {
            Some(a) => Some(a.clone()),
            None => None,
        };
        PollMetadata {
            title: self.title.clone(),
            description: self.description.clone(),
            author_addr,
            author_alias: self.author_alias.clone(),
        }
    }
}

/// What a poll is created with.
#[derive(Clone, Debug, PartialEq, Eq)]
pub struct PollInitMsg {
    pub metadata: PollMetadata,
    pub config: PollConfig,
    pub choices: Vec<String>,
    pub staking_pool: SecretContract,
    pub init_hook: Option<InitHook>,
}

/// The requests a poll acts on.
#[derive(Clone, Debug, PartialEq, Eq)]
#[allow(inconsistent_fields)]
pub enum PollHandleMsg {
    Vote { choice: u8, staking_pool_viewing_key: String },
    UpdateVotingPower { voter: HumanAddr, new_power: u128 },
    Finalize {  },
}

/// A message a new poll sends once it is set up.
#[derive(Clone, Debug, PartialEq, Eq)]
pub struct InitHook {
    pub contract_addr: HumanAddr,
    pub code_hash: String,
    pub msg: MsgBody,
}

/// The requests the poll factory acts on.
#[derive(Clone, Debug, PartialEq, Eq)]
#[allow(inconsistent_fields)]
pub enum PollFactoryHandleMsg {
    NewPoll { poll_metadata: PollMetadata, poll_config: Option<PollConfig>, poll_choices: Vec<String> },
    /// From the staking pool: `voter` now has `new_power`.
    UpdateVotingPower { voter: HumanAddr, new_power: u128 },
    /// From a poll the factory just created: the pre-image of the pending
    /// challenge and the poll's end time.
    RegisterForUpdates { challenge: String, end_time: u64 },
    UpdatePollContract { new_id: u64, new_code_hash: String },
    UpdateDefaultPollConfig { duration: Option<u64>, quorum: Option<u8>, min_threshold: Option<u8> },
}

} // verus!
