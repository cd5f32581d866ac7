//! Queries and answers of a poll.
use vstd::prelude::*;
use crate::chain::HumanAddr;
use crate::secret_poll::state::StoredPollConfig;
use crate::secret_vote_types::PollMetadata;

verus! {

/// The result of a poll, as finalizing reports it.
#[derive(Clone, Debug, PartialEq, Eq)]
pub struct FinalizeAnswer {
    pub valid: bool,
    pub choices: Vec<String>,
    pub tally: Vec<u128>,
}

/// The queries a poll answers.
#[derive(Clone, Debug, PartialEq, Eq)]
#[allow(inconsistent_fields)]
pub enum QueryMsg {
    Choices {  },
    VoteInfo {  },
    HasVoted { voter: HumanAddr },
    Tally {  },
    VoteConfig {  },
    NumberOfVoters {  },
    /// The vote of `voter`; needs the voter's viewing key with the staking pool.
    Vote { voter: HumanAddr, key: String },
}

/// What a poll answers to a query.
#[derive(Clone, Debug, PartialEq, Eq)]
#[allow(inconsistent_fields)]
pub enum QueryAnswer {
    Choices { choices: Vec<String> },
    VoteInfo { info: PollMetadata },
    HasVoted { has_voted: bool },
    Tally { choices: Vec<String>, tally: Vec<u128> },
    VoteConfig { vote_config: StoredPollConfig },
    Vote { choice: u8, voting_power: u128 },
    NumberOfVoters { count: u64 },
}

#[derive(Clone, Copy, Debug, PartialEq, Eq, Structural)]
pub enum ResponseStatus {
    Success,
    Failure,
}

} // verus!
