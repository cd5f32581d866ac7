//! Creation message, queries and answers of the poll factory.
use vstd::prelude::*;
use crate::chain::HumanAddr;
use crate::poll_factory::state::{ActivePoll, PollContract};
use crate::secret_vote_types::PollConfig;
use crate::types::SecretContract;

verus! {

/// What the factory is created with.
#[derive(Clone, Debug, PartialEq, Eq)]
pub struct InitMsg {
    pub prng_seed: Vec<u8>,
    pub poll_contract: PollContract,
    pub staking_pool: SecretContract,
}

/// The queries the factory answers.
#[derive(Clone, Copy, Debug, PartialEq, Eq)]
pub enum QueryMsg {
    /// The registered polls that have not ended before `current_time`.
    ActivePolls { current_time: u64 },
    DefaultPollConfig {  },
    StakingPool {  },
    PollCode {  },
    Admin {  },
}

/// What the factory answers to a query.
#[derive(Clone, Debug, PartialEq, Eq)]
pub enum QueryAnswer {
    ActivePolls { active_polls: Vec<ActivePoll> },
    DefaultPollConfig { poll_config: PollConfig },
    StakingPool { contract: SecretContract },
    PollCode { contract: PollContract },
    Admin { address: HumanAddr },
}

#[derive(Clone, Copy, Debug, PartialEq, Eq, Structural)]
pub enum ResponseStatus {
    Success,
    Failure,
}

} // verus!
