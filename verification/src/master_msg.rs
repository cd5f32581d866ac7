//! Messages for the master, the coordinator that decides how much reward
//! each pool is allocated.
use vstd::prelude::*;
use crate::chain::HumanAddr;
use crate::lp_staking_msg::LPStakingHookMsg;

verus! {

#[derive(Clone, Debug, PartialEq, Eq)]
#[allow(inconsistent_fields)]
pub enum MasterHandleMsg {
    /// Asks the master to allocate to the pool at `spy_addr` and to call it
    /// back with the continuation `hook` attached.
    UpdateAllocation { spy_addr: HumanAddr, spy_hash: String, hook: Option<LPStakingHookMsg> },
}

} // verus!
