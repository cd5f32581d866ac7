//! What the staking pool answers to a request.
use vstd::prelude::*;
use crate::chain::HandleResponse;
use crate::errors::ContractError;
use crate::lp_staking::state::StakingStorage;
use crate::lp_staking_msg::{LPStakingHandleAnswer, LPStakingReceiveAnswer};

verus! {

/// The answer of the staking pool to a request.
#[derive(Clone, Debug, PartialEq, Eq)]
pub enum StakingAnswer {
    Handle(LPStakingHandleAnswer),
    Receive(LPStakingReceiveAnswer),
}

/// A response that carries nothing but `data`.
pub open spec fn is_plain_response(
    resp: HandleResponse<StakingAnswer>,
    data: Option<StakingAnswer>,
) -> bool {
    resp.messages@.len() == 0 && resp.log@.len() == 0 && resp.data == data
}

/// The response that reports `answer`.
pub fn answer_with(answer: LPStakingHandleAnswer) -> (resp: HandleResponse<StakingAnswer>)
    ensures
        is_plain_response(resp, Some(StakingAnswer::Handle(answer))),
{
    HandleResponse {
        messages: Vec::new(),
        log: Vec::new(),
        data: Some(StakingAnswer::Handle(answer)),
    }
}

/// An invocation that was refused with `e` and changed nothing.
pub open spec fn refused(
    before: StakingStorage,
    after: StakingStorage,
    res: Result<HandleResponse<StakingAnswer>, ContractError>,
    e: ContractError,
) -> bool {
    res is Err && res->Err_0 == e && after == before
}

} // verus!
