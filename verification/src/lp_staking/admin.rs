//! The requests of the admin of the staking pool: stopping and resuming
//! it, handing it over, and keeping the list of subscribers.
use vstd::prelude::*;
use crate::chain::{Env, HandleResponse, HumanAddr};
use crate::errors::ContractError;
use crate::lp_staking::answers::{answer_with, is_plain_response, StakingAnswer};
use crate::lp_staking::state::{Config, StakingStorage};
use crate::lp_staking_msg::{LPStakingHandleAnswer, LPStakingResponseStatus};
use crate::types::SecretContract;

verus! {

/// Passes only the admin.
pub fn enforce_admin(config: &Config, env: &Env) -> (res: Result<(), ContractError>)
    ensures
        res is Ok <==> config.admin@ == env.message.sender@,
        res is Err ==> res->Err_0 == ContractError::Unauthorized,
{
    if !config.admin.same_as(&env.message.sender) {
        return Err(ContractError::Unauthorized);
    }
    Ok(())
}

/// What a request of the admin does: from anyone else it is refused and
/// nothing changes; from the admin it answers `answer` and leaves `after`
/// as `changed` says.
pub open spec fn admin_post(
    before: StakingStorage,
    env: Env,
    after: StakingStorage,
    res: Result<HandleResponse<StakingAnswer>, ContractError>,
    answer: LPStakingHandleAnswer,
    changed: bool,
) -> bool {
    if before.config.admin@ != env.message.sender@ {
        res is Err && res->Err_0 == ContractError::Unauthorized && after == before
    } else {
        res is Ok && is_plain_response(res->Ok_0, Some(StakingAnswer::Handle(answer))) && changed
    }
}

/// What stopping does, for the admin: the pool is marked stopped.
pub open spec fn stop_contract_post(
    before: StakingStorage,
    env: Env,
    after: StakingStorage,
    res: Result<HandleResponse<StakingAnswer>, ContractError>,
) -> bool {
    admin_post(
        before,
        env,
        after,
        res,
        LPStakingHandleAnswer::StopContract { status: LPStakingResponseStatus::Success },
        after == (StakingStorage { config: Config { is_stopped: true, ..before.config }, ..before }),
    )
}

/// What resuming does, for the admin: the pool is no longer marked stopped.
pub open spec fn resume_contract_post(
    before: StakingStorage,
    env: Env,
    after: StakingStorage,
    res: Result<HandleResponse<StakingAnswer>, ContractError>,
) -> bool {
    admin_post(
        before,
        env,
        after,
        res,
        LPStakingHandleAnswer::ResumeContract { status: LPStakingResponseStatus::Success },
        after == (StakingStorage { config: Config { is_stopped: false, ..before.config }, ..before }),
    )
}

/// What changing the admin does, for the admin: `address` is the admin.
pub open spec fn change_admin_post(
    before: StakingStorage,
    env: Env,
    address: HumanAddr,
    after: StakingStorage,
    res: Result<HandleResponse<StakingAnswer>, ContractError>,
) -> bool {
    admin_post(
        before,
        env,
        after,
        res,
        LPStakingHandleAnswer::ChangeAdmin { status: LPStakingResponseStatus::Success },
        after == (StakingStorage { config: Config { admin: address, ..before.config }, ..before }),
    )
}

/// What adding subscribers does, for the admin: `new_subs` follow the
/// subscribers there were.
pub open spec fn add_subscribers_post(
    before: StakingStorage,
    env: Env,
    new_subs: Seq<SecretContract>,
    after: StakingStorage,
    res: Result<HandleResponse<StakingAnswer>, ContractError>,
) -> bool {
    admin_post(
        before,
        env,
        after,
        res,
        LPStakingHandleAnswer::AddSubs { status: LPStakingResponseStatus::Success },
        same_but_subscribers(after, before) && after.subscribers@ == before.subscribers@
            + new_subs,
    )
}

/// What removing subscribers does, for the admin: the contracts at the
/// addresses `removed` leave the list, the others keep their order.
pub open spec fn remove_subscribers_post(
    before: StakingStorage,
    env: Env,
    removed: Seq<HumanAddr>,
    after: StakingStorage,
    res: Result<HandleResponse<StakingAnswer>, ContractError>,
) -> bool {
    admin_post(
        before,
        env,
        after,
        res,
        LPStakingHandleAnswer::RemoveSubs { status: LPStakingResponseStatus::Success },
        same_but_subscribers(after, before) && after.subscribers@ == remaining_subscribers(
            before.subscribers@,
            removed,
        ),
    )
}

/// Stops the pool: from now on only the emergency exit and resuming are
/// served. For the admin only.
pub fn stop_contract(deps: &mut StakingStorage, env: &Env) -> (res: Result<
    HandleResponse<StakingAnswer>,
    ContractError,
>)
    ensures
        stop_contract_post(*old(deps), *env, *final(deps), res),
{
    enforce_admin(&deps.config, env)?;
    deps.config.is_stopped = true;
    Ok(answer_with(LPStakingHandleAnswer::StopContract { status: LPStakingResponseStatus::Success }))
}

/// Resumes a stopped pool. For the admin only.
pub fn resume_contract(deps: &mut StakingStorage, env: &Env) -> (res: Result<
    HandleResponse<StakingAnswer>,
    ContractError,
>)
    ensures
        resume_contract_post(*old(deps), *env, *final(deps), res),
{
    enforce_admin(&deps.config, env)?;
    deps.config.is_stopped = false;
    Ok(
        answer_with(
            LPStakingHandleAnswer::ResumeContract { status: LPStakingResponseStatus::Success },
        ),
    )
}

/// Hands the pool over to the admin `address`. For the admin only.
pub fn change_admin(deps: &mut StakingStorage, env: &Env, address: HumanAddr) -> (res: Result<
    HandleResponse<StakingAnswer>,
    ContractError,
>)
    ensures
        change_admin_post(*old(deps), *env, address, *final(deps), res),
{
    enforce_admin(&deps.config, env)?;
    deps.config.admin = address;
    Ok(answer_with(LPStakingHandleAnswer::ChangeAdmin { status: LPStakingResponseStatus::Success }))
}

/// Everything but the subscriber list is as in `before`.
pub open spec fn same_but_subscribers(after: StakingStorage, before: StakingStorage) -> bool {
    &&& after.config == before.config
    &&& after.reward_pool == before.reward_pool
    &&& after.token_info == before.token_info
    &&& after.users == before.users
    &&& after.viewing_keys == before.viewing_keys
}

/// Adds `new_subs` to the end of the subscriber list. For the admin only.
pub fn add_subscribers(deps: &mut StakingStorage, env: &Env, new_subs: Vec<SecretContract>) -> (res:
    Result<HandleResponse<StakingAnswer>, ContractError>)
    ensures
        add_subscribers_post(*old(deps), *env, new_subs@, *final(deps), res),
{
    enforce_admin(&deps.config, env)?;
    let mut new_subs = new_subs;
    deps.subscribers.append(&mut new_subs);
    Ok(answer_with(LPStakingHandleAnswer::AddSubs { status: LPStakingResponseStatus::Success }))
}

/// Whether `addr` is one of `addrs`.
pub open spec fn is_listed(addrs: Seq<HumanAddr>, addr: Seq<char>) -> bool {
    exists|i: int| 0 <= i < addrs.len() && (#[trigger] addrs[i])@ == addr
}

/// The subscribers that stay when those at `removed` leave.
pub open spec fn remaining_subscribers(subs: Seq<SecretContract>, removed: Seq<HumanAddr>) -> Seq<
    SecretContract,
> {
    subs.filter(|s: SecretContract| !is_listed(removed, s.address@))
}

/// Whether `addr` is one of `addrs`.
pub fn address_listed(addrs: &Vec<HumanAddr>, addr: &HumanAddr) -> (res: bool)
    ensures
        res == is_listed(addrs@, addr@),
{
    let mut i: usize = 0;
    while i < addrs.len()
        invariant
            i <= addrs@.len(),
            forall|j: int| 0 <= j < i ==> (#[trigger] addrs@[j])@ != addr@,
        decreases addrs@.len() - i,
    {
        if addrs[i].same_as(addr) {
            return true;
        }
        i += 1;
    }
    false
}

/// Takes every contract at one of the addresses `subs_to_remove` off the
/// subscriber list; the others keep their order. For the admin only.
pub fn remove_subscribers(
    deps: &mut StakingStorage,
    env: &Env,
    subs_to_remove: Vec<HumanAddr>,
) -> (res: Result<HandleResponse<StakingAnswer>, ContractError>)
    ensures
        remove_subscribers_post(*old(deps), *env, subs_to_remove@, *final(deps), res),
{
    enforce_admin(&deps.config, env)?;
    let ghost keep = |s: SecretContract| !is_listed(subs_to_remove@, s.address@);
    let mut kept: Vec<SecretContract> = Vec::new();
    let mut i: usize = 0;
    while i < deps.subscribers.len()
        invariant
            i <= deps.subscribers@.len(),
            *deps == *old(deps),
            keep == |s: SecretContract| !is_listed(subs_to_remove@, s.address@),
            kept@ == deps.subscribers@.take(i as int).filter(keep),
        decreases deps.subscribers@.len() - i,
    {
        proof {
            let sofar = deps.subscribers@.take(i as int);
            assert(deps.subscribers@.take(i as int + 1) =~= sofar.push(deps.subscribers@[i as int]));
            sofar.lemma_filter_push(deps.subscribers@[i as int], keep);
        }
        if !address_listed(&subs_to_remove, &deps.subscribers[i].address) {
            kept.push(deps.subscribers[i].clone());
        }
        i += 1;
    }
    assert(deps.subscribers@.take(i as int) =~= deps.subscribers@);
    deps.subscribers = kept;
    Ok(answer_with(LPStakingHandleAnswer::RemoveSubs { status: LPStakingResponseStatus::Success }))
}

} // verus!
