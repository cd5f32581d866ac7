//! What holds of the staking pool over every run: the stake is conserved,
//! the accumulator does not decrease, and no position is credited more than
//! it has earned.
use vstd::prelude::*;
use crate::chain::{Env, HandleResponse, HumanAddr, InitResponse};
use crate::errors::ContractError;
use crate::keyed::{has_key, index_of, lemma_index_of, with_value, Entry};
use crate::ledger::{
    exactly_settled, is_settlement_of, lemma_accrued_grows, lemma_allocation_keeps_backing,
    lemma_allocation_never_lowers_accumulator, lemma_backed_rewards_are_bounded,
    lemma_emergency_keeps_backing, lemma_joining_keeps_backing, lemma_nothing_accrues_to_nothing,
    lemma_settlement_keeps_backing, total_pending, total_stake, Accounts,
};
use crate::lp_staking::answers::StakingAnswer;
use crate::lp_staking::contract::{handle_post, init_post};
use crate::lp_staking::settlement::{Resize, settle_post};
use crate::lp_staking::state::{
    lemma_total_locked_with_value, position_of, total_locked, StakingStorage,
};
use crate::lp_staking_msg::{LPStakingHandleMsg, LPStakingHookMsg, LPStakingInitMsg};
use crate::rewards::{
    allocate_spec, deposit_spec, emergency_spec, redeem_spec, settled_within, Settlement,
};
use crate::types::{RewardPool, UserInfo};

verus! {

/// A settlement keeps the staked supply equal to the sum of the positions,
/// whenever the pool it is settled against records the same supply as the
/// pool that is stored.
pub proof fn lemma_settlement_conserves_stake(
    before: StakingStorage,
    after: StakingStorage,
    kind: Resize,
    who: HumanAddr,
    pool: RewardPool,
    amount: Option<u128>,
    res: Result<HandleResponse<StakingAnswer>, ContractError>,
)
    requires
        before.conserves_stake(),
        pool.inc_token_supply == before.reward_pool.inc_token_supply,
        kind == Resize::Deposit ==> amount is Some,
        settle_post(
            before,
            after,
            kind,
            who,
            match kind {
                Resize::Deposit => deposit_spec(
                    pool,
                    position_of(before.users.entries@, who@),
                    amount->Some_0,
                ),
                Resize::Redeem => redeem_spec(
                    pool,
                    position_of(before.users.entries@, who@),
                    amount,
                ),
                Resize::Emergency => emergency_spec(
                    pool,
                    position_of(before.users.entries@, who@),
                ),
            },
            res,
        ),
    ensures
        after.conserves_stake(),
{
    if res is Ok {
        let user = position_of(before.users.entries@, who@);
        let s = match kind {
            Resize::Deposit => deposit_spec(pool, user, amount->Some_0)->Ok_0,
            Resize::Redeem => redeem_spec(pool, user, amount)->Ok_0,
            Resize::Emergency => emergency_spec(pool, user)->Ok_0,
        };
        lemma_total_locked_with_value(before.users.entries@, who, s.user);
    }
}

/// Whatever the request, and whether or not it is served, the staked supply
/// that the pool records stays equal to the sum of the positions: deposits
/// and withdrawals move both by the same amount, and nothing else moves
/// either.
pub proof fn lemma_handle_conserves_stake(
    before: StakingStorage,
    env: Env,
    msg: LPStakingHandleMsg,
    after: StakingStorage,
    res: Result<HandleResponse<StakingAnswer>, ContractError>,
)
    requires
        before.conserves_stake(),
        handle_post(before, env, msg, after, res),
    ensures
        after.conserves_stake(),
{
    if res is Ok {
        match msg {
            LPStakingHandleMsg::EmergencyRedeem {  } => {
                lemma_settlement_conserves_stake(
                    before,
                    after,
                    Resize::Emergency,
                    env.message.sender,
                    before.reward_pool,
                    None,
                    res,
                );
            },
            LPStakingHandleMsg::NotifyAllocation { amount, hook } => {
                let pool = allocate_spec(before.reward_pool, amount)->Ok_0;
                match hook {
                    None => {},
                    Some(LPStakingHookMsg::Deposit { from, amount: deposited }) => {
                        lemma_settlement_conserves_stake(
                            before,
                            after,
                            Resize::Deposit,
                            from,
                            pool,
                            Some(deposited),
                            res,
                        );
                    },
                    Some(LPStakingHookMsg::Redeem { to, amount: redeemed }) => {
                        lemma_settlement_conserves_stake(
                            before,
                            after,
                            Resize::Redeem,
                            to,
                            pool,
                            redeemed,
                            res,
                        );
                    },
                }
            },
            _ => {},
        }
    }
}

/// A run of the pool: each state follows from the one before by serving
/// one request.
pub open spec fn is_run(
    states: Seq<StakingStorage>,
    envs: Seq<Env>,
    msgs: Seq<LPStakingHandleMsg>,
    results: Seq<Result<HandleResponse<StakingAnswer>, ContractError>>,
) -> bool {
    &&& states.len() == msgs.len() + 1
    &&& envs.len() == msgs.len()
    &&& results.len() == msgs.len()
    &&& forall|i: int|
        0 <= i < msgs.len() ==> #[trigger] handle_post(
            states[i],
            envs[i],
            msgs[i],
            states[i + 1],
            results[i],
        )
}

/// Over any run that starts with the staked supply equal to the sum of the
/// positions, the two stay equal: after every sequence of deposits,
/// withdrawals and other requests, served or refused.
pub proof fn lemma_run_conserves_stake(
    states: Seq<StakingStorage>,
    envs: Seq<Env>,
    msgs: Seq<LPStakingHandleMsg>,
    results: Seq<Result<HandleResponse<StakingAnswer>, ContractError>>,
    n: int,
)
    requires
        is_run(states, envs, msgs, results),
        states[0].conserves_stake(),
        0 <= n < states.len(),
    ensures
        states[n].conserves_stake(),
    decreases n,
{
    if n > 0 {
        lemma_run_conserves_stake(states, envs, msgs, results, n - 1);
        assert(handle_post(states[n - 1], envs[n - 1], msgs[n - 1], states[n - 1 + 1], results[n - 1]));
        lemma_handle_conserves_stake(
            states[n - 1],
            envs[n - 1],
            msgs[n - 1],
            states[n],
            results[n - 1],
        );
    }
}

/// Whatever the request, and whether or not it is served, the accumulator
/// of the pool does not decrease.
pub proof fn lemma_handle_never_lowers_accumulator(
    before: StakingStorage,
    env: Env,
    msg: LPStakingHandleMsg,
    after: StakingStorage,
    res: Result<HandleResponse<StakingAnswer>, ContractError>,
)
    requires
        handle_post(before, env, msg, after, res),
    ensures
        after.reward_pool.acc_reward_per_share >= before.reward_pool.acc_reward_per_share,
{
    if res is Ok {
        match msg {
            LPStakingHandleMsg::NotifyAllocation { amount, hook } => {
                lemma_allocation_never_lowers_accumulator(before.reward_pool, amount);
            },
            _ => {},
        }
    }
}

/// Storing a freshly settled position at an accumulator that has not
/// decreased leaves no position credited more than its stake has earned.
proof fn lemma_settlement_keeps_positions_settled(
    before: StakingStorage,
    after: StakingStorage,
    who: HumanAddr,
    s: Settlement,
)
    requires
        before.positions_settled(),
        after.users.entries@ == with_value(before.users.entries@, who, s.user),
        after.reward_pool == s.pool,
        s.pool.acc_reward_per_share >= before.reward_pool.acc_reward_per_share,
        settled_within(s.user, s.pool.acc_reward_per_share),
    ensures
        after.positions_settled(),
{
    let users = before.users.entries@;
    lemma_index_of(users, who@);
    assert forall|i: int| 0 <= i < after.users.entries@.len() implies settled_within(
        (#[trigger] after.users.entries@[i]).value,
        after.reward_pool.acc_reward_per_share,
    ) by {
        if i < users.len() && !(has_key(users, who@) && i == index_of(users, who@)) {
            assert(after.users.entries@[i] == users[i]);
            lemma_accrued_grows(
                users[i].value.locked,
                before.reward_pool.acc_reward_per_share,
                s.pool.acc_reward_per_share,
            );
        }
    }
}

/// Whatever the request, and whether or not it is served, no position is
/// credited more than its stake has earned, if none was before: what a
/// settlement pays out is never negative.
pub proof fn lemma_handle_keeps_positions_settled(
    before: StakingStorage,
    env: Env,
    msg: LPStakingHandleMsg,
    after: StakingStorage,
    res: Result<HandleResponse<StakingAnswer>, ContractError>,
)
    requires
        before.positions_settled(),
        handle_post(before, env, msg, after, res),
    ensures
        after.positions_settled(),
{
    if res is Ok {
        match msg {
            LPStakingHandleMsg::EmergencyRedeem {  } => {
                let user = position_of(before.users.entries@, env.message.sender@);
                let s = emergency_spec(before.reward_pool, user)->Ok_0;
                lemma_nothing_accrues_to_nothing(before.reward_pool.acc_reward_per_share);
                lemma_settlement_keeps_positions_settled(before, after, env.message.sender, s);
            },
            LPStakingHandleMsg::NotifyAllocation { amount, hook } => {
                let pool = allocate_spec(before.reward_pool, amount)->Ok_0;
                lemma_allocation_never_lowers_accumulator(before.reward_pool, amount);
                match hook {
                    None => {
                        assert forall|i: int|
                            0 <= i < after.users.entries@.len() implies settled_within(
                            (#[trigger] after.users.entries@[i]).value,
                            after.reward_pool.acc_reward_per_share,
                        ) by {
                            lemma_accrued_grows(
                                before.users.entries@[i].value.locked,
                                before.reward_pool.acc_reward_per_share,
                                pool.acc_reward_per_share,
                            );
                        }
                    },
                    Some(LPStakingHookMsg::Deposit { from, amount: deposited }) => {
                        let user = position_of(before.users.entries@, from@);
                        let s = deposit_spec(pool, user, deposited)->Ok_0;
                        lemma_settlement_keeps_positions_settled(before, after, from, s);
                    },
                    Some(LPStakingHookMsg::Redeem { to, amount: redeemed }) => {
                        let user = position_of(before.users.entries@, to@);
                        let s = redeem_spec(pool, user, redeemed)->Ok_0;
                        lemma_settlement_keeps_positions_settled(before, after, to, s);
                    },
                }
            },
            _ => {},
        }
    }
}

/// The positions that are stored, without the addresses.
pub open spec fn positions(users: Seq<Entry<UserInfo>>) -> Seq<UserInfo> {
    Seq::new(users.len(), |i: int| users[i].value)
}

/// The accounts of the pool, given the totals of what was allocated to it,
/// what it paid out in rewards and how many settlements rounded a debt.
pub open spec fn accounts_of(deps: StakingStorage, allocated: int, paid: int, rounded: int)
    -> Accounts {
    Accounts {
        pool: deps.reward_pool,
        users: positions(deps.users.entries@),
        allocated,
        paid,
        rounded,
    }
}

/// The settlement that a request carries out, if it is served and carries
/// one out.
pub open spec fn settlement_served(before: StakingStorage, env: Env, msg: LPStakingHandleMsg)
    -> Option<(HumanAddr, Settlement)> {
    let outcome = if before.config.is_stopped {
        match msg {
            LPStakingHandleMsg::EmergencyRedeem {  } => Some(
                (
                    env.message.sender,
                    emergency_spec(
                        before.reward_pool,
                        position_of(before.users.entries@, env.message.sender@),
                    ),
                ),
            ),
            _ => None,
        }
    } else {
        match msg {
            LPStakingHandleMsg::NotifyAllocation { amount, hook: Some(hook) } => match allocate_spec(
                before.reward_pool,
                amount,
            ) {
                Ok(pool) => match hook {
                    LPStakingHookMsg::Deposit { from, amount: deposited } => Some(
                        (
                            from,
                            deposit_spec(
                                pool,
                                position_of(before.users.entries@, from@),
                                deposited,
                            ),
                        ),
                    ),
                    LPStakingHookMsg::Redeem { to, amount: redeemed } => Some(
                        (to, redeem_spec(pool, position_of(before.users.entries@, to@), redeemed)),
                    ),
                },
                Err(_) => None,
            },
            _ => None,
        }
    };
    match outcome {
        Some((who, Ok(s))) => Some((who, s)),
        _ => None,
    }
}

/// What a request that was served adds to the total of allocations.
pub open spec fn allocated_by(before: StakingStorage, msg: LPStakingHandleMsg) -> int {
    match msg {
        LPStakingHandleMsg::NotifyAllocation { amount, .. } => if before.config.is_stopped {
            0
        } else {
            amount as int
        },
        _ => 0,
    }
}

/// What a request that was served adds to the total of rewards paid.
pub open spec fn paid_by(before: StakingStorage, env: Env, msg: LPStakingHandleMsg) -> int {
    match settlement_served(before, env, msg) {
        Some((_, s)) => s.reward as int,
        None => 0,
    }
}

/// What a request that was served adds to the number of settlements that
/// rounded a debt: one, if it settled a position and had to round.
pub open spec fn rounded_by(before: StakingStorage, env: Env, msg: LPStakingHandleMsg) -> int {
    match settlement_served(before, env, msg) {
        Some((_, s)) => if exactly_settled(s.user, s.pool.acc_reward_per_share) {
            0
        } else {
            1
        },
        None => 0,
    }
}

/// The stake of the positions is the sum of what the entries hold.
proof fn lemma_positions_stake(users: Seq<Entry<UserInfo>>)
    ensures
        total_stake(positions(users)) == total_locked(users),
    decreases users.len(),
{
    if users.len() > 0 {
        assert(positions(users).drop_last() =~= positions(users.drop_last()));
        lemma_positions_stake(users.drop_last());
    }
}

/// Settling the position of `who` in backed accounts leaves them backed,
/// with what was paid and whether the debt was rounded added to the totals.
proof fn lemma_stored_settlement_keeps_backing(
    a: Accounts,
    users: Seq<Entry<UserInfo>>,
    who: HumanAddr,
    s: Settlement,
    emergency: bool,
) -> (after: Accounts)
    requires
        a.is_backed(),
        a.users == positions(users),
        if emergency {
            emergency_spec(a.pool, position_of(users, who@)) == Ok::<Settlement, ContractError>(
                s,
            )
        } else {
            is_settlement_of(a.pool, position_of(users, who@), s)
        },
    ensures
        after.is_backed(),
        after.pool == s.pool,
        after.users == positions(with_value(users, who, s.user)),
        after.allocated == a.allocated,
        after.paid == a.paid + s.reward,
        after.rounded == a.rounded + if exactly_settled(s.user, s.pool.acc_reward_per_share) {
            0int
        } else {
            1int
        },
{
    lemma_index_of(users, who@);
    let i = index_of(users, who@);
    let joined = if has_key(users, who@) {
        a
    } else {
        a.after_joining()
    };
    if !has_key(users, who@) {
        lemma_joining_keeps_backing(a);
    }
    assert(joined.users[i] == position_of(users, who@));
    if emergency {
        lemma_emergency_keeps_backing(joined, i);
        lemma_nothing_accrues_to_nothing(s.pool.acc_reward_per_share);
    } else {
        lemma_settlement_keeps_backing(joined, i, s);
    }
    let after = joined.after_settlement(i, s);
    assert(after.users =~= positions(with_value(users, who, s.user)));
    after
}

/// The reward accounting of the pool stays backed. If the pool is backed by
/// some totals of allocations, payments and rounded settlements, then after
/// any request, served or refused, it is backed by the totals that the
/// request has added to.
pub proof fn lemma_handle_keeps_backing(
    before: StakingStorage,
    env: Env,
    msg: LPStakingHandleMsg,
    after: StakingStorage,
    res: Result<HandleResponse<StakingAnswer>, ContractError>,
    allocated: int,
    paid: int,
    rounded: int,
)
    requires
        accounts_of(before, allocated, paid, rounded).is_backed(),
        handle_post(before, env, msg, after, res),
    ensures
        res is Err ==> accounts_of(after, allocated, paid, rounded).is_backed(),
        res is Ok ==> accounts_of(
            after,
            allocated + allocated_by(before, msg),
            paid + paid_by(before, env, msg),
            rounded + rounded_by(before, env, msg),
        ).is_backed(),
{
    let a = accounts_of(before, allocated, paid, rounded);
    let users = before.users.entries@;
    if res is Ok {
        match msg {
            LPStakingHandleMsg::EmergencyRedeem {  } => {
                let s = emergency_spec(
                    before.reward_pool,
                    position_of(users, env.message.sender@),
                )->Ok_0;
                let next = lemma_stored_settlement_keeps_backing(
                    a,
                    users,
                    env.message.sender,
                    s,
                    true,
                );
                assert(next == accounts_of(after, allocated, paid + s.reward, next.rounded));
            },
            LPStakingHandleMsg::NotifyAllocation { amount, hook } => {
                lemma_allocation_keeps_backing(a, amount);
                let granted = a.after_allocation(amount);
                match hook {
                    None => {
                        assert(granted == accounts_of(after, allocated + amount, paid, rounded));
                    },
                    Some(LPStakingHookMsg::Deposit { from, amount: deposited }) => {
                        let s = deposit_spec(
                            granted.pool,
                            position_of(users, from@),
                            deposited,
                        )->Ok_0;
                        let next = lemma_stored_settlement_keeps_backing(
                            granted,
                            users,
                            from,
                            s,
                            false,
                        );
                        assert(next == accounts_of(
                            after,
                            allocated + amount,
                            paid + s.reward,
                            next.rounded,
                        ));
                    },
                    Some(LPStakingHookMsg::Redeem { to, amount: redeemed }) => {
                        let s = redeem_spec(granted.pool, position_of(users, to@), redeemed)->Ok_0;
                        let next = lemma_stored_settlement_keeps_backing(
                            granted,
                            users,
                            to,
                            s,
                            false,
                        );
                        assert(next == accounts_of(
                            after,
                            allocated + amount,
                            paid + s.reward,
                            next.rounded,
                        ));
                    },
                }
            },
            _ => {
                assert(a == accounts_of(after, allocated, paid, rounded));
            },
        }
    }
}

/// What the pool owes is bounded by what it was given. In a pool that is
/// backed by some totals, what all stored positions would be paid if they
/// were settled now, what was paid already and the residue together exceed
/// what was ever allocated by no more than one unit for each settlement
/// that rounded a debt; with no such settlement, not at all.
pub proof fn lemma_pool_owes_what_it_was_given(
    deps: StakingStorage,
    allocated: int,
    paid: int,
    rounded: int,
)
    requires
        accounts_of(deps, allocated, paid, rounded).is_backed(),
    ensures
        total_pending(positions(deps.users.entries@), deps.reward_pool.acc_reward_per_share)
            + paid + deps.reward_pool.residue <= allocated + rounded,
        deps.conserves_stake(),
        deps.positions_settled(),
{
    lemma_backed_rewards_are_bounded(accounts_of(deps, allocated, paid, rounded));
    lemma_positions_stake(deps.users.entries@);
    assert forall|i: int| 0 <= i < deps.users.entries@.len() implies settled_within(
        (#[trigger] deps.users.entries@[i]).value,
        deps.reward_pool.acc_reward_per_share,
    ) by {
        assert(positions(deps.users.entries@)[i] == deps.users.entries@[i].value);
    }
}

/// A pool starts backed: nothing was allocated to it, it has paid nothing
/// and it has no positions.
pub proof fn lemma_new_pool_is_backed(
    env: Env,
    msg: LPStakingInitMsg,
    res: Result<(StakingStorage, InitResponse), ContractError>,
)
    requires
        init_post(env, msg, res),
        res is Ok,
    ensures
        accounts_of(res->Ok_0.0, 0, 0, 0).is_backed(),
{
    assert(positions(res->Ok_0.0.users.entries@) =~= Seq::<UserInfo>::empty());
}

} // verus!
