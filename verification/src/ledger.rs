//! Why the reward accounting is fair: what a pool owes its positions is
//! backed by what was allocated to it, up to the rounding of debts. The
//! statements are over a model of the pool with all its positions and the
//! running totals of allocations and payments.
//!
//! A debt is rounded down when a position is settled, in the participant's
//! favour. A settlement whose debt is rounded can therefore let the position
//! collect, later, less than one unit that was never allocated. The model
//! counts these settlements, and the bound on the rewards allows one unit
//! for each.
use vstd::prelude::*;
use crate::errors::ContractError;
use crate::lp_staking::constants::REWARD_SCALE;
use crate::rewards::{
    accrued, allocate_spec, deposit_spec, emergency_spec, pending, redeem_spec, settled_within,
    Settlement,
};
use crate::types::{RewardPool, UserInfo};

verus! {

/// A pool with all its positions and the totals of what was allocated to it
/// and what it paid out in rewards.
pub struct Accounts {
    pub pool: RewardPool,
    pub users: Seq<UserInfo>,
    /// Everything that was ever allocated to the pool.
    pub allocated: int,
    /// Everything the pool paid out in rewards.
    pub paid: int,
    /// How many settlements rounded the debt they left.
    pub rounded: int,
}

/// The sum of what the positions hold.
pub open spec fn total_stake(users: Seq<UserInfo>) -> int
    decreases users.len(),
{
    if users.len() == 0 {
        0
    } else {
        total_stake(users.drop_last()) + users.last().locked as int
    }
}

/// The sum of what the positions would be paid if all were settled at `acc`.
pub open spec fn total_pending(users: Seq<UserInfo>, acc: u128) -> int
    decreases users.len(),
{
    if users.len() == 0 {
        0
    } else {
        total_pending(users.drop_last(), acc) + pending(users.last(), acc)
    }
}

/// What a position has earned and was not credited, before scaling down:
/// `REWARD_SCALE` times the pending reward, and the fraction of a unit that
/// rounding leaves out.
pub open spec fn claim(user: UserInfo, acc: u128) -> int {
    user.locked as int * acc as int - REWARD_SCALE as int * user.debt as int
}

/// The sum of the claims of the positions.
pub open spec fn total_claim(users: Seq<UserInfo>, acc: u128) -> int
    decreases users.len(),
{
    if users.len() == 0 {
        0
    } else {
        total_claim(users.drop_last(), acc) + claim(users.last(), acc)
    }
}

/// A position whose debt was re-baselined without rounding.
pub open spec fn exactly_settled(user: UserInfo, acc: u128) -> bool {
    (user.locked as int * acc as int) % (REWARD_SCALE as int) == 0
}

impl Accounts {
    /// The invariant of fair accounting: the pool records the stake of its
    /// positions, no position was credited more than it earned, and the
    /// claims of the positions, the rewards paid and the residue together
    /// exceed what was allocated by less than one unit for each settlement
    /// that rounded a debt.
    pub open spec fn is_backed(self) -> bool {
        &&& total_stake(self.users) == self.pool.inc_token_supply as int
        &&& forall|i: int|
            0 <= i < self.users.len() ==> settled_within(
                #[trigger] self.users[i],
                self.pool.acc_reward_per_share,
            )
        &&& 0 <= self.rounded
        &&& total_claim(self.users, self.pool.acc_reward_per_share) + REWARD_SCALE as int * (
        self.paid + self.pool.residue as int) <= REWARD_SCALE as int * self.allocated + (
        REWARD_SCALE as int - 1) * self.rounded
    }

    /// The accounts after `newly_allocated` arrives at the pool.
    pub open spec fn after_allocation(self, newly_allocated: u128) -> Accounts {
        Accounts {
            pool: allocate_spec(self.pool, newly_allocated)->Ok_0,
            allocated: self.allocated + newly_allocated as int,
            ..self
        }
    }

    /// The accounts after the position `i` is settled as `s` says.
    pub open spec fn after_settlement(self, i: int, s: Settlement) -> Accounts {
        Accounts {
            pool: s.pool,
            users: self.users.update(i, s.user),
            paid: self.paid + s.reward as int,
            rounded: self.rounded + if exactly_settled(s.user, s.pool.acc_reward_per_share) {
                0int
            } else {
                1int
            },
            ..self
        }
    }

    /// The accounts after a participant without a position joins.
    pub open spec fn after_joining(self) -> Accounts {
        Accounts { users: self.users.push(UserInfo { locked: 0, debt: 0 }), ..self }
    }
}

/// Flooring loses less than one unit: `s * (x / s) <= x < s * (x / s) + s`.
pub proof fn lemma_floor(x: int, s: int)
    requires
        0 <= x,
        0 < s,
    ensures
        s * (x / s) <= x < s * (x / s) + s,
        x % s == 0 ==> s * (x / s) == x,
{
    vstd::arithmetic::div_mod::lemma_fundamental_div_mod(x, s);
    vstd::arithmetic::div_mod::lemma_mod_bound(x, s);
}

/// A position that was not credited more than it earned has a claim that is
/// not negative and covers `REWARD_SCALE` times its pending reward.
pub proof fn lemma_claim_covers_pending(user: UserInfo, acc: u128)
    ensures
        REWARD_SCALE as int * pending(user, acc) <= claim(user, acc),
        settled_within(user, acc) ==> 0 <= pending(user, acc) && 0 <= claim(user, acc),
{
    let product = user.locked as int * acc as int;
    assert(0 <= product) by (nonlinear_arith)
        requires
            product == user.locked as int * acc as int,
            0 <= user.locked as int,
            0 <= acc as int,
    ;
    lemma_floor(product, REWARD_SCALE as int);
    assert(REWARD_SCALE as int * (accrued(user.locked, acc) - user.debt as int)
        == REWARD_SCALE as int * accrued(user.locked, acc) - REWARD_SCALE as int
        * user.debt as int) by (nonlinear_arith);
    if settled_within(user, acc) {
        assert(REWARD_SCALE as int * user.debt as int <= REWARD_SCALE as int * accrued(
            user.locked,
            acc,
        )) by (nonlinear_arith)
            requires
                user.debt as int <= accrued(user.locked, acc),
        ;
    }
}

/// The claims of the positions cover `REWARD_SCALE` times what they would
/// be paid.
pub proof fn lemma_total_claim_covers_pending(users: Seq<UserInfo>, acc: u128)
    ensures
        REWARD_SCALE as int * total_pending(users, acc) <= total_claim(users, acc),
    decreases users.len(),
{
    if users.len() > 0 {
        lemma_total_claim_covers_pending(users.drop_last(), acc);
        lemma_claim_covers_pending(users.last(), acc);
        assert(REWARD_SCALE as int * (total_pending(users.drop_last(), acc) + pending(
            users.last(),
            acc,
        )) == REWARD_SCALE as int * total_pending(users.drop_last(), acc) + REWARD_SCALE as int
            * pending(users.last(), acc)) by (nonlinear_arith);
    }
}

/// Raising the accumulator raises the claims by the rise times the stake.
pub proof fn lemma_total_claim_shift(users: Seq<UserInfo>, acc: u128, raised: u128)
    requires
        acc <= raised,
    ensures
        total_claim(users, raised) == total_claim(users, acc) + (raised - acc) * total_stake(
            users,
        ),
    decreases users.len(),
{
    if users.len() > 0 {
        lemma_total_claim_shift(users.drop_last(), acc, raised);
        let l = users.last().locked as int;
        let before = total_stake(users.drop_last());
        assert(l * raised as int == l * acc as int + (raised - acc) * l) by (nonlinear_arith);
        assert((raised - acc) * (before + l) == (raised - acc) * before + (raised - acc) * l)
            by (nonlinear_arith);
    }
}

/// Replacing a position changes the stake and the claims by the difference
/// between the new position and the old one.
pub proof fn lemma_totals_update(users: Seq<UserInfo>, acc: u128, i: int, user: UserInfo)
    requires
        0 <= i < users.len(),
    ensures
        total_stake(users.update(i, user)) == total_stake(users) - users[i].locked
            + user.locked,
        total_claim(users.update(i, user), acc) == total_claim(users, acc) - claim(users[i], acc)
            + claim(user, acc),
    decreases users.len(),
{
    let updated = users.update(i, user);
    if i == users.len() - 1 {
        assert(updated.drop_last() =~= users.drop_last());
    } else {
        assert(updated.drop_last() =~= users.drop_last().update(i, user));
        lemma_totals_update(users.drop_last(), acc, i, user);
    }
}

/// Accounts that start empty are backed.
pub proof fn lemma_empty_accounts_are_backed(a: Accounts)
    requires
        a.users.len() == 0,
        a.pool == (RewardPool { residue: 0, inc_token_supply: 0, acc_reward_per_share: 0 }),
        a.allocated == 0,
        a.paid == 0,
        a.rounded == 0,
    ensures
        a.is_backed(),
{
}

/// A participant who joins without a position leaves backed accounts backed.
pub proof fn lemma_joining_keeps_backing(a: Accounts)
    requires
        a.is_backed(),
    ensures
        a.after_joining().is_backed(),
{
    let joined = a.after_joining();
    assert(joined.users.drop_last() =~= a.users);
    assert(accrued(0, a.pool.acc_reward_per_share) == 0) by (nonlinear_arith)
        requires
            accrued(0, a.pool.acc_reward_per_share) == (0 * a.pool.acc_reward_per_share as int)
                / (REWARD_SCALE as int),
    ;
    assert(claim(UserInfo { locked: 0, debt: 0 }, a.pool.acc_reward_per_share) == 0)
        by (nonlinear_arith)
        requires
            claim(UserInfo { locked: 0, debt: 0 }, a.pool.acc_reward_per_share) == 0
                * a.pool.acc_reward_per_share as int - REWARD_SCALE as int * 0,
    ;
    assert forall|i: int| 0 <= i < joined.users.len() implies settled_within(
        #[trigger] joined.users[i],
        joined.pool.acc_reward_per_share,
    ) by {
        if i < a.users.len() {
            assert(joined.users[i] == a.users[i]);
        }
    }
}

/// An allocation leaves backed accounts backed: the accumulator credits
/// the positions with no more than what arrived and the residue there was.
pub proof fn lemma_allocation_keeps_backing(a: Accounts, newly_allocated: u128)
    requires
        a.is_backed(),
        allocate_spec(a.pool, newly_allocated) is Ok,
    ensures
        a.after_allocation(newly_allocated).is_backed(),
{
    let after = a.after_allocation(newly_allocated);
    let acc = a.pool.acc_reward_per_share;
    let raised = after.pool.acc_reward_per_share;
    let scale = REWARD_SCALE as int;
    if newly_allocated > 0 && a.pool.inc_token_supply > 0 {
        let supply = a.pool.inc_token_supply as int;
        let total = newly_allocated as int + a.pool.residue as int;
        let scaled = total * scale;
        assert(0 <= scaled) by (nonlinear_arith)
            requires
                scaled == total * scale,
                0 <= total,
                0 < scale,
        ;
        lemma_floor(scaled, supply);
        lemma_total_claim_shift(a.users, acc, raised);
        assert((raised - acc) * supply == supply * (scaled / supply)) by (nonlinear_arith)
            requires
                raised - acc == scaled / supply,
        ;
        assert(scale * (a.paid + a.pool.residue as int) + total * scale == scale * (a.paid
            + newly_allocated as int + 2 * a.pool.residue as int)) by (nonlinear_arith)
            requires
                total == newly_allocated as int + a.pool.residue as int,
        ;
        assert(scale * (a.allocated + newly_allocated as int) == scale * a.allocated + scale
            * newly_allocated as int) by (nonlinear_arith);
        assert(scale * (a.paid + newly_allocated as int + 2 * a.pool.residue as int) == scale * (
        a.paid + a.pool.residue as int) + scale * newly_allocated as int + scale
            * a.pool.residue as int) by (nonlinear_arith);
        assert(scale * (after.paid + after.pool.residue as int) == scale * a.paid)
            by (nonlinear_arith)
            requires
                after.paid == a.paid,
                after.pool.residue == 0,
        ;
        assert(scale * (a.paid + a.pool.residue as int) == scale * a.paid + scale
            * a.pool.residue as int) by (nonlinear_arith);
        assert forall|i: int| 0 <= i < after.users.len() implies settled_within(
            #[trigger] after.users[i],
            raised,
        ) by {
            assert(settled_within(a.users[i], acc));
            lemma_accrued_grows(a.users[i].locked, acc, raised);
        }
    } else if newly_allocated > 0 {
        assert(scale * (a.paid + (a.pool.residue as int + newly_allocated as int)) == scale * (
        a.paid + a.pool.residue as int) + scale * newly_allocated as int) by (nonlinear_arith);
        assert(scale * (a.allocated + newly_allocated as int) == scale * a.allocated + scale
            * newly_allocated as int) by (nonlinear_arith);
    }
}

/// What a stake has earned does not shrink when the accumulator grows.
pub proof fn lemma_accrued_grows(locked: u128, acc: u128, raised: u128)
    requires
        acc <= raised,
    ensures
        accrued(locked, acc) <= accrued(locked, raised),
{
    let low = locked as int * acc as int;
    let high = locked as int * raised as int;
    assert(0 <= low <= high) by (nonlinear_arith)
        requires
            low == locked as int * acc as int,
            high == locked as int * raised as int,
            0 <= locked as int,
            0 <= acc as int <= raised as int,
    ;
    vstd::arithmetic::div_mod::lemma_div_is_ordered(low, high, REWARD_SCALE as int);
}

/// `s` is what a deposit or a withdrawal of some amount makes of `user`.
pub open spec fn is_settlement_of(pool: RewardPool, user: UserInfo, s: Settlement) -> bool {
    ||| exists|amount: u128| #[trigger]
        deposit_spec(pool, user, amount) == Ok::<Settlement, ContractError>(s)
    ||| exists|amount: Option<u128>| #[trigger]
        redeem_spec(pool, user, amount) == Ok::<Settlement, ContractError>(s)
}

/// A deposit or a withdrawal leaves backed accounts backed: what is paid was
/// part of the claim of the position, and the claim that the position keeps
/// is the fraction of a unit that rounding its debt left out.
pub proof fn lemma_settlement_keeps_backing(a: Accounts, i: int, s: Settlement)
    requires
        a.is_backed(),
        0 <= i < a.users.len(),
        is_settlement_of(a.pool, a.users[i], s),
    ensures
        a.after_settlement(i, s).is_backed(),
{
    let after = a.after_settlement(i, s);
    let acc = a.pool.acc_reward_per_share;
    let scale = REWARD_SCALE as int;
    let user = a.users[i];
    assert(settled_within(user, acc));
    assert(s.pool.acc_reward_per_share == acc && s.pool.residue == a.pool.residue);
    assert(s.reward as int == pending(user, acc));
    assert(s.user.debt as int == accrued(s.user.locked, acc));
    assert(s.pool.inc_token_supply as int == a.pool.inc_token_supply - user.locked
        + s.user.locked);
    lemma_totals_update(a.users, acc, i, s.user);
    lemma_claim_covers_pending(user, acc);
    let product = s.user.locked as int * acc as int;
    assert(0 <= product) by (nonlinear_arith)
        requires
            product == s.user.locked as int * acc as int,
            0 <= s.user.locked as int,
            0 <= acc as int,
    ;
    lemma_floor(product, scale);
    assert(claim(s.user, acc) == product - scale * (product / scale));
    assert(0 <= claim(s.user, acc) <= scale - 1);
    assert(exactly_settled(s.user, acc) ==> claim(s.user, acc) == 0);
    assert(scale * (a.paid + s.reward as int + a.pool.residue as int) == scale * (a.paid
        + a.pool.residue as int) + scale * pending(user, acc)) by (nonlinear_arith)
        requires
            s.reward as int == pending(user, acc),
    ;
    assert((scale - 1) * (a.rounded + 1) == (scale - 1) * a.rounded + (scale - 1))
        by (nonlinear_arith);
    assert forall|j: int| 0 <= j < after.users.len() implies settled_within(
        #[trigger] after.users[j],
        acc,
    ) by {
        if j != i {
            assert(after.users[j] == a.users[j]);
        }
    }
}

/// The emergency exit leaves backed accounts backed: the position gives up
/// its claim.
pub proof fn lemma_emergency_keeps_backing(a: Accounts, i: int)
    requires
        a.is_backed(),
        0 <= i < a.users.len(),
    ensures
        emergency_spec(a.pool, a.users[i]) is Ok,
        a.after_settlement(i, emergency_spec(a.pool, a.users[i])->Ok_0).is_backed(),
{
    let acc = a.pool.acc_reward_per_share;
    let user = a.users[i];
    lemma_stake_covers(a.users, i);
    let s = emergency_spec(a.pool, user)->Ok_0;
    let after = a.after_settlement(i, s);
    assert(settled_within(user, acc));
    lemma_totals_update(a.users, acc, i, s.user);
    lemma_claim_covers_pending(user, acc);
    assert(accrued(0, acc) == 0) by (nonlinear_arith)
        requires
            accrued(0, acc) == (0 * acc as int) / (REWARD_SCALE as int),
    ;
    assert(claim(s.user, acc) == 0) by (nonlinear_arith)
        requires
            claim(s.user, acc) == 0 * acc as int - REWARD_SCALE as int * 0,
    ;
    assert(exactly_settled(s.user, acc)) by {
        lemma_nothing_accrues_to_nothing(acc);
    }
    assert forall|j: int| 0 <= j < after.users.len() implies settled_within(
        #[trigger] after.users[j],
        acc,
    ) by {
        if j != i {
            assert(after.users[j] == a.users[j]);
        }
    }
}

/// The stake of all positions is at least the stake of any one.
pub proof fn lemma_stake_covers(users: Seq<UserInfo>, i: int)
    requires
        0 <= i < users.len(),
    ensures
        0 <= users[i].locked as int <= total_stake(users),
    decreases users.len(),
{
    lemma_stake_nonnegative(users.drop_last());
    if i < users.len() - 1 {
        lemma_stake_covers(users.drop_last(), i);
    }
}

/// The stake of all positions is not negative.
pub proof fn lemma_stake_nonnegative(users: Seq<UserInfo>)
    ensures
        0 <= total_stake(users),
    decreases users.len(),
{
    if users.len() > 0 {
        lemma_stake_nonnegative(users.drop_last());
    }
}

/// In backed accounts, what all positions would be paid if they were
/// settled now, what was paid already and the residue together exceed what
/// was ever allocated by no more than one unit for each settlement that
/// rounded a debt.
pub proof fn lemma_backed_rewards_are_bounded(a: Accounts)
    requires
        a.is_backed(),
    ensures
        total_pending(a.users, a.pool.acc_reward_per_share) + a.paid + a.pool.residue
            <= a.allocated + a.rounded,
{
    let scale = REWARD_SCALE as int;
    let owed = total_pending(a.users, a.pool.acc_reward_per_share);
    lemma_total_claim_covers_pending(a.users, a.pool.acc_reward_per_share);
    let left = owed + a.paid + a.pool.residue as int;
    let right = a.allocated + a.rounded;
    assert(scale * left == scale * owed + scale * (a.paid + a.pool.residue as int))
        by (nonlinear_arith)
        requires
            left == owed + a.paid + a.pool.residue as int,
    ;
    assert(scale * right == scale * a.allocated + scale * a.rounded) by (nonlinear_arith)
        requires
            right == a.allocated + a.rounded,
    ;
    assert((scale - 1) * a.rounded <= scale * a.rounded) by (nonlinear_arith)
        requires
            0 <= a.rounded,
    ;
    assert(left <= right) by (nonlinear_arith)
        requires
            scale * left <= scale * right,
            0 < scale,
    ;
}

/// No reward is fabricated: as long as no settlement has rounded a debt,
/// what all positions would be paid if they were settled now, what was paid
/// already and the residue together are at most what was ever allocated.
pub proof fn lemma_backed_rewards_are_allocated(a: Accounts)
    requires
        a.is_backed(),
        a.rounded == 0,
    ensures
        total_pending(a.users, a.pool.acc_reward_per_share) + a.paid + a.pool.residue
            <= a.allocated,
{
    lemma_backed_rewards_are_bounded(a);
}

/// A deposit followed by a withdrawal of the same amount, with no
/// allocation in between, is a round trip: neither settlement pays a
/// reward, the position is empty again and the pool is as it was.
pub proof fn lemma_round_trip(pool: RewardPool, amount: u128)
    requires
        deposit_spec(pool, UserInfo { locked: 0, debt: 0 }, amount) is Ok,
    ensures
        ({
            let deposited = deposit_spec(pool, UserInfo { locked: 0, debt: 0 }, amount)->Ok_0;
            let redeemed = redeem_spec(deposited.pool, deposited.user, Some(amount));
            &&& deposited.reward == 0
            &&& deposited.user.locked == amount
            &&& redeemed is Ok
            &&& redeemed->Ok_0.reward == 0
            &&& redeemed->Ok_0.user == (UserInfo { locked: 0, debt: 0 })
            &&& redeemed->Ok_0.pool == pool
        }),
{
    let acc = pool.acc_reward_per_share;
    lemma_nothing_accrues_to_nothing(acc);
}

/// An empty stake earns nothing.
pub proof fn lemma_nothing_accrues_to_nothing(acc: u128)
    ensures
        accrued(0, acc) == 0,
        0 * acc as int == 0,
{
    assert(0 * acc as int == 0) by (nonlinear_arith);
}

/// The residue is consumed exactly once. Rewards allocated while nothing is
/// staked wait as residue. The first deposit into the empty pool is paid
/// nothing and leaves the residue waiting. The next allocation spreads it,
/// along with what arrives, over the stake and empties it, and the
/// allocation after that spreads only what arrives.
pub proof fn lemma_residue_consumed_once(
    pool: RewardPool,
    first: u128,
    stake: u128,
    second: u128,
    third: u128,
)
    requires
        pool.inc_token_supply == 0,
        first > 0,
        stake > 0,
        second > 0,
        third > 0,
        allocate_spec(pool, first) is Ok,
        deposit_spec(
            allocate_spec(pool, first)->Ok_0,
            UserInfo { locked: 0, debt: 0 },
            stake,
        ) is Ok,
        allocate_spec(
            deposit_spec(
                allocate_spec(pool, first)->Ok_0,
                UserInfo { locked: 0, debt: 0 },
                stake,
            )->Ok_0.pool,
            second,
        ) is Ok,
        allocate_spec(
            allocate_spec(
                deposit_spec(
                    allocate_spec(pool, first)->Ok_0,
                    UserInfo { locked: 0, debt: 0 },
                    stake,
                )->Ok_0.pool,
                second,
            )->Ok_0,
            third,
        ) is Ok,
    ensures
        ({
            let waiting = allocate_spec(pool, first)->Ok_0;
            let deposited = deposit_spec(waiting, UserInfo { locked: 0, debt: 0 }, stake)->Ok_0;
            let spread = allocate_spec(deposited.pool, second)->Ok_0;
            let later = allocate_spec(spread, third)->Ok_0;
            &&& waiting.residue == pool.residue + first
            &&& waiting.acc_reward_per_share == pool.acc_reward_per_share
            &&& deposited.reward == 0
            &&& deposited.pool.residue == waiting.residue
            &&& deposited.pool.acc_reward_per_share == pool.acc_reward_per_share
            &&& spread.residue == 0
            &&& spread.acc_reward_per_share == pool.acc_reward_per_share + (second
                + waiting.residue) * REWARD_SCALE as int / (stake as int)
            &&& later.residue == 0
            &&& later.acc_reward_per_share == spread.acc_reward_per_share + third
                * REWARD_SCALE as int / (stake as int)
        }),
{
    lemma_nothing_accrues_to_nothing(pool.acc_reward_per_share);
}

/// An allocation never lowers the accumulator and never moves the stake.
pub proof fn lemma_allocation_never_lowers_accumulator(pool: RewardPool, newly_allocated: u128)
    requires
        allocate_spec(pool, newly_allocated) is Ok,
    ensures
        allocate_spec(pool, newly_allocated)->Ok_0.acc_reward_per_share
            >= pool.acc_reward_per_share,
        allocate_spec(pool, newly_allocated)->Ok_0.inc_token_supply == pool.inc_token_supply,
{
    if newly_allocated > 0 && pool.inc_token_supply > 0 {
        let scaled = (newly_allocated as int + pool.residue as int) * REWARD_SCALE as int;
        assert(0 <= scaled) by (nonlinear_arith)
            requires
                scaled == (newly_allocated as int + pool.residue as int) * REWARD_SCALE as int,
                0 <= newly_allocated as int + pool.residue as int,
                0 < REWARD_SCALE as int,
        ;
        lemma_floor(scaled, pool.inc_token_supply as int);
        assert(0 <= scaled / (pool.inc_token_supply as int)) by (nonlinear_arith)
            requires
                0 <= scaled,
                0 < pool.inc_token_supply as int,
        ;
    }
}

/// A settlement re-baselines the debt: the position it leaves was credited
/// exactly what its stake has earned, so that nothing is pending for it,
/// and the accumulator and the residue are as they were.
pub proof fn lemma_settlement_rebaselines(
    pool: RewardPool,
    user: UserInfo,
    deposited: u128,
    redeemed: Option<u128>,
)
    ensures
        deposit_spec(pool, user, deposited) matches Ok(s) ==> pending(
            s.user,
            s.pool.acc_reward_per_share,
        ) == 0 && settled_within(s.user, s.pool.acc_reward_per_share)
            && s.pool.acc_reward_per_share == pool.acc_reward_per_share && s.pool.residue
            == pool.residue,
        redeem_spec(pool, user, redeemed) matches Ok(s) ==> pending(
            s.user,
            s.pool.acc_reward_per_share,
        ) == 0 && settled_within(s.user, s.pool.acc_reward_per_share)
            && s.pool.acc_reward_per_share == pool.acc_reward_per_share && s.pool.residue
            == pool.residue,
{
}

} // verus!
