//! Accumulator arithmetic of the reward pool: allocating rewards to the
//! pool and settling one position against it. Everything here is integer
//! arithmetic on `u128`, with floor division by [`REWARD_SCALE`].
use vstd::prelude::*;
use crate::errors::ContractError;
use crate::lp_staking::constants::REWARD_SCALE;
use crate::types::{RewardPool, UserInfo};

verus! {

/// What a stake of `locked` has earned in total at accumulator `acc`.
pub open spec fn accrued(locked: u128, acc: u128) -> int {
    (locked as int * acc as int) / (REWARD_SCALE as int)
}

/// Reward owed to a position at accumulator `acc` and not yet credited.
pub open spec fn pending(user: UserInfo, acc: u128) -> int {
    accrued(user.locked, acc) - user.debt as int
}

/// The invariant of a position: it was never credited more than it earned.
pub open spec fn settled_within(user: UserInfo, acc: u128) -> bool {
    user.debt as int <= accrued(user.locked, acc)
}

/// The pool after `newly_allocated` reward units arrive.
///
/// Nothing changes for a zero allocation. With nothing staked the amount is
/// kept as residue. Otherwise the amount and the residue are spread over the
/// staked supply and the residue is emptied.
pub open spec fn allocate_spec(pool: RewardPool, newly_allocated: u128) -> Result<
    RewardPool,
    ContractError,
> {
    let total = newly_allocated as int + pool.residue as int;
    let scaled = total * REWARD_SCALE as int;
    if newly_allocated == 0 {
        Ok(pool)
    } else if pool.inc_token_supply == 0 {
        if total > u128::MAX as int {
            Err(ContractError::Overflow)
        } else {
            Ok(RewardPool { residue: total as u128, ..pool })
        }
    } else {
        let acc = pool.acc_reward_per_share as int + scaled / (pool.inc_token_supply as int);
        if scaled > u128::MAX as int || acc > u128::MAX as int {
            Err(ContractError::Overflow)
        } else {
            Ok(RewardPool { residue: 0, acc_reward_per_share: acc as u128, ..pool })
        }
    }
}

/// The reward to pay out when a position is settled at accumulator `acc`.
pub open spec fn reward_due_spec(user: UserInfo, acc: u128) -> Result<u128, ContractError> {
    if user.locked as int * acc as int > u128::MAX as int || pending(user, acc) < 0 {
        Err(ContractError::Overflow)
    } else {
        Ok(pending(user, acc) as u128)
    }
}

/// A position of `locked` units, freshly settled at accumulator `acc`.
pub open spec fn rebased_spec(locked: u128, acc: u128) -> Result<UserInfo, ContractError> {
    if locked as int * acc as int > u128::MAX as int {
        Err(ContractError::Overflow)
    } else {
        Ok(UserInfo { locked, debt: accrued(locked, acc) as u128 })
    }
}

/// Outcome of settling and resizing one position.
#[derive(Clone, Copy, Debug, PartialEq, Eq, Structural)]
pub struct Settlement {
    /// The position afterwards.
    pub user: UserInfo,
    /// The pool afterwards.
    pub pool: RewardPool,
    /// Reward to transfer to the participant; nothing is sent when it is zero.
    pub reward: u128,
    /// Amount by which the position was resized.
    pub amount: u128,
}

/// Settling a position and adding `amount` to it.
pub open spec fn deposit_spec(pool: RewardPool, user: UserInfo, amount: u128) -> Result<
    Settlement,
    ContractError,
> {
    let locked = user.locked as int + amount as int;
    let supply = pool.inc_token_supply as int + amount as int;
    if reward_due_spec(user, pool.acc_reward_per_share) is Err || locked > u128::MAX as int
        || rebased_spec(locked as u128, pool.acc_reward_per_share) is Err || supply
        > u128::MAX as int {
        Err(ContractError::Overflow)
    } else {
        Ok(
            Settlement {
                user: rebased_spec(locked as u128, pool.acc_reward_per_share)->Ok_0,
                pool: RewardPool { inc_token_supply: supply as u128, ..pool },
                reward: reward_due_spec(user, pool.acc_reward_per_share)->Ok_0,
                amount,
            },
        )
    }
}

/// The amount a withdrawal takes: the one asked for, or the whole position.
pub open spec fn redeem_amount(user: UserInfo, amount: Option<u128>) -> u128 {
    match amount {
        Some(a) => a,
        None => user.locked,
    }
}

/// Settling a position and taking `amount` out of it (all of it for `None`).
pub open spec fn redeem_spec(pool: RewardPool, user: UserInfo, amount: Option<u128>) -> Result<
    Settlement,
    ContractError,
> {
    let taken = redeem_amount(user, amount);
    let locked = user.locked as int - taken as int;
    let supply = pool.inc_token_supply as int - taken as int;
    if taken > user.locked {
        Err(ContractError::InsufficientStake { balance: user.locked, required: taken })
    } else if reward_due_spec(user, pool.acc_reward_per_share) is Err || rebased_spec(
        locked as u128,
        pool.acc_reward_per_share,
    ) is Err || supply < 0 {
        Err(ContractError::Overflow)
    } else {
        Ok(
            Settlement {
                user: rebased_spec(locked as u128, pool.acc_reward_per_share)->Ok_0,
                pool: RewardPool { inc_token_supply: supply as u128, ..pool },
                reward: reward_due_spec(user, pool.acc_reward_per_share)->Ok_0,
                amount: taken,
            },
        )
    }
}

/// Leaving without settling: the stake is returned, the pending reward is
/// forfeited and the position is zeroed.
pub open spec fn emergency_spec(pool: RewardPool, user: UserInfo) -> Result<
    Settlement,
    ContractError,
> {
    if user.locked > pool.inc_token_supply {
        Err(ContractError::Overflow)
    } else {
        Ok(
            Settlement {
                user: UserInfo { locked: 0, debt: 0 },
                pool: RewardPool {
                    inc_token_supply: (pool.inc_token_supply - user.locked) as u128,
                    ..pool
                },
                reward: 0,
                amount: user.locked,
            },
        )
    }
}

/// `locked * acc / REWARD_SCALE`, or `None` when the product leaves `u128`.
pub fn accrued_reward(locked: u128, acc: u128) -> (res: Option<u128>)
    ensures
        res.is_some() == (locked as int * acc as int <= u128::MAX as int),
        res matches Some(r) ==> r as int == accrued(locked, acc),
{
    match locked.checked_mul(acc) {
        Some(product) => Some(product / REWARD_SCALE),
        None => None,
    }
}

impl RewardPool {
    /// Accounts for `newly_allocated` reward units arriving at the pool.
    pub fn allocate(self, newly_allocated: u128) -> (res: Result<RewardPool, ContractError>)
        ensures
            res == allocate_spec(self, newly_allocated),
    {
        if newly_allocated == 0 {
            return Ok(self);
        }
        let total = match newly_allocated.checked_add(self.residue) {
            Some(t) => t,
            None => {
                proof {
                    lemma_scaled_exceeds(newly_allocated as int + self.residue as int);
                }
                return Err(ContractError::Overflow);
            },
        };
        if self.inc_token_supply == 0 {
            return Ok(
                RewardPool {
                    residue: total,
                    inc_token_supply: self.inc_token_supply,
                    acc_reward_per_share: self.acc_reward_per_share,
                },
            );
        }
        let scaled = match total.checked_mul(REWARD_SCALE) {
            Some(s) => s,
            None => {
                return Err(ContractError::Overflow);
            },
        };
        let share = scaled / self.inc_token_supply;
        match self.acc_reward_per_share.checked_add(share) {
            Some(acc) => Ok(
                RewardPool {
                    residue: 0,
                    inc_token_supply: self.inc_token_supply,
                    acc_reward_per_share: acc,
                },
            ),
            None => Err(ContractError::Overflow),
        }
    }
}

/// A total above `u128::MAX` is still above it after scaling.
proof fn lemma_scaled_exceeds(total: int)
    requires
        total > u128::MAX as int,
    ensures
        total * REWARD_SCALE as int > u128::MAX as int,
{
    assert(total * REWARD_SCALE as int >= total) by (nonlinear_arith)
        requires
            total > 0,
            REWARD_SCALE as int >= 1,
    ;
}

impl UserInfo {
    /// The reward owed to this position at accumulator `acc`.
    pub fn reward_due(self, acc: u128) -> (res: Result<u128, ContractError>)
        ensures
            res == reward_due_spec(self, acc),
    {
        match accrued_reward(self.locked, acc) {
            Some(earned) => match earned.checked_sub(self.debt) {
                Some(reward) => Ok(reward),
                None => Err(ContractError::Overflow),
            },
            None => Err(ContractError::Overflow),
        }
    }

    /// A position of `locked` units whose debt is re-baselined at `acc`.
    pub fn rebased(locked: u128, acc: u128) -> (res: Result<UserInfo, ContractError>)
        ensures
            res == rebased_spec(locked, acc),
    {
        match accrued_reward(locked, acc) {
            Some(debt) => Ok(UserInfo { locked, debt }),
            None => Err(ContractError::Overflow),
        }
    }
}

/// Settles `user` against `pool` and adds `amount` to the position.
pub fn settle_deposit(pool: RewardPool, user: UserInfo, amount: u128) -> (res: Result<
    Settlement,
    ContractError,
>)
    ensures
        res == deposit_spec(pool, user, amount),
{
    let reward = match user.reward_due(pool.acc_reward_per_share) {
        Ok(r) => r,
        Err(e) => {
            return Err(e);
        },
    };
    let locked = match user.locked.checked_add(amount) {
        Some(l) => l,
        None => {
            return Err(ContractError::Overflow);
        },
    };
    let settled = match UserInfo::rebased(locked, pool.acc_reward_per_share) {
        Ok(u) => u,
        Err(e) => {
            return Err(e);
        },
    };
    let supply = match pool.inc_token_supply.checked_add(amount) {
        Some(s) => s,
        None => {
            return Err(ContractError::Overflow);
        },
    };
    Ok(
        Settlement {
            user: settled,
            pool: RewardPool {
                residue: pool.residue,
                inc_token_supply: supply,
                acc_reward_per_share: pool.acc_reward_per_share,
            },
            reward,
            amount,
        },
    )
}

/// Settles `user` against `pool` and takes `amount` out of the position;
/// `None` takes all of it.
pub fn settle_redeem(pool: RewardPool, user: UserInfo, amount: Option<u128>) -> (res: Result<
    Settlement,
    ContractError,
>)
    ensures
        res == redeem_spec(pool, user, amount),
{
    let taken = match amount {
        Some(a) => a,
        None => user.locked,
    };
    if taken > user.locked {
        return Err(ContractError::InsufficientStake { balance: user.locked, required: taken });
    }
    let reward = match user.reward_due(pool.acc_reward_per_share) {
        Ok(r) => r,
        Err(e) => {
            return Err(e);
        },
    };
    let settled = match UserInfo::rebased(user.locked - taken, pool.acc_reward_per_share) {
        Ok(u) => u,
        Err(e) => {
            return Err(e);
        },
    };
    let supply = match pool.inc_token_supply.checked_sub(taken) {
        Some(s) => s,
        None => {
            return Err(ContractError::Overflow);
        },
    };
    Ok(
        Settlement {
            user: settled,
            pool: RewardPool {
                residue: pool.residue,
                inc_token_supply: supply,
                acc_reward_per_share: pool.acc_reward_per_share,
            },
            reward,
            amount: taken,
        },
    )
}

/// Zeroes `user` without settling it and takes its stake out of the pool.
pub fn emergency_exit(pool: RewardPool, user: UserInfo) -> (res: Result<Settlement, ContractError>)
    ensures
        res == emergency_spec(pool, user),
{
    match pool.inc_token_supply.checked_sub(user.locked) {
        Some(supply) => Ok(
            Settlement {
                user: UserInfo { locked: 0, debt: 0 },
                pool: RewardPool {
                    residue: pool.residue,
                    inc_token_supply: supply,
                    acc_reward_per_share: pool.acc_reward_per_share,
                },
                reward: 0,
                amount: user.locked,
            },
        ),
        None => Err(ContractError::Overflow),
    }
}

/// The accumulator as it would stand if `new_rewards` were allocated now.
/// Unlike an allocation, the projection spreads the residue even when
/// `new_rewards` is zero; with nothing staked it is the accumulator as it is.
pub open spec fn projected_acc_spec(pool: RewardPool, new_rewards: u128) -> Result<
    u128,
    ContractError,
> {
    let scaled = (new_rewards as int + pool.residue as int) * REWARD_SCALE as int;
    let acc = pool.acc_reward_per_share as int + scaled / (pool.inc_token_supply as int);
    if pool.inc_token_supply == 0 {
        Ok(pool.acc_reward_per_share)
    } else if scaled > u128::MAX as int || acc > u128::MAX as int {
        Err(ContractError::Overflow)
    } else {
        Ok(acc as u128)
    }
}

/// What a position would be owed if `new_rewards` were allocated now.
pub open spec fn projected_reward_spec(pool: RewardPool, user: UserInfo, new_rewards: u128)
    -> Result<u128, ContractError> {
    match projected_acc_spec(pool, new_rewards) {
        Ok(acc) => reward_due_spec(user, acc),
        Err(e) => Err(e),
    }
}

/// What `user` would be owed if `new_rewards` were allocated to `pool` now.
pub fn projected_reward(pool: RewardPool, user: UserInfo, new_rewards: u128) -> (res: Result<
    u128,
    ContractError,
>)
    ensures
        res == projected_reward_spec(pool, user, new_rewards),
{
    let mut acc = pool.acc_reward_per_share;
    if pool.inc_token_supply != 0 {
        let total = match new_rewards.checked_add(pool.residue) {
            Some(t) => t,
            None => {
                proof {
                    lemma_scaled_exceeds(new_rewards as int + pool.residue as int);
                }
                return Err(ContractError::Overflow);
            },
        };
        let scaled = match total.checked_mul(REWARD_SCALE) {
            Some(s) => s,
            None => {
                return Err(ContractError::Overflow);
            },
        };
        acc = match acc.checked_add(scaled / pool.inc_token_supply) {
            Some(a) => a,
            None => {
                return Err(ContractError::Overflow);
            },
        };
    }
    user.reward_due(acc)
}

} // verus!
