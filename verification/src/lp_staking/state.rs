//! What the staking pool keeps between invocations.
use vstd::prelude::*;
use crate::chain::HumanAddr;
use crate::keyed::{Entry, has_key, index_of, KeyedStore, lemma_index_of, value_at, with_value};
use crate::rewards::settled_within;
use crate::types::{RewardPool, SecretContract, TokenInfo, UserInfo};

verus! {

/// Configuration of the staking pool.
#[derive(Clone, Debug, PartialEq, Eq)]
pub struct Config {
    /// The one account that may stop, resume and reconfigure the pool.
    pub admin: HumanAddr,
    /// The token rewards are paid in.
    pub reward_token: SecretContract,
    /// The token that is staked.
    pub inc_token: SecretContract,
    /// The coordinator that allocates rewards to the pool.
    pub master: SecretContract,
    /// The key under which the pool reads its own token balances.
    pub viewing_key: String,
    /// Digest of the seed the pool was created with.
    pub prng_seed: Vec<u8>,
    /// While set, only the emergency exit and resuming are served.
    pub is_stopped: bool,
    pub own_addr: HumanAddr,
}

/// Everything the staking pool stores.
#[derive(Clone, Debug, PartialEq, Eq)]
pub struct StakingStorage {
    pub config: Config,
    pub reward_pool: RewardPool,
    pub token_info: TokenInfo,
    /// The contracts told of every change of a position, in the order they
    /// were added.
    pub subscribers: Vec<SecretContract>,
    /// The positions, by participant.
    pub users: KeyedStore<UserInfo>,
    /// The digests of the viewing keys, by participant.
    pub viewing_keys: KeyedStore<Vec<u8>>,
}

/// The position of a participant; one that was never stored is empty.
pub open spec fn position_of(users: Seq<Entry<UserInfo>>, who: Seq<char>) -> UserInfo {
    match value_at(users, who) {
        Some(user) => user,
        None => UserInfo { locked: 0, debt: 0 },
    }
}

/// The sum of what the stored positions hold.
pub open spec fn total_locked(users: Seq<Entry<UserInfo>>) -> int
    decreases users.len(),
{
    if users.len() == 0 {
        0
    } else {
        total_locked(users.drop_last()) + users.last().value.locked as int
    }
}

impl StakingStorage {
    /// The staked supply the pool records is the sum of the positions.
    pub open spec fn conserves_stake(&self) -> bool {
        total_locked(self.users.entries@) == self.reward_pool.inc_token_supply as int
    }

    /// No position was credited more than its stake has earned.
    pub open spec fn positions_settled(&self) -> bool {
        forall|i: int|
            0 <= i < self.users.entries@.len() ==> settled_within(
                (#[trigger] self.users.entries@[i]).value,
                self.reward_pool.acc_reward_per_share,
            )
    }

    /// Everything but the pool and the positions is as in `before`.
    pub open spec fn same_setup(&self, before: &StakingStorage) -> bool {
        &&& self.config == before.config
        &&& self.token_info == before.token_info
        &&& self.subscribers == before.subscribers
        &&& self.viewing_keys == before.viewing_keys
    }

    /// The position of `who`, empty if none is stored.
    pub fn load_user(&self, who: &HumanAddr) -> (user: UserInfo)
        ensures
            user == position_of(self.users.entries@, who@),
    {
        match self.users.get(who) {
            Some(user) => *user,
            None => UserInfo { locked: 0, debt: 0 },
        }
    }
}

/// Replacing one entry changes the sum of the positions by the difference
/// between what the entry holds afterwards and what it held.
pub proof fn lemma_total_locked_update(users: Seq<Entry<UserInfo>>, i: int, entry: Entry<UserInfo>)
    requires
        0 <= i < users.len(),
    ensures
        total_locked(users.update(i, entry)) == total_locked(users) - users[i].value.locked
            + entry.value.locked,
    decreases users.len(),
{
    let updated = users.update(i, entry);
    if i == users.len() - 1 {
        assert(updated.drop_last() =~= users.drop_last());
    } else {
        assert(updated.drop_last() =~= users.drop_last().update(i, entry));
        lemma_total_locked_update(users.drop_last(), i, entry);
    }
}

/// Storing a position changes the sum of the positions by the difference
/// between what the participant holds afterwards and what it held.
pub proof fn lemma_total_locked_with_value(
    users: Seq<Entry<UserInfo>>,
    who: HumanAddr,
    user: UserInfo,
)
    ensures
        total_locked(with_value(users, who, user)) == total_locked(users) - position_of(
            users,
            who@,
        ).locked + user.locked,
{
    lemma_index_of(users, who@);
    if has_key(users, who@) {
        let i = index_of(users, who@);
        lemma_total_locked_update(users, i, Entry { key: users[i].key, value: user });
    } else {
        assert(with_value(users, who, user).drop_last() =~= users);
    }
}

} // verus!
