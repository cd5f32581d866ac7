//! What a poll keeps between invocations.
use vstd::prelude::*;
use crate::chain::HumanAddr;
use crate::errors::ContractError;
use crate::keyed::{
    has_key, index_of, lemma_index_of, value_at, with_value, Entry, KeyedStore,
};
use crate::secret_vote_types::PollMetadata;
use crate::types::SecretContract;

verus! {

/// The standing vote of one voter.
#[derive(Clone, Copy, Debug, PartialEq, Eq, Structural)]
pub struct Vote {
    /// Index into the poll's choices.
    pub choice: u8,
    pub voting_power: u128,
}

/// Configuration and lifecycle of a poll.
#[derive(Clone, Debug, PartialEq, Eq)]
pub struct StoredPollConfig {
    /// In seconds since the epoch.
    pub end_timestamp: u64,
    /// Percent of the eligible supply that has to take part.
    pub quorum: u8,
    /// What the winning choice has to exceed.
    pub min_threshold: u8,
    pub choices: Vec<String>,
    /// Set once the poll is finalized; nothing changes afterwards.
    pub ended: bool,
    /// Whether the result counts; meaningful once `ended`.
    pub valid: bool,
}

/// Everything a poll stores.
#[derive(Clone, Debug, PartialEq, Eq)]
pub struct PollStorage {
    /// The factory that created the poll.
    pub owner: HumanAddr,
    pub staking_pool: SecretContract,
    pub metadata: PollMetadata,
    /// Accumulated voting power, by choice.
    pub tally: Vec<u128>,
    pub config: StoredPollConfig,
    pub num_of_voters: u64,
    /// The standing votes, by voter.
    pub votes: KeyedStore<Vote>,
}

/// The voting power that the votes in `votes` give to `choice`.
pub open spec fn power_on(votes: Seq<Entry<Vote>>, choice: int) -> int
    decreases votes.len(),
{
    if votes.len() == 0 {
        0
    } else {
        power_on(votes.drop_last(), choice) + if votes.last().value.choice as int == choice {
            votes.last().value.voting_power as int
        } else {
            0
        }
    }
}

/// The voting power of all votes in `votes`.
pub open spec fn total_power(votes: Seq<Entry<Vote>>) -> int
    decreases votes.len(),
{
    if votes.len() == 0 {
        0
    } else {
        total_power(votes.drop_last()) + votes.last().value.voting_power as int
    }
}

/// The sum of the entries of a tally.
pub open spec fn tally_sum(tally: Seq<u128>) -> int
    decreases tally.len(),
{
    if tally.len() == 0 {
        0
    } else {
        tally_sum(tally.drop_last()) + tally.last() as int
    }
}

/// The invariant of the tally: every vote is for a choice of the poll, and
/// each entry of the tally is the voting power of the votes for its choice.
pub open spec fn votes_counted(votes: Seq<Entry<Vote>>, tally: Seq<u128>) -> bool {
    &&& forall|i: int| 0 <= i < votes.len() ==> ((#[trigger] votes[i]).value.choice as int) < tally.len()
    &&& forall|c: int| 0 <= c < tally.len() ==> #[trigger] tally[c] as int == power_on(votes, c)
}

impl PollStorage {
    /// The number of voters is the number of stored votes.
    pub open spec fn voters_counted(&self) -> bool {
        self.num_of_voters as int == self.votes.entries@.len()
    }

    /// The tally agrees with the stored votes.
    pub open spec fn tally_consistent(&self) -> bool {
        votes_counted(self.votes.entries@, self.tally@)
    }
}

/// Stores the vote of `voter`, in place of any earlier one.
pub fn store_vote(deps: &mut PollStorage, voter: &HumanAddr, choice: u8, voting_power: u128) -> (res:
    Result<(), ContractError>)
    ensures
        res is Ok,
        final(deps).votes.entries@ == with_value(
            old(deps).votes.entries@,
            *voter,
            Vote { choice, voting_power },
        ),
        *final(deps) == (PollStorage { votes: final(deps).votes, ..*old(deps) }),
{
    deps.votes.set(voter.clone(), Vote { choice, voting_power });
    Ok(())
}

/// The standing vote of `voter`.
pub fn read_vote(deps: &PollStorage, voter: &HumanAddr) -> (res: Result<Vote, ContractError>)
    ensures
        match value_at(deps.votes.entries@, voter@) {
            Some(vote) => res == Ok::<Vote, ContractError>(vote),
            None => res == Err::<Vote, ContractError>(ContractError::NotFound),
        },
{
    match deps.votes.get(voter) {
        Some(vote) => Ok(*vote),
        None => Err(ContractError::NotFound),
    }
}

/// What the vote `vote` adds to the voting power of `choice`.
pub open spec fn weight_on(vote: Vote, choice: int) -> int {
    if vote.choice as int == choice {
        vote.voting_power as int
    } else {
        0
    }
}

/// The voting power of a choice is at least that of any one vote for it.
pub proof fn lemma_power_on_covers(votes: Seq<Entry<Vote>>, choice: int, i: int)
    requires
        0 <= i < votes.len(),
    ensures
        0 <= weight_on(votes[i].value, choice) <= power_on(votes, choice),
    decreases votes.len(),
{
    lemma_power_on_nonnegative(votes.drop_last(), choice);
    if i < votes.len() - 1 {
        lemma_power_on_covers(votes.drop_last(), choice, i);
    }
}

/// The voting power of a choice is not negative.
pub proof fn lemma_power_on_nonnegative(votes: Seq<Entry<Vote>>, choice: int)
    ensures
        0 <= power_on(votes, choice),
    decreases votes.len(),
{
    if votes.len() > 0 {
        lemma_power_on_nonnegative(votes.drop_last(), choice);
    }
}

/// Replacing one vote changes the voting power of a choice by the
/// difference between what the new vote and the old one give it.
pub proof fn lemma_power_on_update(
    votes: Seq<Entry<Vote>>,
    choice: int,
    i: int,
    entry: Entry<Vote>,
)
    requires
        0 <= i < votes.len(),
    ensures
        power_on(votes.update(i, entry), choice) == power_on(votes, choice) - weight_on(
            votes[i].value,
            choice,
        ) + weight_on(entry.value, choice),
    decreases votes.len(),
{
    let updated = votes.update(i, entry);
    if i == votes.len() - 1 {
        assert(updated.drop_last() =~= votes.drop_last());
    } else {
        assert(updated.drop_last() =~= votes.drop_last().update(i, entry));
        lemma_power_on_update(votes.drop_last(), choice, i, entry);
    }
}

/// Storing a vote changes the voting power of a choice by the difference
/// between what the new vote gives it and what the voter's earlier vote, if
/// any, gave it.
pub proof fn lemma_power_on_with_value(
    votes: Seq<Entry<Vote>>,
    voter: HumanAddr,
    vote: Vote,
    choice: int,
)
    ensures
        power_on(with_value(votes, voter, vote), choice) == power_on(votes, choice) - (
        match value_at(votes, voter@) {
            Some(previous) => weight_on(previous, choice),
            None => 0,
        }) + weight_on(vote, choice),
{
    lemma_index_of(votes, voter@);
    if has_key(votes, voter@) {
        let i = index_of(votes, voter@);
        lemma_power_on_update(votes, choice, i, Entry { key: votes[i].key, value: vote });
    } else {
        assert(with_value(votes, voter, vote).drop_last() =~= votes);
    }
}

/// Changing one entry of a tally changes its sum by the difference.
pub proof fn lemma_tally_sum_update(tally: Seq<u128>, i: int, amount: u128)
    requires
        0 <= i < tally.len(),
    ensures
        tally_sum(tally.update(i, amount)) == tally_sum(tally) - tally[i] + amount,
    decreases tally.len(),
{
    let updated = tally.update(i, amount);
    if i == tally.len() - 1 {
        assert(updated.drop_last() =~= tally.drop_last());
    } else {
        assert(updated.drop_last() =~= tally.drop_last().update(i, amount));
        lemma_tally_sum_update(tally.drop_last(), i, amount);
    }
}

/// A tally that agrees with the votes sums to their total voting power.
pub proof fn lemma_tally_sums_to_total_power(votes: Seq<Entry<Vote>>, tally: Seq<u128>)
    requires
        votes_counted(votes, tally),
    ensures
        tally_sum(tally) == total_power(votes),
    decreases votes.len(),
{
    if votes.len() == 0 {
        lemma_zero_tally(tally);
    } else {
        let last = votes.last().value;
        let rest = votes.drop_last();
        let slot = last.choice as int;
        assert(votes[votes.len() - 1].value.choice < tally.len());
        assert(tally[slot] as int == power_on(votes, slot));
        lemma_power_on_nonnegative(rest, slot);
        let without = tally.update(slot, (tally[slot] - last.voting_power) as u128);
        assert forall|i: int| 0 <= i < rest.len() implies ((#[trigger] rest[i]).value.choice as int)
            < without.len() by {
            assert(rest[i] == votes[i]);
        }
        assert forall|c: int| 0 <= c < without.len() implies #[trigger] without[c] as int
            == power_on(rest, c) by {
            assert(tally[c] as int == power_on(votes, c));
        }
        lemma_tally_sums_to_total_power(rest, without);
        lemma_tally_sum_update(tally, slot, (tally[slot] - last.voting_power) as u128);
    }
}

/// A tally whose entries are all zero sums to zero.
pub proof fn lemma_zero_tally(tally: Seq<u128>)
    requires
        forall|c: int| 0 <= c < tally.len() ==> #[trigger] tally[c] == 0,
    ensures
        tally_sum(tally) == 0,
    decreases tally.len(),
{
    if tally.len() > 0 {
        assert forall|c: int| 0 <= c < tally.drop_last().len() implies #[trigger] tally.drop_last()[c]
            == 0 by {
            assert(tally.drop_last()[c] == tally[c]);
        }
        lemma_zero_tally(tally.drop_last());
    }
}

} // verus!
