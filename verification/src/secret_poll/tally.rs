//! The tally of a poll: replacing a vote in it, and the totals that decide
//! whether the result counts.
use vstd::prelude::*;
use crate::chain::HumanAddr;
use crate::errors::ContractError;
use crate::keyed::with_value;
use crate::secret_poll::state::{PollStorage, store_vote, StoredPollConfig, tally_sum, Vote};

verus! {

/// A copy of a list of texts.
pub fn clone_texts(texts: &Vec<String>) -> (res: Vec<String>)
    ensures
        res@ == texts@,
{
    let mut res: Vec<String> = Vec::new();
    let mut i: usize = 0;
    while i < texts.len()
        invariant
            i <= texts@.len(),
            res@ == texts@.take(i as int),
        decreases texts@.len() - i,
    {
        res.push(texts[i].clone());
        assert(res@ =~= texts@.take(i as int + 1));
        i += 1;
    }
    assert(texts@.take(i as int) =~= texts@);
    res
}

/// A copy of a list of amounts.
pub fn clone_amounts(amounts: &Vec<u128>) -> (res: Vec<u128>)
    ensures
        res@ == amounts@,
{
    let mut res: Vec<u128> = Vec::new();
    let mut i: usize = 0;
    while i < amounts.len()
        invariant
            i <= amounts@.len(),
            res@ == amounts@.take(i as int),
        decreases amounts@.len() - i,
    {
        res.push(amounts[i]);
        assert(res@ =~= amounts@.take(i as int + 1));
        i += 1;
    }
    assert(amounts@.take(i as int) =~= amounts@);
    res
}

/// The tally once the vote `previous`, if there was one, is taken out.
pub open spec fn retracted(tally: Seq<u128>, previous: Option<Vote>) -> Result<
    Seq<u128>,
    ContractError,
> {
    match previous {
        None => Ok(tally),
        Some(vote) => if vote.choice as int >= tally.len() {
            Err(ContractError::UnknownPreviousChoice { choice: vote.choice })
        } else if tally[vote.choice as int] < vote.voting_power {
            Err(ContractError::Overflow)
        } else {
            Ok(
                tally.update(
                    vote.choice as int,
                    (tally[vote.choice as int] - vote.voting_power) as u128,
                ),
            )
        },
    }
}

/// The tally once `vote` is counted.
pub open spec fn counted(tally: Seq<u128>, vote: Vote) -> Result<Seq<u128>, ContractError> {
    if vote.choice as int >= tally.len() {
        Err(ContractError::UnknownChoice { choice: vote.choice })
    } else if tally[vote.choice as int] + vote.voting_power > u128::MAX {
        Err(ContractError::Overflow)
    } else {
        Ok(
            tally.update(
                vote.choice as int,
                (tally[vote.choice as int] + vote.voting_power) as u128,
            ),
        )
    }
}

/// The number of voters once a voter whose earlier vote is `previous` has
/// voted: a first vote adds one.
pub open spec fn voters_after(num_of_voters: u64, previous: Option<Vote>) -> int {
    if previous is None {
        num_of_voters + 1
    } else {
        num_of_voters as int
    }
}

/// The tally once `previous` is replaced by `new_vote`, or why it cannot be.
pub open spec fn revoted(
    tally: Seq<u128>,
    num_of_voters: u64,
    previous: Option<Vote>,
    new_vote: Vote,
) -> Result<Seq<u128>, ContractError> {
    match retracted(tally, previous) {
        Err(e) => Err(e),
        Ok(without) => if voters_after(num_of_voters, previous) > u64::MAX {
            Err(ContractError::Overflow)
        } else {
            counted(without, new_vote)
        },
    }
}

/// Everything but the tally, the votes and the number of voters is as in
/// `before`.
pub open spec fn same_poll(after: PollStorage, before: PollStorage) -> bool {
    &&& after.owner == before.owner
    &&& after.staking_pool == before.staking_pool
    &&& after.metadata == before.metadata
    &&& after.config == before.config
}

/// What replacing a vote does: the earlier vote leaves the tally, the new
/// one enters it and is stored in its place. A failure changes nothing.
pub open spec fn update_vote_post(
    before: PollStorage,
    voter: HumanAddr,
    previous: Option<Vote>,
    new_vote: Vote,
    after: PollStorage,
    res: Result<(), ContractError>,
) -> bool {
    match revoted(before.tally@, before.num_of_voters, previous, new_vote) {
        Err(e) => res is Err && res->Err_0 == e && after == before,
        Ok(tally) => {
            &&& res is Ok
            &&& same_poll(after, before)
            &&& after.tally@ == tally
            &&& after.num_of_voters as int == voters_after(before.num_of_voters, previous)
            &&& after.votes.entries@ == with_value(before.votes.entries@, voter, new_vote)
        },
    }
}

/// Replaces the vote `previous_vote` of `voter` by `new_vote`: takes the
/// earlier voting power out of the tally, adds the new one and stores the
/// vote. Without an earlier vote the number of voters grows by one.
pub fn update_vote(
    deps: &mut PollStorage,
    voter: &HumanAddr,
    previous_vote: Option<Vote>,
    new_vote: Vote,
) -> (res: Result<(), ContractError>)
    ensures
        update_vote_post(*old(deps), *voter, previous_vote, new_vote, *final(deps), res),
{
    let mut retract: Option<(usize, u128)> = None;
    let mut voters = deps.num_of_voters;
    match previous_vote {
        Some(previous) => {
            let slot = previous.choice as usize;
            if slot >= deps.tally.len() {
                return Err(ContractError::UnknownPreviousChoice { choice: previous.choice });
            }
            match deps.tally[slot].checked_sub(previous.voting_power) {
                Some(rest) => {
                    retract = Some((slot, rest));
                },
                None => {
                    return Err(ContractError::Overflow);
                },
            }
        },
        None => {
            voters = match voters.checked_add(1) {
                Some(v) => v,
                None => {
                    return Err(ContractError::Overflow);
                },
            };
        },
    }
    let slot = new_vote.choice as usize;
    if slot >= deps.tally.len() {
        return Err(ContractError::UnknownChoice { choice: new_vote.choice });
    }
    let standing = match retract {
        Some((from, rest)) => if from == slot {
            rest
        } else {
            deps.tally[slot]
        },
        None => deps.tally[slot],
    };
    let raised = match standing.checked_add(new_vote.voting_power) {
        Some(r) => r,
        None => {
            return Err(ContractError::Overflow);
        },
    };
    match retract {
        Some((from, rest)) => {
            deps.tally[from] = rest;
        },
        None => {},
    }
    deps.tally[slot] = raised;
    deps.num_of_voters = voters;
    store_vote(deps, voter, new_vote.choice, new_vote.voting_power)
}

/// The largest entry of a tally; zero for an empty one.
pub open spec fn tally_max(tally: Seq<u128>) -> int
    decreases tally.len(),
{
    if tally.len() == 0 {
        0
    } else if tally.last() as int > tally_max(tally.drop_last()) {
        tally.last() as int
    } else {
        tally_max(tally.drop_last())
    }
}

/// Percent of `eligible_supply` that `total_votes` make up, rounded down.
pub open spec fn participation(total_votes: int, eligible_supply: u128) -> int {
    100 * total_votes / (eligible_supply as int)
}

/// Whether a poll that is finalized at `now` has a valid result, or why it
/// cannot be finalized. The result is valid when the participation exceeds
/// the quorum and the strongest choice exceeds the minimum threshold.
pub open spec fn finalize_outcome(
    config: StoredPollConfig,
    tally: Seq<u128>,
    now: u64,
    eligible_supply: u128,
) -> Result<bool, ContractError> {
    if config.ended {
        Err(ContractError::AlreadyEnded)
    } else if now < config.end_timestamp {
        Err(ContractError::NotYetEnded)
    } else if tally.len() == 0 {
        Err(ContractError::CorruptTally)
    } else if 100 * tally_sum(tally) > u128::MAX {
        Err(ContractError::Overflow)
    } else if eligible_supply == 0 {
        Err(ContractError::DivideByZero)
    } else {
        Ok(
            participation(tally_sum(tally), eligible_supply) > config.quorum as int && tally_max(
                tally,
            ) > config.min_threshold as int,
        )
    }
}

/// The sum and the largest entry of a non-empty tally; `None` when the sum
/// leaves `u128`.
pub fn tally_totals(tally: &Vec<u128>) -> (res: Option<(u128, u128)>)
    ensures
        res is Some <==> tally_sum(tally@) <= u128::MAX,
        res matches Some((sum, max)) ==> sum as int == tally_sum(tally@) && max as int
            == tally_max(tally@),
{
    let mut sum: u128 = 0;
    let mut max: u128 = 0;
    let mut i: usize = 0;
    assert(tally@.take(0) =~= Seq::<u128>::empty());
    while i < tally.len()
        invariant
            i <= tally@.len(),
            sum as int == tally_sum(tally@.take(i as int)),
            max as int == tally_max(tally@.take(i as int)),
        decreases tally@.len() - i,
    {
        proof {
            let upto = tally@.take(i as int + 1);
            assert(upto.drop_last() =~= tally@.take(i as int));
            assert(upto.last() == tally@[i as int]);
        }
        match sum.checked_add(tally[i]) {
            Some(s) => {
                sum = s;
            },
            None => {
                proof {
                    lemma_tally_sum_grows(tally@, i as int + 1);
                }
                return None;
            },
        }
        if tally[i] > max {
            max = tally[i];
        }
        i += 1;
    }
    assert(tally@.take(i as int) =~= tally@);
    Some((sum, max))
}

/// The sum of a prefix of a tally is at most the sum of the tally.
pub proof fn lemma_tally_sum_grows(tally: Seq<u128>, n: int)
    requires
        0 <= n <= tally.len(),
    ensures
        0 <= tally_sum(tally.take(n)) <= tally_sum(tally),
    decreases tally.len(),
{
    if tally.len() == 0 {
        assert(tally.take(n) =~= tally);
    } else if n == tally.len() {
        assert(tally.take(n) =~= tally);
        lemma_tally_sum_grows(tally.drop_last(), n - 1);
    } else {
        assert(tally.drop_last().take(n) =~= tally.take(n));
        lemma_tally_sum_grows(tally.drop_last(), n);
    }
}

} // verus!
