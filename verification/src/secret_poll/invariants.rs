//! What holds of a poll over every run: the tally agrees with the votes,
//! an ended poll stays as it is, and a poll is finalized once, not before
//! its end time.
use vstd::prelude::*;
use crate::chain::{Env, HandleResponse, HumanAddr, InitResponse};
use crate::errors::ContractError;
use crate::keyed::{has_key, index_of, lemma_index_of, value_at};
use crate::secret_poll::contract::{finalize_post, handle_post, init_post, PollAnswer};
use crate::secret_poll::state::{
    lemma_power_on_covers, lemma_power_on_with_value, lemma_tally_sums_to_total_power, PollStorage,
    power_on, tally_sum, total_power, Vote,
};
use crate::secret_poll::tally::{participation, retracted, tally_max, update_vote_post};
use crate::secret_vote_types::{PollHandleMsg, PollInitMsg};

verus! {

/// While the tally agrees with the votes, taking a voter's standing vote
/// out of it cannot fail: the vote is for a choice of the poll, and the
/// entry of that choice holds at least the vote's power.
pub proof fn lemma_standing_vote_retracts(before: PollStorage, voter: HumanAddr)
    requires
        before.tally_consistent(),
    ensures
        retracted(before.tally@, value_at(before.votes.entries@, voter@)) is Ok,
{
    let votes = before.votes.entries@;
    lemma_index_of(votes, voter@);
    if has_key(votes, voter@) {
        let i = index_of(votes, voter@);
        let previous = votes[i].value;
        assert(votes[i].value.choice < before.tally@.len());
        lemma_power_on_covers(votes, previous.choice as int, i);
        assert(before.tally@[previous.choice as int] as int == power_on(votes, previous.choice as int));
    }
}

/// Replacing a voter's standing vote keeps the tally in agreement with the
/// votes, so that the tally still sums to the voting power of all votes.
pub proof fn lemma_revote_keeps_tally(
    before: PollStorage,
    voter: HumanAddr,
    new_vote: Vote,
    after: PollStorage,
    res: Result<(), ContractError>,
)
    requires
        before.tally_consistent(),
        update_vote_post(
            before,
            voter,
            value_at(before.votes.entries@, voter@),
            new_vote,
            after,
            res,
        ),
    ensures
        after.tally_consistent(),
        tally_sum(after.tally@) == total_power(after.votes.entries@),
{
    let votes = before.votes.entries@;
    let previous = value_at(votes, voter@);
    if res is Ok {
        lemma_standing_vote_retracts(before, voter);
        lemma_index_of(votes, voter@);
        let stored = after.votes.entries@;
        let without = retracted(before.tally@, previous)->Ok_0;
        assert forall|i: int| 0 <= i < stored.len() implies ((#[trigger] stored[i]).value.choice as int)
            < after.tally@.len() by {
            if i < votes.len() && !(has_key(votes, voter@) && i == index_of(votes, voter@)) {
                assert(stored[i] == votes[i]);
            }
        }
        assert forall|c: int| 0 <= c < after.tally@.len() implies #[trigger] after.tally@[c] as int
            == power_on(after.votes.entries@, c) by {
            lemma_power_on_with_value(votes, voter, new_vote, c);
            assert(before.tally@[c] as int == power_on(votes, c));
        }
    }
    lemma_tally_sums_to_total_power(after.votes.entries@, after.tally@);
}

/// Whatever the request, and whether or not it is served, a tally that
/// agrees with the votes still does afterwards, and sums to the voting power
/// of all votes.
pub proof fn lemma_handle_keeps_tally(
    before: PollStorage,
    env: Env,
    msg: PollHandleMsg,
    balance: u128,
    after: PollStorage,
    res: Result<HandleResponse<PollAnswer>, ContractError>,
)
    requires
        before.tally_consistent(),
        handle_post(before, env, msg, balance, after, res),
    ensures
        after.tally_consistent(),
        tally_sum(after.tally@) == total_power(after.votes.entries@),
{
    lemma_tally_sums_to_total_power(before.votes.entries@, before.tally@);
    if res is Ok {
        match msg {
            PollHandleMsg::Vote { choice, .. } => {
                lemma_revote_keeps_tally(
                    before,
                    env.message.sender,
                    Vote { choice, voting_power: balance },
                    after,
                    Ok(()),
                );
            },
            PollHandleMsg::UpdateVotingPower { voter, new_power } => {
                match value_at(before.votes.entries@, voter@) {
                    Some(previous) => {
                        lemma_revote_keeps_tally(
                            before,
                            voter,
                            Vote { choice: previous.choice, voting_power: new_power },
                            after,
                            Ok(()),
                        );
                    },
                    None => {},
                }
            },
            PollHandleMsg::Finalize {  } => {},
        }
    }
}

/// A poll starts with a tally that agrees with its votes: it has none.
pub proof fn lemma_new_poll_is_consistent(
    env: Env,
    msg: PollInitMsg,
    res: Result<(PollStorage, InitResponse), ContractError>,
)
    requires
        init_post(env, msg, res),
        res is Ok,
    ensures
        res->Ok_0.0.tally_consistent(),
{
}

/// Before its end time a poll that is open cannot be finalized, whatever
/// the votes and the supply.
pub proof fn lemma_finalize_waits_for_end(
    before: PollStorage,
    env: Env,
    eligible_supply: u128,
    after: PollStorage,
    res: Result<HandleResponse<PollAnswer>, ContractError>,
)
    requires
        !before.config.ended,
        env.block.time < before.config.end_timestamp,
        finalize_post(before, env, eligible_supply, after, res),
    ensures
        res is Err,
        res->Err_0 == ContractError::NotYetEnded,
        after == before,
{
}

/// A poll is finalized at most once: after a finalization that succeeded,
/// every further one is refused as already ended and changes nothing.
pub proof fn lemma_finalize_once(
    before: PollStorage,
    first_env: Env,
    first_supply: u128,
    ended: PollStorage,
    first: Result<HandleResponse<PollAnswer>, ContractError>,
    second_env: Env,
    second_supply: u128,
    after: PollStorage,
    second: Result<HandleResponse<PollAnswer>, ContractError>,
)
    requires
        finalize_post(before, first_env, first_supply, ended, first),
        first is Ok,
        finalize_post(ended, second_env, second_supply, after, second),
    ensures
        first_env.block.time >= before.config.end_timestamp,
        second is Err,
        second->Err_0 == ContractError::AlreadyEnded,
        after == ended,
{
}

/// From its end time on, a poll that is open is finalized on the first
/// attempt, provided that it has a tally, that a hundred times the votes
/// fit in 128 bits and that something is staked.
pub proof fn lemma_finalize_succeeds_at_end(
    before: PollStorage,
    env: Env,
    eligible_supply: u128,
    after: PollStorage,
    res: Result<HandleResponse<PollAnswer>, ContractError>,
)
    requires
        !before.config.ended,
        env.block.time >= before.config.end_timestamp,
        before.tally@.len() > 0,
        100 * tally_sum(before.tally@) <= u128::MAX,
        eligible_supply > 0,
        finalize_post(before, env, eligible_supply, after, res),
    ensures
        res is Ok,
        after.config.ended,
        after.config.valid == (participation(tally_sum(before.tally@), eligible_supply)
            > before.config.quorum as int && tally_max(before.tally@)
            > before.config.min_threshold as int),
        after.tally == before.tally,
        after.votes == before.votes,
{
}

/// Whatever the request, and whether or not it is served, the number of
/// voters stays the number of stored votes, the tally keeps one entry for
/// each choice, and the choices stay what they are.
pub proof fn lemma_handle_keeps_count_and_choices(
    before: PollStorage,
    env: Env,
    msg: PollHandleMsg,
    balance: u128,
    after: PollStorage,
    res: Result<HandleResponse<PollAnswer>, ContractError>,
)
    requires
        handle_post(before, env, msg, balance, after, res),
    ensures
        before.voters_counted() ==> after.voters_counted(),
        after.tally@.len() == before.tally@.len(),
        after.config.choices == before.config.choices,
        after.config.end_timestamp == before.config.end_timestamp,
        before.config.ended ==> after == before,
{
    lemma_index_of(before.votes.entries@, env.message.sender@);
    match msg {
        PollHandleMsg::UpdateVotingPower { voter, .. } => {
            lemma_index_of(before.votes.entries@, voter@);
        },
        _ => {},
    }
}

} // verus!
