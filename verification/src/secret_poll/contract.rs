//! Creating a poll, serving its requests and answering its queries. A poll
//! is open until it is finalized; once ended it takes no vote and no change
//! of voting power.
use vstd::prelude::*;
use vstd::utf8::encode_utf8;
use crate::chain::{
    CosmosMsg, Env, HandleResponse, HumanAddr, InitResponse, is_log, log, LogAttribute, WasmMsg,
};
use crate::errors::ContractError;
use crate::keyed::{KeyedStore, value_at};
use crate::secret_poll::msg::{FinalizeAnswer, QueryAnswer, QueryMsg, ResponseStatus};
use crate::secret_poll::state::{PollStorage, read_vote, StoredPollConfig, Vote};
use crate::secret_poll::tally::{
    clone_amounts, clone_texts, finalize_outcome, participation, revoted, tally_totals,
    update_vote, update_vote_post,
};
use crate::secret_vote_types::{InitHook, PollHandleMsg, PollInitMsg};

verus! {

/// The answer of a poll to a request.
#[derive(Clone, Debug, PartialEq, Eq)]
pub enum PollAnswer {
    Status(ResponseStatus),
    Finalize(FinalizeAnswer),
}

/// Passes while the poll is open.
pub fn require_vote_ongoing(deps: &PollStorage) -> (res: Result<(), ContractError>)
    ensures
        res is Ok <==> !deps.config.ended,
        res is Err ==> res->Err_0 == ContractError::AlreadyEnded,
{
    if deps.config.ended {
        return Err(ContractError::AlreadyEnded);
    }
    Ok(())
}

/// Passes once the poll has ended with a valid result.
pub fn require_vote_ended_and_valid(deps: &PollStorage) -> (res: Result<(), ContractError>)
    ensures
        res is Ok <==> deps.config.ended && deps.config.valid,
        res is Err ==> res->Err_0 == (ContractError::NotFinalizedOrInvalid {
            ended: deps.config.ended,
        }),
{
    if !deps.config.ended {
        return Err(ContractError::NotFinalizedOrInvalid { ended: false });
    } else if !deps.config.valid {
        return Err(ContractError::NotFinalizedOrInvalid { ended: true });
    }
    Ok(())
}

/// A response with one log entry and the answer that all went well.
pub open spec fn reports_success(
    res: Result<HandleResponse<PollAnswer>, ContractError>,
    key: Seq<char>,
    value: Seq<char>,
) -> bool {
    &&& res is Ok
    &&& res->Ok_0.messages@.len() == 0
    &&& res->Ok_0.log@.len() == 1
    &&& is_log(res->Ok_0.log@[0], key, value)
    &&& res->Ok_0.data == Some(PollAnswer::Status(ResponseStatus::Success))
}

/// What casting a vote does. An ended poll refuses it. Otherwise the
/// sender's earlier vote, if any, is replaced by one for `choice` with
/// `voting_power`.
pub open spec fn vote_post(
    before: PollStorage,
    env: Env,
    choice: u8,
    voting_power: u128,
    after: PollStorage,
    res: Result<HandleResponse<PollAnswer>, ContractError>,
) -> bool {
    let previous = value_at(before.votes.entries@, env.message.sender@);
    let new_vote = Vote { choice, voting_power };
    if before.config.ended {
        res is Err && res->Err_0 == ContractError::AlreadyEnded && after == before
    } else {
        match revoted(before.tally@, before.num_of_voters, previous, new_vote) {
            Err(e) => res is Err && res->Err_0 == e && after == before,
            Ok(_) => update_vote_post(before, env.message.sender, previous, new_vote, after, Ok(()))
                && reports_success(res, "voted"@, env.message.sender@),
        }
    }
}

/// Casts the sender's vote for `choice`. `voting_power` is the sender's
/// balance with the staking pool, as the pool reports it.
pub fn vote(deps: &mut PollStorage, env: &Env, choice: u8, voting_power: u128) -> (res: Result<
    HandleResponse<PollAnswer>,
    ContractError,
>)
    ensures
        vote_post(*old(deps), *env, choice, voting_power, *final(deps), res),
{
    require_vote_ongoing(deps)?;
    let prev_vote = match read_vote(deps, &env.message.sender) {
        Ok(v) => Some(v),
        Err(_) => None,
    };
    update_vote(deps, &env.message.sender, prev_vote, Vote { choice, voting_power })?;
    let mut logs: Vec<LogAttribute> = Vec::new();
    logs.push(log("voted", &env.message.sender));
    Ok(
        HandleResponse {
            messages: Vec::new(),
            log: logs,
            data: Some(PollAnswer::Status(ResponseStatus::Success)),
        },
    )
}

/// What a change of voting power does. An ended poll refuses it, and so
/// does an open one unless the factory sends it. A voter without a vote is
/// left alone. A standing vote keeps its choice and takes the new power.
pub open spec fn update_voting_power_post(
    before: PollStorage,
    env: Env,
    voter: HumanAddr,
    new_power: u128,
    after: PollStorage,
    res: Result<HandleResponse<PollAnswer>, ContractError>,
) -> bool {
    if before.config.ended {
        res is Err && res->Err_0 == ContractError::AlreadyEnded && after == before
    } else if env.message.sender@ != before.owner@ {
        res is Err && res->Err_0 == ContractError::Unauthorized && after == before
    } else {
        match value_at(before.votes.entries@, voter@) {
            None => {
                &&& after == before
                &&& res is Ok
                &&& res->Ok_0.messages@.len() == 0
                &&& res->Ok_0.log@.len() == 0
                &&& res->Ok_0.data == Some(PollAnswer::Status(ResponseStatus::Success))
            },
            Some(previous) => {
                let new_vote = Vote { choice: previous.choice, voting_power: new_power };
                match revoted(before.tally@, before.num_of_voters, Some(previous), new_vote) {
                    Err(e) => res is Err && res->Err_0 == e && after == before,
                    Ok(_) => update_vote_post(
                        before,
                        voter,
                        Some(previous),
                        new_vote,
                        after,
                        Ok(()),
                    ) && reports_success(res, "voting_power_updated"@, voter@),
                }
            },
        }
    }
}

/// The staking pool reports, through the factory, that `voter` now has
/// `new_power`.
pub fn update_voting_power(
    deps: &mut PollStorage,
    env: &Env,
    voter: HumanAddr,
    new_power: u128,
) -> (res: Result<HandleResponse<PollAnswer>, ContractError>)
    ensures
        update_voting_power_post(*old(deps), *env, voter, new_power, *final(deps), res),
{
    require_vote_ongoing(deps)?;
    if !env.message.sender.same_as(&deps.owner) {
        return Err(ContractError::Unauthorized);
    }
    let mut logs: Vec<LogAttribute> = Vec::new();
    match read_vote(deps, &voter) {
        Ok(prev_vote) => {
            update_vote(
                deps,
                &voter,
                Some(prev_vote),
                Vote { choice: prev_vote.choice, voting_power: new_power },
            )?;
            logs.push(log("voting_power_updated", &voter));
        },
        Err(_) => {},
    }
    Ok(
        HandleResponse {
            messages: Vec::new(),
            log: logs,
            data: Some(PollAnswer::Status(ResponseStatus::Success)),
        },
    )
}

/// What finalizing does: the poll is ended for good with the validity that
/// was found, and the result is handed back.
pub open spec fn finalize_post(
    before: PollStorage,
    env: Env,
    eligible_supply: u128,
    after: PollStorage,
    res: Result<HandleResponse<PollAnswer>, ContractError>,
) -> bool {
    match finalize_outcome(before.config, before.tally@, env.block.time, eligible_supply) {
        Err(e) => res is Err && res->Err_0 == e && after == before,
        Ok(valid) => {
            &&& res is Ok
            &&& after == (PollStorage {
                config: StoredPollConfig { ended: true, valid, ..before.config },
                ..before
            })
            &&& res->Ok_0.messages@.len() == 0
            &&& res->Ok_0.log@.len() == 0
            &&& res->Ok_0.data matches Some(PollAnswer::Finalize(answer)) && answer.valid == valid
                && answer.choices@ == before.config.choices@ && answer.tally@ == before.tally@
        },
    }
}

/// Ends the poll. `eligible_supply` is the total staked with the staking
/// pool now, as the pool reports it.
pub fn finalize(deps: &mut PollStorage, env: &Env, eligible_supply: u128) -> (res: Result<
    HandleResponse<PollAnswer>,
    ContractError,
>)
    ensures
        finalize_post(*old(deps), *env, eligible_supply, *final(deps), res),
{
    if deps.config.ended {
        return Err(ContractError::AlreadyEnded);
    }
    if env.block.time < deps.config.end_timestamp {
        return Err(ContractError::NotYetEnded);
    }
    if deps.tally.len() == 0 {
        return Err(ContractError::CorruptTally);
    }
    let (total_vote_count, winning_choice) = match tally_totals(&deps.tally) {
        Some(totals) => totals,
        None => {
            return Err(ContractError::Overflow);
        },
    };
    let scaled = match total_vote_count.checked_mul(100) {
        Some(s) => s,
        None => {
            return Err(ContractError::Overflow);
        },
    };
    if eligible_supply == 0 {
        return Err(ContractError::DivideByZero);
    }
    let participation = scaled / eligible_supply;
    let valid = participation > deps.config.quorum as u128 && winning_choice
        > deps.config.min_threshold as u128;
    deps.config.ended = true;
    deps.config.valid = valid;
    let answer = FinalizeAnswer {
        valid,
        choices: clone_texts(&deps.config.choices),
        tally: clone_amounts(&deps.tally),
    };
    Ok(
        HandleResponse {
            messages: Vec::new(),
            log: Vec::new(),
            data: Some(PollAnswer::Finalize(answer)),
        },
    )
}

/// Why a poll cannot be created as `msg` says, if it cannot.
pub open spec fn init_refusal(env: Env, msg: PollInitMsg) -> Option<ContractError> {
    if msg.choices@.len() < 2 {
        Some(ContractError::TooFewChoices)
    } else if encode_utf8(msg.metadata.title@).len() < 2 {
        Some(ContractError::TitleTooShort)
    } else if encode_utf8(msg.metadata.description@).len() < 10 {
        Some(ContractError::DescriptionTooShort)
    } else if encode_utf8(msg.metadata.author_alias@).len() < 3 {
        Some(ContractError::AliasTooShort)
    } else if env.block.time + msg.config.duration > u64::MAX {
        Some(ContractError::Overflow)
    } else {
        None
    }
}

/// The instructions a new poll hands back: its init hook, if it has one.
pub open spec fn hook_messages(init_hook: Option<InitHook>) -> Seq<CosmosMsg> {
    match init_hook {
        Some(hook) => seq![
            CosmosMsg::Wasm(
                WasmMsg::Execute {
                    contract_addr: hook.contract_addr,
                    callback_code_hash: hook.code_hash,
                    msg: hook.msg,
                },
            ),
        ],
        None => Seq::empty(),
    }
}

/// What creating a poll gives: an open poll owned by the sender, with a
/// zero tally entry for each choice and no votes, that ends `duration`
/// seconds from now.
pub open spec fn init_post(
    env: Env,
    msg: PollInitMsg,
    res: Result<(PollStorage, InitResponse), ContractError>,
) -> bool {
    match init_refusal(env, msg) {
        Some(e) => res is Err && res->Err_0 == e,
        None => {
            let (deps, resp) = res->Ok_0;
            &&& res is Ok
            &&& deps.owner == env.message.sender
            &&& deps.staking_pool == msg.staking_pool
            &&& deps.metadata == msg.metadata
            &&& deps.tally@ == Seq::new(msg.choices@.len(), |i: int| 0u128)
            &&& deps.config.end_timestamp == env.block.time + msg.config.duration
            &&& deps.config.quorum == msg.config.quorum
            &&& deps.config.min_threshold == msg.config.min_threshold
            &&& deps.config.choices == msg.choices
            &&& !deps.config.ended
            &&& !deps.config.valid
            &&& deps.num_of_voters == 0
            &&& deps.votes.entries@.len() == 0
            &&& resp.messages@ == hook_messages(msg.init_hook)
            &&& resp.log@.len() == 0
        },
    }
}

/// Creates a poll for the sender, which is the factory.
pub fn init(env: &Env, msg: PollInitMsg) -> (res: Result<(PollStorage, InitResponse), ContractError>)
    ensures
        init_post(*env, msg, res),
{
    if msg.choices.len() < 2 {
        return Err(ContractError::TooFewChoices);
    }
    if msg.metadata.title.as_str().as_bytes().len() < 2 {
        return Err(ContractError::TitleTooShort);
    }
    if msg.metadata.description.as_str().as_bytes().len() < 10 {
        return Err(ContractError::DescriptionTooShort);
    }
    if msg.metadata.author_alias.as_str().as_bytes().len() < 3 {
        return Err(ContractError::AliasTooShort);
    }
    let ending = match env.block.time.checked_add(msg.config.duration) {
        Some(e) => e,
        None => {
            return Err(ContractError::Overflow);
        },
    };
    let mut tally: Vec<u128> = Vec::new();
    let mut i: usize = 0;
    while i < msg.choices.len()
        invariant
            i <= msg.choices@.len(),
            tally@ == Seq::new(i as nat, |j: int| 0u128),
        decreases msg.choices@.len() - i,
    {
        tally.push(0);
        assert(tally@ =~= Seq::new((i + 1) as nat, |j: int| 0u128));
        i += 1;
    }
    let mut messages: Vec<CosmosMsg> = Vec::new();
    match msg.init_hook {
        Some(init_hook) => {
            messages.push(
                CosmosMsg::Wasm(
                    WasmMsg::Execute {
                        contract_addr: init_hook.contract_addr,
                        callback_code_hash: init_hook.code_hash,
                        msg: init_hook.msg,
                    },
                ),
            );
        },
        None => {},
    }
    assert(messages@ =~= hook_messages(msg.init_hook));
    let deps = PollStorage {
        owner: env.message.sender.clone(),
        staking_pool: msg.staking_pool,
        metadata: msg.metadata,
        tally,
        config: StoredPollConfig {
            end_timestamp: ending,
            quorum: msg.config.quorum,
            min_threshold: msg.config.min_threshold,
            choices: msg.choices,
            ended: false,
            valid: false,
        },
        num_of_voters: 0,
        votes: KeyedStore::new(),
    };
    Ok((deps, InitResponse { messages, log: Vec::new() }))
}

/// What a request does. `balance` is what the staking pool reports for the
/// request: the sender's balance for a vote, the total staked for
/// finalizing; no other request reads it.
pub open spec fn handle_post(
    before: PollStorage,
    env: Env,
    msg: PollHandleMsg,
    balance: u128,
    after: PollStorage,
    res: Result<HandleResponse<PollAnswer>, ContractError>,
) -> bool {
    match msg {
        PollHandleMsg::Vote { choice, .. } => vote_post(before, env, choice, balance, after, res),
        PollHandleMsg::UpdateVotingPower { voter, new_power } => update_voting_power_post(
            before,
            env,
            voter,
            new_power,
            after,
            res,
        ),
        PollHandleMsg::Finalize {  } => finalize_post(before, env, balance, after, res),
    }
}

/// Serves one request. `balance` is what the staking pool reports for it:
/// the sender's balance for a vote, the total staked for finalizing.
pub fn handle(deps: &mut PollStorage, env: &Env, msg: PollHandleMsg, balance: u128) -> (res: Result<
    HandleResponse<PollAnswer>,
    ContractError,
>)
    ensures
        handle_post(*old(deps), *env, msg, balance, *final(deps), res),
{
    match msg {
        PollHandleMsg::Vote { choice, .. } => vote(deps, env, choice, balance),
        PollHandleMsg::UpdateVotingPower { voter, new_power } => update_voting_power(
            deps,
            env,
            voter,
            new_power,
        ),
        PollHandleMsg::Finalize {  } => finalize(deps, env, balance),
    }
}

/// An answer that lists exactly the choices `choices`.
pub open spec fn lists_choices(res: Result<QueryAnswer, ContractError>, choices: Seq<String>)
    -> bool {
    res matches Ok(QueryAnswer::Choices { choices: listed }) && listed@ == choices
}

/// The choices of the poll.
pub fn query_choices(deps: &PollStorage) -> (res: Result<QueryAnswer, ContractError>)
    ensures
        lists_choices(res, deps.config.choices@),
{
    Ok(QueryAnswer::Choices { choices: clone_texts(&deps.config.choices) })
}

/// What the poll is about.
pub fn query_vote_info(deps: &PollStorage) -> (res: Result<QueryAnswer, ContractError>)
    ensures
        res == Ok::<QueryAnswer, ContractError>(QueryAnswer::VoteInfo { info: deps.metadata }),
{
    Ok(QueryAnswer::VoteInfo { info: deps.metadata.clone() })
}

/// An answer that holds the configuration `config`.
pub open spec fn shows_config(res: Result<QueryAnswer, ContractError>, config: StoredPollConfig)
    -> bool {
    res matches Ok(QueryAnswer::VoteConfig { vote_config }) && vote_config.end_timestamp
        == config.end_timestamp && vote_config.quorum == config.quorum
        && vote_config.min_threshold == config.min_threshold && vote_config.choices@
        == config.choices@ && vote_config.ended == config.ended && vote_config.valid
        == config.valid
}

/// Configuration and lifecycle of the poll.
pub fn query_vote_config(deps: &PollStorage) -> (res: Result<QueryAnswer, ContractError>)
    ensures
        shows_config(res, deps.config),
{
    Ok(
        QueryAnswer::VoteConfig {
            vote_config: StoredPollConfig {
                end_timestamp: deps.config.end_timestamp,
                quorum: deps.config.quorum,
                min_threshold: deps.config.min_threshold,
                choices: clone_texts(&deps.config.choices),
                ended: deps.config.ended,
                valid: deps.config.valid,
            },
        },
    )
}

/// Whether `voter` has a standing vote.
pub fn query_has_voted(deps: &PollStorage, voter: HumanAddr) -> (res: Result<
    QueryAnswer,
    ContractError,
>)
    ensures
        res == Ok::<QueryAnswer, ContractError>(
            QueryAnswer::HasVoted {
                has_voted: value_at(deps.votes.entries@, voter@) is Some,
            },
        ),
{
    let has_voted = read_vote(deps, &voter).is_ok();
    Ok(QueryAnswer::HasVoted { has_voted })
}

/// What the tally query answers: the choices and the tally of a poll that
/// ended with a valid result, and a refusal for any other.
pub open spec fn tally_post(deps: PollStorage, res: Result<QueryAnswer, ContractError>) -> bool {
    if deps.config.ended && deps.config.valid {
        res matches Ok(QueryAnswer::Tally { choices, tally }) && choices@ == deps.config.choices@
            && tally@ == deps.tally@
    } else {
        res is Err && res->Err_0 == (ContractError::NotFinalizedOrInvalid {
            ended: deps.config.ended,
        })
    }
}

/// The tally by choice. It is told only once the poll has ended with a valid
/// result, so that a running tally does not give single votes away.
pub fn query_tally(deps: &PollStorage) -> (res: Result<QueryAnswer, ContractError>)
    ensures
        tally_post(*deps, res),
{
    require_vote_ended_and_valid(deps)?;
    Ok(
        QueryAnswer::Tally {
            choices: clone_texts(&deps.config.choices),
            tally: clone_amounts(&deps.tally),
        },
    )
}

/// What the vote query answers for `voter`.
pub open spec fn vote_answer(deps: PollStorage, voter: HumanAddr) -> Result<
    QueryAnswer,
    ContractError,
> {
    match value_at(deps.votes.entries@, voter@) {
        Some(vote) => Ok(
            QueryAnswer::Vote { choice: vote.choice, voting_power: vote.voting_power },
        ),
        None => Err(ContractError::NotFound),
    }
}

/// The standing vote of `voter`. The caller has checked the voter's viewing
/// key with the staking pool.
pub fn query_vote(deps: &PollStorage, voter: HumanAddr) -> (res: Result<QueryAnswer, ContractError>)
    ensures
        res == vote_answer(*deps, voter),
{
    let vote = read_vote(deps, &voter)?;
    Ok(QueryAnswer::Vote { choice: vote.choice, voting_power: vote.voting_power })
}

/// How many voters have a standing vote.
pub fn query_num_of_voters(deps: &PollStorage) -> (res: Result<QueryAnswer, ContractError>)
    ensures
        res == Ok::<QueryAnswer, ContractError>(
            QueryAnswer::NumberOfVoters { count: deps.num_of_voters },
        ),
{
    Ok(QueryAnswer::NumberOfVoters { count: deps.num_of_voters })
}

/// What a query answers.
pub open spec fn query_post(
    deps: PollStorage,
    msg: QueryMsg,
    res: Result<QueryAnswer, ContractError>,
) -> bool {
    match msg {
        QueryMsg::Choices {  } => lists_choices(res, deps.config.choices@),
        QueryMsg::HasVoted { voter } => res == Ok::<QueryAnswer, ContractError>(
            QueryAnswer::HasVoted { has_voted: value_at(deps.votes.entries@, voter@) is Some },
        ),
        QueryMsg::Tally {  } => tally_post(deps, res),
        QueryMsg::Vote { voter, .. } => res == vote_answer(deps, voter),
        QueryMsg::VoteConfig {  } => shows_config(res, deps.config),
        QueryMsg::NumberOfVoters {  } => res == Ok::<QueryAnswer, ContractError>(
            QueryAnswer::NumberOfVoters { count: deps.num_of_voters },
        ),
        QueryMsg::VoteInfo {  } => res == Ok::<QueryAnswer, ContractError>(
            QueryAnswer::VoteInfo { info: deps.metadata },
        ),
    }
}

/// Answers a query. For the vote of a voter the caller has checked the
/// viewing key that the query presents.
pub fn query(deps: &PollStorage, msg: QueryMsg) -> (res: Result<QueryAnswer, ContractError>)
    ensures
        query_post(*deps, msg, res),
{
    match msg {
        QueryMsg::Choices {  } => query_choices(deps),
        QueryMsg::HasVoted { voter } => query_has_voted(deps, voter),
        QueryMsg::Tally {  } => query_tally(deps),
        QueryMsg::Vote { voter, .. } => query_vote(deps, voter),
        QueryMsg::VoteConfig {  } => query_vote_config(deps),
        QueryMsg::NumberOfVoters {  } => query_num_of_voters(deps),
        QueryMsg::VoteInfo {  } => query_vote_info(deps),
    }
}

} // verus!
