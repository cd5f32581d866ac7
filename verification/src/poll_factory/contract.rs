//! The requests of the poll factory.
//!
//! Every request starts by dropping the polls that have ended from the
//! registry. A request that is refused leaves the registry as it was.
use vstd::prelude::*;
use vstd::string::StringExecFns;
use crate::chain::{
    is_log, log, CosmosMsg, Env, HandleResponse, HumanAddr, InitResponse, LogAttribute, MsgBody, WasmMsg,
};
use crate::encoding::{decimal_text, push_decimal};
use crate::errors::ContractError;
use crate::hashing::{sha_256, sha_256_digest};
use crate::poll_factory::challenge::{challenge_digest, challenge_text, Challenge};
use crate::poll_factory::msg::{InitMsg, QueryAnswer, QueryMsg, ResponseStatus};
use crate::poll_factory::state::{still_active, ActivePoll, Config, FactoryStorage, PollContract};
use crate::secret_vote_types::{
    InitHook, PollConfig, PollFactoryHandleMsg, PollHandleMsg, PollInitMsg, PollMetadata,
};

verus! {

/// What creating a factory gives: a factory of the sender with an empty
/// registry, no pending challenge and the default poll configuration of two
/// weeks, a quorum of 34 percent and no threshold.
pub open spec fn init_post(env: Env, msg: InitMsg, res: Result<
    (FactoryStorage, InitResponse),
    ContractError,
>) -> bool {
    let (deps, resp) = res->Ok_0;
    &&& res is Ok
    &&& deps.admin == env.message.sender
    &&& deps.default_poll_config == (PollConfig { duration: 1209600, quorum: 34, min_threshold: 0 })
    &&& deps.config.poll_contract == msg.poll_contract
    &&& deps.config.staking_pool == msg.staking_pool
    &&& deps.config.id_counter == 0
    &&& deps.config.prng_seed@ == sha_256_digest(msg.prng_seed@)
    &&& deps.current_challenge is None
    &&& deps.active_polls@.len() == 0
    &&& resp.messages@.len() == 0
    &&& resp.log@.len() == 0
}

/// Creates a poll factory for the sender.
pub fn init(env: &Env, msg: InitMsg) -> (res: Result<(FactoryStorage, InitResponse), ContractError>)
    ensures
        init_post(*env, msg, res),
{
    let prng_seed_hashed = sha_256(msg.prng_seed.as_slice());
    let deps = FactoryStorage {
        admin: env.message.sender.clone(),
        default_poll_config: PollConfig { duration: 1209600, quorum: 34, min_threshold: 0 },
        config: Config {
            poll_contract: msg.poll_contract,
            staking_pool: msg.staking_pool,
            id_counter: 0,
            prng_seed: prng_seed_hashed,
        },
        current_challenge: None,
        active_polls: Vec::new(),
    };
    Ok((deps, InitResponse { messages: Vec::new(), log: Vec::new() }))
}

/// Passes only the admin.
pub fn enforce_admin(deps: &FactoryStorage, env: &Env) -> (res: Result<(), ContractError>)
    ensures
        res is Ok <==> deps.admin@ == env.message.sender@,
        res is Err ==> res->Err_0 == ContractError::Unauthorized,
{
    if !deps.admin.same_as(&env.message.sender) {
        return Err(ContractError::Unauthorized);
    }
    Ok(())
}

/// The registered polls that have not ended before `current_time`, in the
/// order they registered.
pub fn get_active_polls(deps: &FactoryStorage, current_time: u64) -> (res: Result<
    Vec<ActivePoll>,
    ContractError,
>)
    ensures
        res is Ok,
        res->Ok_0@ == still_active(deps.active_polls@, current_time),
{
    let ghost running = |p: ActivePoll| p.end_time >= current_time;
    let mut active: Vec<ActivePoll> = Vec::new();
    let mut i: usize = 0;
    while i < deps.active_polls.len()
        invariant
            i <= deps.active_polls@.len(),
            running == |p: ActivePoll| p.end_time >= current_time,
            active@ == deps.active_polls@.take(i as int).filter(running),
        decreases deps.active_polls@.len() - i,
    {
        proof {
            let sofar = deps.active_polls@.take(i as int);
            assert(deps.active_polls@.take(i as int + 1) =~= sofar.push(
                deps.active_polls@[i as int],
            ));
            sofar.lemma_filter_push(deps.active_polls@[i as int], running);
        }
        if deps.active_polls[i].end_time >= current_time {
            active.push(deps.active_polls[i].clone());
        }
        i += 1;
    }
    assert(deps.active_polls@.take(i as int) =~= deps.active_polls@);
    Ok(active)
}

/// A copy of a list of polls.
pub fn clone_polls(polls: &Vec<ActivePoll>) -> (res: Vec<ActivePoll>)
    ensures
        res@ == polls@,
{
    let mut res: Vec<ActivePoll> = Vec::new();
    let mut i: usize = 0;
    while i < polls.len()
        invariant
            i <= polls@.len(),
            res@ == polls@.take(i as int),
        decreases polls@.len() - i,
    {
        res.push(polls[i].clone());
        assert(res@ =~= polls@.take(i as int + 1));
        i += 1;
    }
    assert(polls@.take(i as int) =~= polls@);
    res
}

/// Everything but the registry is as in `before`.
pub open spec fn same_but_registry(after: FactoryStorage, before: FactoryStorage) -> bool {
    &&& after.admin == before.admin
    &&& after.default_poll_config == before.default_poll_config
    &&& after.config == before.config
    &&& after.current_challenge == before.current_challenge
}

/// Drops the polls that have ended from the registry and hands back the
/// ones that stay.
pub fn remove_inactive_polls(deps: &mut FactoryStorage, env: &Env) -> (res: Result<
    Vec<ActivePoll>,
    ContractError,
>)
    ensures
        res is Ok,
        res->Ok_0@ == still_active(old(deps).active_polls@, env.block.time),
        final(deps).active_polls@ == still_active(old(deps).active_polls@, env.block.time),
        same_but_registry(*final(deps), *old(deps)),
{
    let active_polls = get_active_polls(deps, env.block.time)?;
    let kept = clone_polls(&active_polls);
    deps.active_polls = kept;
    Ok(active_polls)
}

/// Why a poll cannot be created now, if it cannot.
pub open spec fn new_poll_refusal(before: FactoryStorage, env: Env, poll_config: PollConfig)
    -> Option<ContractError> {
    if env.block.time + poll_config.duration > u64::MAX || before.config.id_counter + 1
        > u128::MAX {
        Some(ContractError::Overflow)
    } else {
        None
    }
}

/// `msg` creates a poll from the factory's poll code, labelled with the
/// number of polls created before it, whose init hook presents the
/// challenge spelled `challenge` to this factory.
pub open spec fn is_poll_creation(
    msg: CosmosMsg,
    before: FactoryStorage,
    env: Env,
    poll_metadata: PollMetadata,
    poll_config: PollConfig,
    poll_choices: Vec<String>,
    challenge: Seq<char>,
) -> bool {
    &&& msg matches CosmosMsg::Wasm(
        WasmMsg::Instantiate { code_id, callback_code_hash, msg: init_msg, label },
    )
    &&& code_id == before.config.poll_contract.code_id
    &&& callback_code_hash == before.config.poll_contract.code_hash
    &&& label@ == "secret-poll-"@ + decimal_text(before.config.id_counter as nat)
    &&& init_msg.metadata == poll_metadata
    &&& init_msg.config == poll_config
    &&& init_msg.choices == poll_choices
    &&& init_msg.staking_pool == before.config.staking_pool
    &&& init_msg.init_hook matches Some(hook)
    &&& hook.contract_addr == env.contract.address
    &&& hook.code_hash == env.contract_code_hash
    &&& hook.msg matches MsgBody::PollFactory(
        PollFactoryHandleMsg::RegisterForUpdates { challenge: presented, end_time },
    )
    &&& presented@ == challenge
    &&& end_time == env.block.time + poll_config.duration
}

/// What creating a poll with the challenge spelled `challenge` does: the
/// digest `digest` is kept in place of any earlier one, the poll counter
/// grows by one, and the instruction that creates the poll is handed back.
pub open spec fn creation_post(
    before: FactoryStorage,
    env: Env,
    poll_metadata: PollMetadata,
    poll_config: PollConfig,
    poll_choices: Vec<String>,
    challenge: Seq<char>,
    digest: Seq<u8>,
    after: FactoryStorage,
    res: Result<HandleResponse<ResponseStatus>, ContractError>,
) -> bool {
    match new_poll_refusal(before, env, poll_config) {
        Some(e) => res is Err && res->Err_0 == e && after == before,
        None => {
            &&& res is Ok
            &&& after.admin == before.admin
            &&& after.default_poll_config == before.default_poll_config
            &&& after.active_polls == before.active_polls
            &&& after.config == (Config {
                id_counter: (before.config.id_counter + 1) as u128,
                ..before.config
            })
            &&& after.current_challenge matches Some(kept) && kept@ == digest
            &&& res->Ok_0.messages@.len() == 1
            &&& is_poll_creation(
                res->Ok_0.messages@[0],
                before,
                env,
                poll_metadata,
                poll_config,
                poll_choices,
                challenge,
            )
            &&& res->Ok_0.log@.len() == 0
            &&& res->Ok_0.data is None
        },
    }
}

/// Creates a poll that is to present `challenge`, and keeps `digest` as the
/// pending challenge.
pub fn create_poll(
    deps: &mut FactoryStorage,
    env: &Env,
    poll_metadata: PollMetadata,
    poll_config: PollConfig,
    poll_choices: Vec<String>,
    challenge: Challenge,
    digest: Vec<u8>,
) -> (res: Result<HandleResponse<ResponseStatus>, ContractError>)
    ensures
        creation_post(
            *old(deps),
            *env,
            poll_metadata,
            poll_config,
            poll_choices,
            challenge.0@,
            digest@,
            *final(deps),
            res,
        ),
{
    let end_time = match env.block.time.checked_add(poll_config.duration) {
        Some(t) => t,
        None => {
            return Err(ContractError::Overflow);
        },
    };
    let next_id = match deps.config.id_counter.checked_add(1) {
        Some(n) => n,
        None => {
            return Err(ContractError::Overflow);
        },
    };
    let init_msg = PollInitMsg {
        metadata: poll_metadata,
        config: poll_config,
        choices: poll_choices,
        staking_pool: deps.config.staking_pool.clone(),
        init_hook: Some(
            InitHook {
                contract_addr: env.contract.address.clone(),
                code_hash: env.contract_code_hash.clone(),
                msg: MsgBody::PollFactory(
                    PollFactoryHandleMsg::RegisterForUpdates { challenge: challenge.0, end_time },
                ),
            },
        ),
    };
    let mut label = String::from_str("secret-poll-");
    push_decimal(&mut label, deps.config.id_counter);
    let mut messages: Vec<CosmosMsg> = Vec::new();
    messages.push(
        CosmosMsg::Wasm(
            WasmMsg::Instantiate {
                code_id: deps.config.poll_contract.code_id,
                callback_code_hash: deps.config.poll_contract.code_hash.clone(),
                msg: init_msg,
                label,
            },
        ),
    );
    deps.current_challenge = Some(digest);
    deps.config.id_counter = next_id;
    Ok(HandleResponse { messages, log: Vec::new(), data: None })
}

/// What creating a poll does: the challenge of the invocation is drawn from
/// the factory's seed and the poll is created with it.
pub open spec fn new_poll_post(
    before: FactoryStorage,
    env: Env,
    poll_metadata: PollMetadata,
    poll_config: PollConfig,
    poll_choices: Vec<String>,
    after: FactoryStorage,
    res: Result<HandleResponse<ResponseStatus>, ContractError>,
) -> bool {
    let challenge = challenge_text(env, before.config.prng_seed@);
    creation_post(
        before,
        env,
        poll_metadata,
        poll_config,
        poll_choices,
        challenge,
        challenge_digest(challenge),
        after,
        res,
    )
}

/// Creates a poll. Until the new poll has registered, it is the one poll
/// whose registration the factory accepts.
pub fn new_poll(
    deps: &mut FactoryStorage,
    env: &Env,
    poll_metadata: PollMetadata,
    poll_config: PollConfig,
    poll_choices: Vec<String>,
) -> (res: Result<HandleResponse<ResponseStatus>, ContractError>)
    ensures
        new_poll_post(
            *old(deps),
            *env,
            poll_metadata,
            poll_config,
            poll_choices,
            *final(deps),
            res,
        ),
{
    let key = Challenge::new(env, deps.config.prng_seed.as_slice());
    let hashed = key.to_hashed();
    create_poll(deps, env, poll_metadata, poll_config, poll_choices, key, hashed)
}

/// Whether `response` is the pre-image of the pending challenge.
pub open spec fn challenge_met(before: FactoryStorage, response: Challenge) -> bool {
    before.current_challenge matches Some(kept) && challenge_digest(response.0@) == kept@
}

/// What a registration does once the challenge was checked. One that did
/// not meet it is refused and nothing changes, the registry least of all.
/// One that met it spends the challenge, and the sender joins the registry
/// with its end time.
pub open spec fn registration_post(
    before: FactoryStorage,
    env: Env,
    met: bool,
    end_time: u64,
    after: FactoryStorage,
    res: Result<HandleResponse<ResponseStatus>, ContractError>,
) -> bool {
    if !met {
        res is Err && res->Err_0 == ContractError::ChallengeMismatch && after == before
    } else {
        &&& res is Ok
        &&& after.admin == before.admin
        &&& after.default_poll_config == before.default_poll_config
        &&& after.config == before.config
        &&& after.current_challenge is None
        &&& after.active_polls@ == before.active_polls@.push(
            ActivePoll { address: env.message.sender, end_time },
        )
        &&& res->Ok_0.messages@.len() == 0
        &&& res->Ok_0.log@.len() == 1
        &&& is_log(res->Ok_0.log@[0], "new_poll"@, env.message.sender@)
        &&& res->Ok_0.data == Some(ResponseStatus::Success)
    }
}

/// Registers the sender, or refuses it, according to whether it `met` the
/// pending challenge.
pub fn complete_registration(deps: &mut FactoryStorage, env: &Env, met: bool, end_time: u64) -> (res:
    Result<HandleResponse<ResponseStatus>, ContractError>)
    ensures
        registration_post(*old(deps), *env, met, end_time, *final(deps), res),
{
    if !met {
        return Err(ContractError::ChallengeMismatch);
    }
    deps.current_challenge = None;
    deps.active_polls.push(ActivePoll { address: env.message.sender.clone(), end_time });
    let mut logs: Vec<LogAttribute> = Vec::new();
    logs.push(log("new_poll", &env.message.sender));
    Ok(HandleResponse { messages: Vec::new(), log: logs, data: Some(ResponseStatus::Success) })
}

/// What a registration does: the sender is registered if, and only if, the
/// text it presents is the pre-image of the pending challenge.
pub open spec fn register_for_updates_post(
    before: FactoryStorage,
    env: Env,
    response: Challenge,
    end_time: u64,
    after: FactoryStorage,
    res: Result<HandleResponse<ResponseStatus>, ContractError>,
) -> bool {
    registration_post(before, env, challenge_met(before, response), end_time, after, res)
}

/// A poll registers for changes of voting power by presenting the challenge
/// it was created with.
pub fn register_for_updates(
    deps: &mut FactoryStorage,
    env: &Env,
    response: Challenge,
    end_time: u64,
) -> (res: Result<HandleResponse<ResponseStatus>, ContractError>)
    ensures
        register_for_updates_post(*old(deps), *env, response, end_time, *final(deps), res),
{
    let met = match &deps.current_challenge {
        Some(kept) => response.check_challenge(kept.as_slice()),
        None => false,
    };
    complete_registration(deps, env, met, end_time)
}

/// The instruction that tells `poll` that `voter` now has `new_power`.
pub open spec fn power_update(
    poll: ActivePoll,
    code_hash: String,
    voter: HumanAddr,
    new_power: u128,
) -> CosmosMsg {
    CosmosMsg::Wasm(
        WasmMsg::Execute {
            contract_addr: poll.address,
            callback_code_hash: code_hash,
            msg: MsgBody::Poll(PollHandleMsg::UpdateVotingPower { voter, new_power }),
        },
    )
}

/// What a change of voting power does: from the staking pool it is passed
/// on to every poll in `active_polls`, in their order; from anyone else it
/// is refused.
pub open spec fn update_voting_power_post(
    deps: FactoryStorage,
    env: Env,
    voter: HumanAddr,
    new_power: u128,
    active_polls: Seq<ActivePoll>,
    res: Result<HandleResponse<ResponseStatus>, ContractError>,
) -> bool {
    if env.message.sender@ != deps.config.staking_pool.address@ {
        res is Err && res->Err_0 == ContractError::Unauthorized
    } else {
        &&& res is Ok
        &&& res->Ok_0.messages@ == Seq::new(
            active_polls.len(),
            |i: int| power_update(active_polls[i], deps.config.poll_contract.code_hash, voter, new_power),
        )
        &&& res->Ok_0.log@.len() == 1
        &&& is_log(res->Ok_0.log@[0], "voting power update"@, voter@)
        &&& res->Ok_0.data is None
    }
}

/// The staking pool reports that `voter` now has `new_power`.
pub fn update_voting_power(
    deps: &FactoryStorage,
    env: &Env,
    voter: HumanAddr,
    new_power: u128,
    active_polls: Vec<ActivePoll>,
) -> (res: Result<HandleResponse<ResponseStatus>, ContractError>)
    ensures
        update_voting_power_post(*deps, *env, voter, new_power, active_polls@, res),
{
    if !env.message.sender.same_as(&deps.config.staking_pool.address) {
        return Err(ContractError::Unauthorized);
    }
    let mut messages: Vec<CosmosMsg> = Vec::new();
    let mut i: usize = 0;
    while i < active_polls.len()
        invariant
            i <= active_polls@.len(),
            messages@ == Seq::new(
                i as nat,
                |j: int|
                    power_update(
                        active_polls@[j],
                        deps.config.poll_contract.code_hash,
                        voter,
                        new_power,
                    ),
            ),
        decreases active_polls@.len() - i,
    {
        messages.push(
            CosmosMsg::Wasm(
                WasmMsg::Execute {
                    contract_addr: active_polls[i].address.clone(),
                    callback_code_hash: deps.config.poll_contract.code_hash.clone(),
                    msg: MsgBody::Poll(
                        PollHandleMsg::UpdateVotingPower { voter: voter.clone(), new_power },
                    ),
                },
            ),
        );
        assert(messages@ =~= Seq::new(
            (i + 1) as nat,
            |j: int|
                power_update(
                    active_polls@[j],
                    deps.config.poll_contract.code_hash,
                    voter,
                    new_power,
                ),
        ));
        i += 1;
    }
    let mut logs: Vec<LogAttribute> = Vec::new();
    logs.push(log("voting power update", &voter));
    Ok(HandleResponse { messages, log: logs, data: None })
}

/// What a request of the admin does: from anyone else it is refused and
/// nothing changes; from the admin it answers `data` and leaves `after` as
/// `changed` says.
pub open spec fn admin_post(
    before: FactoryStorage,
    env: Env,
    after: FactoryStorage,
    res: Result<HandleResponse<ResponseStatus>, ContractError>,
    data: Option<ResponseStatus>,
    changed: bool,
) -> bool {
    if before.admin@ != env.message.sender@ {
        res is Err && res->Err_0 == ContractError::Unauthorized && after == before
    } else {
        &&& res is Ok
        &&& res->Ok_0.messages@.len() == 0
        &&& res->Ok_0.log@.len() == 0
        &&& res->Ok_0.data == data
        &&& changed
    }
}

/// What replacing the poll code does, for the admin: new polls are created
/// from the code `new_id` with the hash `new_code_hash`.
pub open spec fn update_poll_contract_post(
    before: FactoryStorage,
    env: Env,
    new_id: u64,
    new_code_hash: String,
    after: FactoryStorage,
    res: Result<HandleResponse<ResponseStatus>, ContractError>,
) -> bool {
    admin_post(
        before,
        env,
        after,
        res,
        Some(ResponseStatus::Success),
        after == (FactoryStorage {
            config: Config {
                poll_contract: PollContract { code_id: new_id, code_hash: new_code_hash },
                ..before.config
            },
            ..before
        }),
    )
}

/// Replaces the code new polls are created from. For the admin only.
pub fn update_poll_contract(
    deps: &mut FactoryStorage,
    env: &Env,
    new_id: u64,
    new_code_hash: String,
) -> (res: Result<HandleResponse<ResponseStatus>, ContractError>)
    ensures
        update_poll_contract_post(*old(deps), *env, new_id, new_code_hash, *final(deps), res),
{
    enforce_admin(deps, env)?;
    deps.config.poll_contract = PollContract { code_id: new_id, code_hash: new_code_hash };
    Ok(
        HandleResponse {
            messages: Vec::new(),
            log: Vec::new(),
            data: Some(ResponseStatus::Success),
        },
    )
}

/// The default poll configuration with the given parts replaced.
pub open spec fn reconfigured(
    config: PollConfig,
    duration: Option<u64>,
    quorum: Option<u8>,
    min_threshold: Option<u8>,
) -> PollConfig {
    PollConfig {
        duration: match duration {
            Some(d) => d,
            None => config.duration,
        },
        quorum: match quorum {
            Some(q) => q,
            None => config.quorum,
        },
        min_threshold: match min_threshold {
            Some(t) => t,
            None => config.min_threshold,
        },
    }
}

/// What changing the default poll configuration does, for the admin: the
/// parts that are given replace the ones there were.
pub open spec fn update_default_poll_config_post(
    before: FactoryStorage,
    env: Env,
    duration: Option<u64>,
    quorum: Option<u8>,
    min_threshold: Option<u8>,
    after: FactoryStorage,
    res: Result<HandleResponse<ResponseStatus>, ContractError>,
) -> bool {
    admin_post(
        before,
        env,
        after,
        res,
        None,
        after == (FactoryStorage {
            default_poll_config: reconfigured(
                before.default_poll_config,
                duration,
                quorum,
                min_threshold,
            ),
            ..before
        }),
    )
}

/// Changes the configuration of polls created without one. For the admin
/// only.
pub fn update_default_poll_config(
    deps: &mut FactoryStorage,
    env: &Env,
    duration: Option<u64>,
    quorum: Option<u8>,
    min_threshold: Option<u8>,
) -> (res: Result<HandleResponse<ResponseStatus>, ContractError>)
    ensures
        update_default_poll_config_post(
            *old(deps),
            *env,
            duration,
            quorum,
            min_threshold,
            *final(deps),
            res,
        ),
{
    enforce_admin(deps, env)?;
    let mut default_config = deps.default_poll_config;
    if let Some(new_duration) = duration {
        default_config.duration = new_duration;
    }
    if let Some(new_quorum) = quorum {
        default_config.quorum = new_quorum;
    }
    if let Some(new_threshold) = min_threshold {
        default_config.min_threshold = new_threshold;
    }
    deps.default_poll_config = default_config;
    Ok(HandleResponse { messages: Vec::new(), log: Vec::new(), data: None })
}

/// `pruned` is `before` with the polls that ended before `now` dropped from
/// the registry.
pub open spec fn is_pruned(before: FactoryStorage, pruned: FactoryStorage, now: u64) -> bool {
    same_but_registry(pruned, before) && pruned.active_polls@ == still_active(
        before.active_polls@,
        now,
    )
}

/// What a request does to a registry that has been pruned.
pub open spec fn dispatch_post(
    pruned: FactoryStorage,
    env: Env,
    msg: PollFactoryHandleMsg,
    after: FactoryStorage,
    res: Result<HandleResponse<ResponseStatus>, ContractError>,
) -> bool {
    match msg {
        PollFactoryHandleMsg::NewPoll { poll_metadata, poll_config, poll_choices } => new_poll_post(
            pruned,
            env,
            poll_metadata,
            match poll_config {
                Some(config) => config,
                None => pruned.default_poll_config,
            },
            poll_choices,
            after,
            res,
        ),
        PollFactoryHandleMsg::UpdateVotingPower { voter, new_power } => after == pruned
            && update_voting_power_post(pruned, env, voter, new_power, pruned.active_polls@, res),
        PollFactoryHandleMsg::UpdatePollContract { new_id, new_code_hash } => update_poll_contract_post(
            pruned,
            env,
            new_id,
            new_code_hash,
            after,
            res,
        ),
        PollFactoryHandleMsg::UpdateDefaultPollConfig {
            duration,
            quorum,
            min_threshold,
        } => update_default_poll_config_post(
            pruned,
            env,
            duration,
            quorum,
            min_threshold,
            after,
            res,
        ),
        PollFactoryHandleMsg::RegisterForUpdates { challenge, end_time } => register_for_updates_post(
            pruned,
            env,
            Challenge(challenge),
            end_time,
            after,
            res,
        ),
    }
}

/// What a request does: the registry is pruned, then the request is served.
/// A request that is refused leaves everything as it was, the registry
/// unpruned.
pub open spec fn handle_post(
    before: FactoryStorage,
    env: Env,
    msg: PollFactoryHandleMsg,
    after: FactoryStorage,
    res: Result<HandleResponse<ResponseStatus>, ContractError>,
) -> bool {
    exists|pruned: FactoryStorage, served: FactoryStorage|
        {
            &&& is_pruned(before, pruned, env.block.time)
            &&& #[trigger] dispatch_post(pruned, env, msg, served, res)
            &&& after == if res is Err {
                before
            } else {
                served
            }
        }
}

/// Serves one request.
pub fn handle(deps: &mut FactoryStorage, env: &Env, msg: PollFactoryHandleMsg) -> (res: Result<
    HandleResponse<ResponseStatus>,
    ContractError,
>)
    ensures
        handle_post(*old(deps), *env, msg, *final(deps), res),
{
    // The registry as it is, kept aside for a request that is refused.
    let mut unpruned = clone_polls(&deps.active_polls);
    core::mem::swap(&mut deps.active_polls, &mut unpruned);
    let active_polls = match remove_inactive_polls(deps, env) {
        Ok(polls) => polls,
        Err(e) => {
            deps.active_polls = unpruned;
            return Err(e);
        },
    };
    let ghost pruned = *deps;
    let res = match msg {
        PollFactoryHandleMsg::NewPoll { poll_metadata, poll_config, poll_choices } => {
            let config = match poll_config {
                Some(config) => config,
                None => deps.default_poll_config,
            };
            new_poll(deps, env, poll_metadata, config, poll_choices)
        },
        PollFactoryHandleMsg::UpdateVotingPower { voter, new_power } => update_voting_power(
            deps,
            env,
            voter,
            new_power,
            active_polls,
        ),
        PollFactoryHandleMsg::UpdatePollContract { new_id, new_code_hash } => update_poll_contract(
            deps,
            env,
            new_id,
            new_code_hash,
        ),
        PollFactoryHandleMsg::UpdateDefaultPollConfig {
            duration,
            quorum,
            min_threshold,
        } => update_default_poll_config(deps, env, duration, quorum, min_threshold),
        PollFactoryHandleMsg::RegisterForUpdates { challenge, end_time } => register_for_updates(
            deps,
            env,
            Challenge(challenge),
            end_time,
        ),
    };
    let ghost served = *deps;
    if res.is_err() {
        deps.active_polls = unpruned;
    }
    assert(dispatch_post(pruned, *env, msg, served, res));
    res
}

/// What a query answers.
pub open spec fn query_post(
    deps: FactoryStorage,
    msg: QueryMsg,
    res: Result<QueryAnswer, ContractError>,
) -> bool {
    match msg {
        QueryMsg::ActivePolls { current_time } => res matches Ok(
            QueryAnswer::ActivePolls { active_polls },
        ) && active_polls@ == still_active(deps.active_polls@, current_time),
        QueryMsg::DefaultPollConfig {  } => res == Ok::<QueryAnswer, ContractError>(
            QueryAnswer::DefaultPollConfig { poll_config: deps.default_poll_config },
        ),
        QueryMsg::StakingPool {  } => res == Ok::<QueryAnswer, ContractError>(
            QueryAnswer::StakingPool { contract: deps.config.staking_pool },
        ),
        QueryMsg::PollCode {  } => res == Ok::<QueryAnswer, ContractError>(
            QueryAnswer::PollCode { contract: deps.config.poll_contract },
        ),
        QueryMsg::Admin {  } => res == Ok::<QueryAnswer, ContractError>(
            QueryAnswer::Admin { address: deps.admin },
        ),
    }
}

/// Answers a query.
pub fn query(deps: &FactoryStorage, msg: QueryMsg) -> (res: Result<QueryAnswer, ContractError>)
    ensures
        query_post(*deps, msg, res),
{
    match msg {
        QueryMsg::ActivePolls { current_time } => {
            let active_polls = get_active_polls(deps, current_time)?;
            Ok(QueryAnswer::ActivePolls { active_polls })
        },
        QueryMsg::DefaultPollConfig {  } => Ok(
            QueryAnswer::DefaultPollConfig { poll_config: deps.default_poll_config },
        ),
        QueryMsg::StakingPool {  } => Ok(
            QueryAnswer::StakingPool { contract: deps.config.staking_pool.clone() },
        ),
        QueryMsg::PollCode {  } => Ok(
            QueryAnswer::PollCode {
                contract: PollContract {
                    code_id: deps.config.poll_contract.code_id,
                    code_hash: deps.config.poll_contract.code_hash.clone(),
                },
            },
        ),
        QueryMsg::Admin {  } => Ok(QueryAnswer::Admin { address: deps.admin.clone() }),
    }
}

/// A registration that does not present the pre-image of the pending
/// challenge is refused as a mismatch and changes nothing: the registry
/// holds the polls it held, the polls that have ended included.
pub proof fn lemma_mismatch_leaves_registry(
    before: FactoryStorage,
    env: Env,
    challenge: String,
    end_time: u64,
    after: FactoryStorage,
    res: Result<HandleResponse<ResponseStatus>, ContractError>,
)
    requires
        !challenge_met(before, Challenge(challenge)),
        handle_post(
            before,
            env,
            PollFactoryHandleMsg::RegisterForUpdates { challenge, end_time },
            after,
            res,
        ),
    ensures
        res is Err,
        res->Err_0 == ContractError::ChallengeMismatch,
        after == before,
{
}

/// A registration that presents the pre-image of the pending challenge is
/// accepted, and the challenge cannot be used a second time.
pub proof fn lemma_challenge_is_spent(
    before: FactoryStorage,
    env: Env,
    response: Challenge,
    end_time: u64,
    registered: FactoryStorage,
    first: Result<HandleResponse<ResponseStatus>, ContractError>,
    again: Env,
    after: FactoryStorage,
    second: Result<HandleResponse<ResponseStatus>, ContractError>,
)
    requires
        challenge_met(before, response),
        register_for_updates_post(before, env, response, end_time, registered, first),
        register_for_updates_post(registered, again, response, end_time, after, second),
    ensures
        first is Ok,
        second is Err,
        second->Err_0 == ContractError::ChallengeMismatch,
        after == registered,
{
}

/// A request that is served leaves no poll in the registry that ended
/// before it, and loses none that has not: the registry holds the polls
/// that were still running, in their order, and after them the poll that
/// registered with the request, if one did.
pub proof fn lemma_handle_prunes_registry(
    before: FactoryStorage,
    env: Env,
    msg: PollFactoryHandleMsg,
    after: FactoryStorage,
    res: Result<HandleResponse<ResponseStatus>, ContractError>,
)
    requires
        handle_post(before, env, msg, after, res),
        res is Ok,
    ensures
        after.active_polls@ == match msg {
            PollFactoryHandleMsg::RegisterForUpdates { end_time, .. } => still_active(
                before.active_polls@,
                env.block.time,
            ).push(ActivePoll { address: env.message.sender, end_time }),
            _ => still_active(before.active_polls@, env.block.time),
        },
        forall|i: int|
            0 <= i < still_active(before.active_polls@, env.block.time).len() ==> (
            #[trigger] still_active(before.active_polls@, env.block.time)[i]).end_time
                >= env.block.time,
{
    let running = |p: ActivePoll| p.end_time >= env.block.time;
    assert forall|i: int|
        0 <= i < still_active(before.active_polls@, env.block.time).len() implies (
    #[trigger] still_active(before.active_polls@, env.block.time)[i]).end_time
        >= env.block.time by {
        before.active_polls@.lemma_filter_pred(running, i);
    }
}

} // verus!
