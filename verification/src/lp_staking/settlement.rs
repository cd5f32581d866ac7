//! Deposits and withdrawals.
//!
//! Both take two invocations. The first only asks the master to allocate
//! and carries the intent along as a continuation; the master's callback
//! allocates the reward and then carries the continuation out against the
//! updated accumulator: the position is settled, resized and stored, and
//! its new weight is sent to every subscriber.
use vstd::prelude::*;
use crate::chain::{CosmosMsg, Env, HandleResponse, HumanAddr, MsgBody, WasmMsg};
use crate::errors::ContractError;
use crate::keyed::with_value;
use crate::lp_staking::answers::{is_plain_response, StakingAnswer};
use crate::lp_staking::constants::RESPONSE_BLOCK_SIZE;
use crate::lp_staking::state::{Config, position_of, StakingStorage};
use crate::lp_staking_msg::{
    LPStakingHandleAnswer, LPStakingHookMsg, LPStakingReceiveAnswer, LPStakingReceiveMsg,
    LPStakingResponseStatus,
};
use crate::master_msg::MasterHandleMsg;
use crate::rewards::{
    allocate_spec, deposit_spec, emergency_exit, emergency_spec, redeem_spec, settle_deposit,
    settle_redeem, Settlement,
};
use crate::secret_vote_types::PollFactoryHandleMsg;
use crate::snip20::{is_encoded_call, snip20_transfer_body, transfer_instruction};
use crate::types::{RewardPool, SecretContract};

verus! {

/// The ways a position is resized.
#[derive(Clone, Copy, Debug, PartialEq, Eq, Structural)]
pub enum Resize {
    Deposit,
    Redeem,
    Emergency,
}

/// The notice that tells the subscriber `sub` that `user` now weighs `new_vp`.
pub open spec fn subscriber_msg(sub: SecretContract, user: HumanAddr, new_vp: u128) -> CosmosMsg {
    CosmosMsg::Wasm(
        WasmMsg::Execute {
            contract_addr: sub.address,
            callback_code_hash: sub.contract_hash,
            msg: MsgBody::PollFactory(
                PollFactoryHandleMsg::UpdateVotingPower { voter: user, new_power: new_vp },
            ),
        },
    )
}

/// One notice for each subscriber, in the order of the list.
pub open spec fn subscriber_msgs(subs: Seq<SecretContract>, user: HumanAddr, new_vp: u128) -> Seq<
    CosmosMsg,
> {
    Seq::new(subs.len(), |i: int| subscriber_msg(subs[i], user, new_vp))
}

/// The request that asks the master to allocate and to call back with `hook`.
pub open spec fn allocation_request(env: Env, config: Config, hook: Option<LPStakingHookMsg>)
    -> CosmosMsg {
    CosmosMsg::Wasm(
        WasmMsg::Execute {
            contract_addr: config.master.address,
            callback_code_hash: config.master.contract_hash,
            msg: MsgBody::Master(
                MasterHandleMsg::UpdateAllocation {
                    spy_addr: env.contract.address,
                    spy_hash: env.contract_code_hash,
                    hook,
                },
            ),
        },
    )
}

/// The answer to a request that only reports success.
pub open spec fn success_of(kind: Resize) -> StakingAnswer {
    match kind {
        Resize::Deposit => StakingAnswer::Receive(
            LPStakingReceiveAnswer::Deposit { status: LPStakingResponseStatus::Success },
        ),
        Resize::Redeem => StakingAnswer::Handle(
            LPStakingHandleAnswer::Redeem { status: LPStakingResponseStatus::Success },
        ),
        Resize::Emergency => StakingAnswer::Handle(
            LPStakingHandleAnswer::EmergencyRedeem { status: LPStakingResponseStatus::Success },
        ),
    }
}

/// Whether the pending reward is transferred: whenever there is one.
pub open spec fn pays_reward(s: Settlement) -> bool {
    s.reward > 0
}

/// Whether the stake taken out is transferred back: always on a withdrawal,
/// on the emergency exit when there is any.
pub open spec fn returns_stake(kind: Resize, s: Settlement) -> bool {
    match kind {
        Resize::Deposit => false,
        Resize::Redeem => true,
        Resize::Emergency => s.amount > 0,
    }
}

/// Whether the participant's new weight is sent to the subscribers.
pub open spec fn notifies(kind: Resize) -> bool {
    kind != Resize::Emergency
}

/// Whether every transfer that settling calls for can be encoded.
pub open spec fn transfers_encode(kind: Resize, who: HumanAddr, s: Settlement) -> bool {
    &&& pays_reward(s) ==> snip20_transfer_body(who@, s.reward, RESPONSE_BLOCK_SIZE) is Some
    &&& returns_stake(kind, s) ==> snip20_transfer_body(who@, s.amount, RESPONSE_BLOCK_SIZE)
        is Some
}

/// The instructions of a settlement: the reward, where one is due, the stake
/// taken out, where it is returned, then the notices to the subscribers.
pub open spec fn settlement_messages(
    msgs: Seq<CosmosMsg>,
    kind: Resize,
    config: Config,
    subs: Seq<SecretContract>,
    who: HumanAddr,
    s: Settlement,
) -> bool {
    let rewards: int = if pays_reward(s) { 1 } else { 0 };
    let stakes: int = if returns_stake(kind, s) { 1 } else { 0 };
    let notices = notices(kind, subs, who, s);
    &&& msgs.len() == rewards + stakes + notices.len()
    &&& pays_reward(s) ==> is_encoded_call(
        msgs[0],
        config.reward_token,
        snip20_transfer_body(who@, s.reward, RESPONSE_BLOCK_SIZE)->Some_0,
    )
    &&& returns_stake(kind, s) ==> is_encoded_call(
        msgs[rewards],
        config.inc_token,
        snip20_transfer_body(who@, s.amount, RESPONSE_BLOCK_SIZE)->Some_0,
    )
    &&& msgs.subrange(rewards + stakes, msgs.len() as int) == notices
}

/// What settling the position of `who` does, given the `outcome` of the
/// arithmetic: an error leaves everything as it was; otherwise the position
/// and the pool are stored and the instructions are handed back.
pub open spec fn settle_post(
    before: StakingStorage,
    after: StakingStorage,
    kind: Resize,
    who: HumanAddr,
    outcome: Result<Settlement, ContractError>,
    res: Result<HandleResponse<StakingAnswer>, ContractError>,
) -> bool {
    match outcome {
        Err(e) => res is Err && res->Err_0 == e && after == before,
        Ok(s) => if !transfers_encode(kind, who, s) {
            res is Err && res->Err_0 == ContractError::Encoding && after == before
        } else {
            &&& res is Ok
            &&& after.same_setup(&before)
            &&& after.reward_pool == s.pool
            &&& after.users.entries@ == with_value(before.users.entries@, who, s.user)
            &&& res->Ok_0.log@.len() == 0
            &&& res->Ok_0.data == Some(success_of(kind))
            &&& settlement_messages(
                res->Ok_0.messages@,
                kind,
                before.config,
                before.subscribers@,
                who,
                s,
            )
        },
    }
}

/// Tells the subscriber `sub` that `user` now weighs `new_vp`.
pub fn create_subscriber_msg(sub: SecretContract, user: &HumanAddr, new_vp: u128) -> (msg:
    CosmosMsg)
    ensures
        msg == subscriber_msg(sub, *user, new_vp),
{
    CosmosMsg::Wasm(
        WasmMsg::Execute {
            contract_addr: sub.address,
            callback_code_hash: sub.contract_hash,
            msg: MsgBody::PollFactory(
                PollFactoryHandleMsg::UpdateVotingPower { voter: user.clone(), new_power: new_vp },
            ),
        },
    )
}

/// Appends to `messages` one notice of the new weight of `user` for every
/// subscriber, in the order of the list.
pub fn fan_out(
    messages: &mut Vec<CosmosMsg>,
    subs: &Vec<SecretContract>,
    user: &HumanAddr,
    new_vp: u128,
)
    ensures
        final(messages)@ == old(messages)@ + subscriber_msgs(subs@, *user, new_vp),
{
    let mut i: usize = 0;
    while i < subs.len()
        invariant
            i <= subs@.len(),
            messages@.len() == old(messages)@.len() + i,
            forall|j: int| 0 <= j < old(messages)@.len() ==> messages@[j] == old(messages)@[j],
            forall|j: int|
                0 <= j < i ==> messages@[old(messages)@.len() + j] == subscriber_msg(
                    subs@[j],
                    *user,
                    new_vp,
                ),
        decreases subs@.len() - i,
    {
        messages.push(create_subscriber_msg(subs[i].clone(), user, new_vp));
        i += 1;
    }
    assert(messages@ =~= old(messages)@ + subscriber_msgs(subs@, *user, new_vp));
}

/// The notices a settlement sends: the new weight of `who` to every
/// subscriber, except on the emergency exit.
pub open spec fn notices(
    kind: Resize,
    subs: Seq<SecretContract>,
    who: HumanAddr,
    s: Settlement,
) -> Seq<CosmosMsg> {
    if notifies(kind) {
        subscriber_msgs(subs, who, s.user.locked)
    } else {
        Seq::empty()
    }
}

/// Stores the settlement `s` of the position of `who` and hands back its
/// instructions: the `transfers` that were built for it, then the notices to
/// the subscribers.
pub fn commit_settlement(
    deps: &mut StakingStorage,
    kind: Resize,
    who: HumanAddr,
    s: Settlement,
    transfers: Vec<CosmosMsg>,
) -> (resp: HandleResponse<StakingAnswer>)
    ensures
        final(deps).same_setup(&*old(deps)),
        final(deps).reward_pool == s.pool,
        final(deps).users.entries@ == with_value(old(deps).users.entries@, who, s.user),
        resp.messages@ == transfers@ + notices(kind, old(deps).subscribers@, who, s),
        resp.log@.len() == 0,
        resp.data == Some(success_of(kind)),
{
    let mut messages = transfers;
    let data = match kind {
        Resize::Deposit => StakingAnswer::Receive(
            LPStakingReceiveAnswer::Deposit { status: LPStakingResponseStatus::Success },
        ),
        Resize::Redeem => StakingAnswer::Handle(
            LPStakingHandleAnswer::Redeem { status: LPStakingResponseStatus::Success },
        ),
        Resize::Emergency => StakingAnswer::Handle(
            LPStakingHandleAnswer::EmergencyRedeem { status: LPStakingResponseStatus::Success },
        ),
    };
    match kind {
        Resize::Emergency => {},
        _ => {
            fan_out(&mut messages, &deps.subscribers, &who, s.user.locked);
        },
    }
    assert(messages@ =~= transfers@ + notices(kind, deps.subscribers@, who, s));
    deps.users.set(who, s.user);
    deps.reward_pool = s.pool;
    HandleResponse { messages, log: Vec::new(), data: Some(data) }
}

/// Settles the position of `who` as `outcome` says: builds the transfers the
/// settlement calls for, stores it and hands back the instructions.
fn settle(
    deps: &mut StakingStorage,
    kind: Resize,
    who: HumanAddr,
    outcome: Result<Settlement, ContractError>,
) -> (res: Result<HandleResponse<StakingAnswer>, ContractError>)
    ensures
        settle_post(*old(deps), *final(deps), kind, who, outcome, res),
{
    let s = match outcome {
        Ok(s) => s,
        Err(e) => {
            return Err(e);
        },
    };
    let mut transfers: Vec<CosmosMsg> = Vec::new();
    if s.reward > 0 {
        match transfer_instruction(&who, s.reward, RESPONSE_BLOCK_SIZE, &deps.config.reward_token) {
            Ok(msg) => transfers.push(msg),
            Err(e) => {
                return Err(e);
            },
        }
    }
    let stake_back = match kind {
        Resize::Deposit => false,
        Resize::Redeem => true,
        Resize::Emergency => s.amount > 0,
    };
    if stake_back {
        match transfer_instruction(&who, s.amount, RESPONSE_BLOCK_SIZE, &deps.config.inc_token) {
            Ok(msg) => transfers.push(msg),
            Err(e) => {
                return Err(e);
            },
        }
    }
    let ghost built = transfers@;
    let resp = commit_settlement(deps, kind, who, s, transfers);
    assert(resp.messages@.subrange(built.len() as int, resp.messages@.len() as int) =~= notices(
        kind,
        old(deps).subscribers@,
        who,
        s,
    ));
    Ok(resp)
}

/// Accounts for `newly_allocated` reward units and stores the pool.
pub fn update_rewards(deps: &mut StakingStorage, newly_allocated: u128) -> (res: Result<
    RewardPool,
    ContractError,
>)
    ensures
        res == allocate_spec(old(deps).reward_pool, newly_allocated),
        match res {
            Ok(pool) => *final(deps) == (StakingStorage { reward_pool: pool, ..*old(deps) }),
            Err(_) => *final(deps) == *old(deps),
        },
{
    let pool = deps.reward_pool.allocate(newly_allocated)?;
    deps.reward_pool = pool;
    Ok(pool)
}

/// The continuation of a deposit: settles the position of `from` against
/// `reward_pool` and adds `amount` to it.
pub fn deposit_hook(
    deps: &mut StakingStorage,
    reward_pool: RewardPool,
    from: HumanAddr,
    amount: u128,
) -> (res: Result<HandleResponse<StakingAnswer>, ContractError>)
    ensures
        settle_post(
            *old(deps),
            *final(deps),
            Resize::Deposit,
            from,
            deposit_spec(reward_pool, position_of(old(deps).users.entries@, from@), amount),
            res,
        ),
{
    let user = deps.load_user(&from);
    settle(deps, Resize::Deposit, from, settle_deposit(reward_pool, user, amount))
}

/// The continuation of a withdrawal: settles the position of `to` against
/// `reward_pool` and takes `amount` out of it, or all of it.
pub fn redeem_hook(
    deps: &mut StakingStorage,
    reward_pool: RewardPool,
    to: HumanAddr,
    amount: Option<u128>,
) -> (res: Result<HandleResponse<StakingAnswer>, ContractError>)
    ensures
        settle_post(
            *old(deps),
            *final(deps),
            Resize::Redeem,
            to,
            redeem_spec(reward_pool, position_of(old(deps).users.entries@, to@), amount),
            res,
        ),
{
    let user = deps.load_user(&to);
    settle(deps, Resize::Redeem, to, settle_redeem(reward_pool, user, amount))
}

/// What the emergency exit does: the sender's position is zeroed without
/// being settled, its stake leaves the pool and is transferred back.
pub open spec fn emergency_redeem_post(
    before: StakingStorage,
    env: Env,
    after: StakingStorage,
    res: Result<HandleResponse<StakingAnswer>, ContractError>,
) -> bool {
    settle_post(
        before,
        after,
        Resize::Emergency,
        env.message.sender,
        emergency_spec(before.reward_pool, position_of(before.users.entries@, env.message.sender@)),
        res,
    )
}

/// The emergency exit: returns the sender's stake without settling it. Every
/// reward the position has pending is forfeited, for good.
pub fn emergency_redeem(deps: &mut StakingStorage, env: &Env) -> (res: Result<
    HandleResponse<StakingAnswer>,
    ContractError,
>)
    ensures
        emergency_redeem_post(*old(deps), *env, *final(deps), res),
{
    let user = deps.load_user(&env.message.sender);
    let outcome = emergency_exit(deps.reward_pool, user);
    settle(deps, Resize::Emergency, env.message.sender.clone(), outcome)
}

/// What the master's callback does: it is taken only from the master or the
/// admin; it allocates `amount` first and then carries out the continuation
/// against the updated pool. Where either step fails nothing changes.
pub open spec fn notify_allocation_post(
    before: StakingStorage,
    env: Env,
    amount: u128,
    hook: Option<LPStakingHookMsg>,
    after: StakingStorage,
    res: Result<HandleResponse<StakingAnswer>, ContractError>,
) -> bool {
    if env.message.sender@ != before.config.master.address@ && env.message.sender@
        != before.config.admin@ {
        res is Err && res->Err_0 == ContractError::Unauthorized && after == before
    } else {
        match allocate_spec(before.reward_pool, amount) {
            Err(e) => res is Err && res->Err_0 == e && after == before,
            Ok(pool) => match hook {
                None => res is Ok && is_plain_response(res->Ok_0, None) && after == (
                StakingStorage { reward_pool: pool, ..before }),
                Some(LPStakingHookMsg::Deposit { from, amount: deposited }) => settle_post(
                    before,
                    after,
                    Resize::Deposit,
                    from,
                    deposit_spec(pool, position_of(before.users.entries@, from@), deposited),
                    res,
                ),
                Some(LPStakingHookMsg::Redeem { to, amount: redeemed }) => settle_post(
                    before,
                    after,
                    Resize::Redeem,
                    to,
                    redeem_spec(pool, position_of(before.users.entries@, to@), redeemed),
                    res,
                ),
            },
        }
    }
}

/// The master's callback: `amount` was allocated to the pool; `hook`, if
/// any, is the continuation to carry out now.
pub fn notify_allocation(
    deps: &mut StakingStorage,
    env: &Env,
    amount: u128,
    hook: Option<LPStakingHookMsg>,
) -> (res: Result<HandleResponse<StakingAnswer>, ContractError>)
    ensures
        notify_allocation_post(*old(deps), *env, amount, hook, *final(deps), res),
{
    if !env.message.sender.same_as(&deps.config.master.address) && !env.message.sender.same_as(
        &deps.config.admin,
    ) {
        return Err(ContractError::Unauthorized);
    }
    match hook {
        None => {
            update_rewards(deps, amount)?;
            Ok(HandleResponse { messages: Vec::new(), log: Vec::new(), data: None })
        },
        Some(hook_msg) => {
            let reward_pool = deps.reward_pool.allocate(amount)?;
            match hook_msg {
                LPStakingHookMsg::Deposit { from, amount } => deposit_hook(
                    deps,
                    reward_pool,
                    from,
                    amount,
                ),
                LPStakingHookMsg::Redeem { to, amount } => redeem_hook(
                    deps,
                    reward_pool,
                    to,
                    amount,
                ),
            }
        },
    }
}

/// A response that holds the request to the master with the continuation
/// `hook`, and nothing else.
pub open spec fn is_allocation_request(
    resp: HandleResponse<StakingAnswer>,
    env: Env,
    config: Config,
    hook: Option<LPStakingHookMsg>,
) -> bool {
    &&& resp.messages@ == seq![allocation_request(env, config, hook)]
    &&& resp.log@.len() == 0
    &&& resp.data is None
}

/// First phase of a deposit or a withdrawal: asks the master to allocate to
/// this pool and to call back with the continuation `hook`.
pub fn update_allocation(env: &Env, config: &Config, hook: Option<LPStakingHookMsg>) -> (res:
    Result<HandleResponse<StakingAnswer>, ContractError>)
    ensures
        res is Ok,
        is_allocation_request(res->Ok_0, *env, *config, hook),
{
    let mut messages: Vec<CosmosMsg> = Vec::new();
    messages.push(
        CosmosMsg::Wasm(
            WasmMsg::Execute {
                contract_addr: config.master.address.clone(),
                callback_code_hash: config.master.contract_hash.clone(),
                msg: MsgBody::Master(
                    MasterHandleMsg::UpdateAllocation {
                        spy_addr: env.contract.address.clone(),
                        spy_hash: env.contract_code_hash.clone(),
                        hook,
                    },
                ),
            },
        ),
    );
    assert(messages@ =~= seq![allocation_request(*env, *config, hook)]);
    Ok(HandleResponse { messages, log: Vec::new(), data: None })
}

/// What a reported transfer does: one from the incentivized token starts a
/// deposit of `amount` for `from`; one from anywhere else is refused.
pub open spec fn deposit_post(
    deps: StakingStorage,
    env: Env,
    from: HumanAddr,
    amount: u128,
    res: Result<HandleResponse<StakingAnswer>, ContractError>,
) -> bool {
    if env.message.sender@ != deps.config.inc_token.address@ {
        res is Err && res->Err_0 == ContractError::UnsupportedToken
    } else {
        res is Ok && is_allocation_request(
            res->Ok_0,
            env,
            deps.config,
            Some(LPStakingHookMsg::Deposit { from, amount }),
        )
    }
}

/// First phase of a deposit: the incentivized token reports that `from`
/// transferred `amount` to the pool.
pub fn deposit(deps: &StakingStorage, env: &Env, from: HumanAddr, amount: u128) -> (res: Result<
    HandleResponse<StakingAnswer>,
    ContractError,
>)
    ensures
        deposit_post(*deps, *env, from, amount, res),
{
    if !env.message.sender.same_as(&deps.config.inc_token.address) {
        return Err(ContractError::UnsupportedToken);
    }
    update_allocation(env, &deps.config, Some(LPStakingHookMsg::Deposit { from, amount }))
}

/// A transfer to the pool was reported, with the request `msg` attached.
pub fn receive(
    deps: &StakingStorage,
    env: &Env,
    from: HumanAddr,
    amount: u128,
    msg: LPStakingReceiveMsg,
) -> (res: Result<HandleResponse<StakingAnswer>, ContractError>)
    ensures
        deposit_post(*deps, *env, from, amount, res),
{
    match msg {
        LPStakingReceiveMsg::Deposit {  } => deposit(deps, env, from, amount),
    }
}

/// What a withdrawal request does: it asks the master to allocate and to
/// call back with the withdrawal as the continuation.
pub open spec fn redeem_post(
    deps: StakingStorage,
    env: Env,
    amount: Option<u128>,
    res: Result<HandleResponse<StakingAnswer>, ContractError>,
) -> bool {
    res is Ok && is_allocation_request(
        res->Ok_0,
        env,
        deps.config,
        Some(LPStakingHookMsg::Redeem { to: env.message.sender, amount }),
    )
}

/// First phase of a withdrawal of `amount`, or of the whole position, by the
/// sender.
pub fn redeem(deps: &StakingStorage, env: &Env, amount: Option<u128>) -> (res: Result<
    HandleResponse<StakingAnswer>,
    ContractError,
>)
    ensures
        redeem_post(*deps, *env, amount, res),
{
    update_allocation(
        env,
        &deps.config,
        Some(LPStakingHookMsg::Redeem { to: env.message.sender.clone(), amount }),
    )
}

} // verus!
