use scrt_finance::chain::{
    BlockInfo, ContractInfo, CosmosMsg, Env, HandleResponse, HumanAddr, InitResponse,
    MessageInfo, MsgBody, WasmMsg,
};
use scrt_finance::errors::ContractError;
use scrt_finance::keyed::{Entry, KeyedStore};
use scrt_finance::lp_staking::constants::{RESPONSE_BLOCK_SIZE, REWARD_SCALE};
use scrt_finance::lp_staking::admin::{
    add_subscribers, change_admin, remove_subscribers, stop_contract,
};
use scrt_finance::lp_staking::answers::StakingAnswer;
use scrt_finance::lp_staking::contract::{
    answer_checked_query, authenticated_queries, create_viewing_key, handle, init, query,
    set_viewing_key, store_viewing_key,
};
use scrt_finance::lp_staking::settlement::{
    commit_settlement, create_subscriber_msg, deposit, deposit_hook, emergency_redeem,
    notify_allocation, redeem, redeem_hook, update_rewards, Resize,
};
use scrt_finance::rewards::Settlement;
use scrt_finance::lp_staking::state::StakingStorage;
use scrt_finance::lp_staking_msg::{
    LPStakingHandleAnswer, LPStakingHandleMsg, LPStakingHookMsg, LPStakingInitMsg,
    LPStakingQueryAnswer, LPStakingQueryMsg, LPStakingReceiveAnswer, LPStakingReceiveMsg,
    LPStakingResponseStatus::Success,
};
use scrt_finance::master_msg::MasterHandleMsg;
use scrt_finance::secret_vote_types::PollFactoryHandleMsg;
use scrt_finance::types::{RewardPool, SecretContract, TokenInfo, UserInfo};

const MOCK_CONTRACT_ADDR: &str = "cosmos2contract";

fn mock_env(sender: &str) -> Env {
    Env {
        block: BlockInfo { height: 12_345, time: 1_571_797_419, chain_id: "cosmos-testnet-14002".to_string() },
        message: MessageInfo { sender: HumanAddr(sender.to_string()) },
        contract: ContractInfo { address: HumanAddr(MOCK_CONTRACT_ADDR.to_string()) },
        contract_code_hash: "".to_string(),
    }
}

fn contract(address: &str) -> SecretContract {
    SecretContract { address: HumanAddr(address.to_string()), contract_hash: "".to_string() }
}

fn init_helper(
    subscribers: Option<Vec<SecretContract>>,
) -> (Result<InitResponse, ContractError>, StakingStorage) {
    let env = mock_env("admin");
    let init_msg = LPStakingInitMsg {
        reward_token: contract("reward_t"),
        inc_token: contract("inc_t"),
        master: contract("master"),
        viewing_key: "123".to_string(),
        token_info: TokenInfo { name: "".to_string(), symbol: "".to_string() },
        prng_seed: Vec::new(),
        subscribers,
    };
    match init(&env, init_msg) {
        Ok((deps, response)) => (Ok(response), deps),
        Err(e) => panic!("init failed: {:?}", e),
    }
}

fn deposit_helper(deps: &mut StakingStorage, addr: String, amount: u128) -> HandleResponse<StakingAnswer> {
    let reward_pool = deps.reward_pool;
    deposit_hook(deps, reward_pool, HumanAddr(addr), amount).unwrap()
}

fn redeem_helper(deps: &mut StakingStorage, addr: String, amount: u128) -> HandleResponse<StakingAnswer> {
    let reward_pool = deps.reward_pool;
    redeem_hook(deps, reward_pool, HumanAddr(addr), Some(amount)).unwrap()
}

/// The instruction `secret-toolkit` builds, as the library hands it on.
fn as_library_msg(msg: secret_cosmwasm_std::CosmosMsg) -> CosmosMsg {
    match msg {
        secret_cosmwasm_std::CosmosMsg::Wasm(secret_cosmwasm_std::WasmMsg::Execute {
            contract_addr,
            callback_code_hash,
            msg,
            send,
        }) => {
            assert!(send.is_empty());
            CosmosMsg::Wasm(WasmMsg::Execute {
                contract_addr: HumanAddr(contract_addr.0),
                callback_code_hash,
                msg: MsgBody::Encoded(msg.0),
            })
        }
        other => panic!("not a contract call: {:?}", other),
    }
}

fn snip20_transfer(recipient: &str, amount: u128, token: &SecretContract) -> CosmosMsg {
    as_library_msg(
        secret_toolkit::snip20::transfer_msg(
            secret_cosmwasm_std::HumanAddr(recipient.to_string()),
            secret_cosmwasm_std::Uint128(amount),
            None,
            None,
            RESPONSE_BLOCK_SIZE,
            token.contract_hash.clone(),
            secret_cosmwasm_std::HumanAddr(token.address.0.clone()),
        )
        .unwrap(),
    )
}

fn user(name: &str) -> HumanAddr {
    HumanAddr(name.to_string())
}

fn position(deps: &StakingStorage, name: &str) -> UserInfo {
    deps.load_user(&user(name))
}

fn total_locked(deps: &StakingStorage) -> u128 {
    deps.users.entries.iter().map(|e| e.value.locked).sum()
}

#[test]
fn test_subs_deposit() {
    let sub_a = contract("sub_a");
    let sub_b = contract("sub_b");

    let (init_result, mut deps) = init_helper(Some(vec![sub_a.clone(), sub_b.clone()]));
    assert!(init_result.is_ok());

    let result = deposit_helper(&mut deps, "user".into(), 100);
    assert_eq!(
        result,
        HandleResponse {
            messages: vec![
                create_subscriber_msg(sub_a, &HumanAddr("user".to_string()), 100),
                create_subscriber_msg(sub_b, &HumanAddr("user".to_string()), 100)
            ],
            log: vec![],
            data: Some(StakingAnswer::Receive(LPStakingReceiveAnswer::Deposit { status: Success }))
        }
    )
}

#[test]
fn test_nosubs_deposit() {
    let (init_result, mut deps) = init_helper(Some(vec![]));
    assert!(init_result.is_ok());

    let result = deposit_helper(&mut deps, "user".into(), 100);
    assert_eq!(
        result,
        HandleResponse {
            messages: vec![],
            log: vec![],
            data: Some(StakingAnswer::Receive(LPStakingReceiveAnswer::Deposit { status: Success }))
        }
    )
}

#[test]
fn test_create_sub_msg() {
    let sub_a = contract("sub_a");
    let sub_msg = create_subscriber_msg(sub_a.clone(), &HumanAddr("user".to_string()), 100);

    assert_eq!(
        sub_msg,
        CosmosMsg::Wasm(WasmMsg::Execute {
            contract_addr: sub_a.address,
            callback_code_hash: sub_a.contract_hash,
            msg: MsgBody::PollFactory(PollFactoryHandleMsg::UpdateVotingPower {
                voter: HumanAddr("user".to_string()),
                new_power: 100,
            }),
        })
    )
}

#[test]
fn test_subs_redeem() {
    let sub_a = contract("sub_a");
    let sub_b = contract("sub_b");

    let (init_result, mut deps) = init_helper(Some(vec![sub_a.clone(), sub_b.clone()]));
    assert!(init_result.is_ok());

    let config = deps.config.clone();
    deposit_helper(&mut deps, "user".into(), 100);

    let result = redeem_helper(&mut deps, "user".into(), 10);
    assert_eq!(
        result,
        HandleResponse {
            messages: vec![
                snip20_transfer("user", 10, &config.inc_token),
                create_subscriber_msg(sub_a, &HumanAddr("user".to_string()), 90),
                create_subscriber_msg(sub_b, &HumanAddr("user".to_string()), 90)
            ],
            log: vec![],
            data: Some(StakingAnswer::Handle(LPStakingHandleAnswer::Redeem { status: Success }))
        }
    )
}

#[test]
fn test_add_remove_subs() {
    let sub_a = contract("sub_a");
    let sub_b = contract("sub_b");
    let sub_c = contract("sub_c");

    let (init_result, mut deps) = init_helper(Some(vec![sub_a.clone(), sub_b.clone()]));
    assert!(init_result.is_ok());

    let config = deps.config.clone();
    deposit_helper(&mut deps, "user".into(), 100);

    add_subscribers(&mut deps, &mock_env("admin"), vec![sub_c.clone()]).unwrap();
    let result = deposit_helper(&mut deps, "user".into(), 100);
    assert_eq!(
        result,
        HandleResponse {
            messages: vec![
                create_subscriber_msg(sub_a.clone(), &HumanAddr("user".to_string()), 200),
                create_subscriber_msg(sub_b.clone(), &HumanAddr("user".to_string()), 200),
                create_subscriber_msg(sub_c.clone(), &HumanAddr("user".to_string()), 200)
            ],
            log: vec![],
            data: Some(StakingAnswer::Receive(LPStakingReceiveAnswer::Deposit { status: Success }))
        }
    );

    remove_subscribers(
        &mut deps,
        &mock_env("admin"),
        vec![sub_a.address, sub_b.address, sub_c.address],
    )
    .unwrap();
    let result = redeem_helper(&mut deps, "user".into(), 150);
    assert_eq!(
        result,
        HandleResponse {
            messages: vec![snip20_transfer("user", 150, &config.inc_token)],
            log: vec![],
            data: Some(StakingAnswer::Handle(LPStakingHandleAnswer::Redeem { status: Success }))
        }
    );
}

#[test]
fn init_registers_with_both_tokens() {
    let (init_result, deps) = init_helper(None);
    let response = init_result.unwrap();
    let register = |token: &SecretContract| {
        as_library_msg(
            secret_toolkit::snip20::register_receive_msg(
                "".to_string(),
                None,
                1,
                token.contract_hash.clone(),
                secret_cosmwasm_std::HumanAddr(token.address.0.clone()),
            )
            .unwrap(),
        )
    };
    let set_key = |token: &SecretContract| {
        as_library_msg(
            secret_toolkit::snip20::set_viewing_key_msg(
                "123".to_string(),
                None,
                RESPONSE_BLOCK_SIZE,
                token.contract_hash.clone(),
                secret_cosmwasm_std::HumanAddr(token.address.0.clone()),
            )
            .unwrap(),
        )
    };
    assert_eq!(
        response.messages,
        vec![
            register(&deps.config.reward_token),
            register(&deps.config.inc_token),
            set_key(&deps.config.reward_token),
            set_key(&deps.config.inc_token),
        ]
    );
    assert!(response.log.is_empty());
    assert_eq!(deps.config.admin, user("admin"));
    assert_eq!(deps.config.own_addr, user(MOCK_CONTRACT_ADDR));
    assert!(!deps.config.is_stopped);
    assert_eq!(deps.config.prng_seed, secret_toolkit::crypto::sha_256(&[]).to_vec());
    assert_eq!(deps.reward_pool, RewardPool { residue: 0, inc_token_supply: 0, acc_reward_per_share: 0 });
    assert!(deps.subscribers.is_empty());
    assert!(deps.users.entries.is_empty());
}

#[test]
fn set_viewing_key_body_is_padded_to_the_block_size() {
    let (init_result, _) = init_helper(None);
    let response = init_result.unwrap();
    match &response.messages[2] {
        CosmosMsg::Wasm(WasmMsg::Execute { msg: MsgBody::Encoded(body), .. }) => {
            assert_eq!(body.len(), RESPONSE_BLOCK_SIZE);
            assert!(body.starts_with(b"{\"set_viewing_key\":{\"key\":\"123\""));
        }
        other => panic!("unexpected instruction: {:?}", other),
    }
}

#[test]
fn allocation_scenario_in_two_phases() {
    let (_, mut deps) = init_helper(Some(vec![]));
    let master = mock_env("master");

    // Phase 1 of a deposit asks the master and touches nothing.
    let before = deps.clone();
    let asked = deposit(&deps, &mock_env("inc_t"), user("user"), 100).unwrap();
    assert_eq!(deps, before);
    assert_eq!(
        asked.messages,
        vec![CosmosMsg::Wasm(WasmMsg::Execute {
            contract_addr: user("master"),
            callback_code_hash: "".to_string(),
            msg: MsgBody::Master(MasterHandleMsg::UpdateAllocation {
                spy_addr: user(MOCK_CONTRACT_ADDR),
                spy_hash: "".to_string(),
                hook: Some(LPStakingHookMsg::Deposit { from: user("user"), amount: 100 }),
            }),
        })]
    );
    assert_eq!(asked.data, None);

    // Allocation into the empty pool waits as residue.
    notify_allocation(&mut deps, &master, 100, None).unwrap();
    assert_eq!(deps.reward_pool, RewardPool { residue: 100, inc_token_supply: 0, acc_reward_per_share: 0 });

    // The deposit is settled against an accumulator that is still zero.
    let deposited = notify_allocation(
        &mut deps,
        &master,
        0,
        Some(LPStakingHookMsg::Deposit { from: user("user"), amount: 100 }),
    )
    .unwrap();
    assert!(deposited.messages.is_empty());
    assert_eq!(position(&deps, "user"), UserInfo { locked: 100, debt: 0 });
    assert_eq!(deps.reward_pool, RewardPool { residue: 100, inc_token_supply: 100, acc_reward_per_share: 0 });

    // The next allocation spreads it and the residue, and the withdrawal of
    // everything that rides on it pays both out.
    let redeemed = notify_allocation(
        &mut deps,
        &master,
        50,
        Some(LPStakingHookMsg::Redeem { to: user("user"), amount: None }),
    )
    .unwrap();
    assert_eq!(deps.reward_pool.acc_reward_per_share, 150 * REWARD_SCALE / 100);
    assert_eq!(deps.reward_pool.residue, 0);
    assert_eq!(deps.reward_pool.inc_token_supply, 0);
    assert_eq!(position(&deps, "user"), UserInfo { locked: 0, debt: 0 });
    assert_eq!(
        redeemed.messages,
        vec![
            snip20_transfer("user", 150, &deps.config.reward_token),
            snip20_transfer("user", 100, &deps.config.inc_token),
        ]
    );
}

#[test]
fn allocation_arithmetic() {
    let pool = RewardPool { residue: 7, inc_token_supply: 300, acc_reward_per_share: 5 };
    assert_eq!(pool.allocate(0), Ok(pool));
    assert_eq!(
        pool.allocate(2),
        Ok(RewardPool { residue: 0, inc_token_supply: 300, acc_reward_per_share: 5 + 9 * REWARD_SCALE / 300 })
    );
    let empty = RewardPool { residue: 7, inc_token_supply: 0, acc_reward_per_share: 5 };
    assert_eq!(empty.allocate(2), Ok(RewardPool { residue: 9, inc_token_supply: 0, acc_reward_per_share: 5 }));
    assert_eq!(empty.allocate(u128::MAX), Err(ContractError::Overflow));
    assert_eq!(pool.allocate(u128::MAX / REWARD_SCALE), Err(ContractError::Overflow));
}

#[test]
fn update_rewards_stores_the_pool() {
    let (_, mut deps) = init_helper(None);
    deps.reward_pool = RewardPool { residue: 0, inc_token_supply: 4, acc_reward_per_share: 1 };
    let pool = update_rewards(&mut deps, 2).unwrap();
    assert_eq!(pool.acc_reward_per_share, 1 + 2 * REWARD_SCALE / 4);
    assert_eq!(deps.reward_pool, pool);
}

#[test]
fn round_trip_leaves_nothing_behind() {
    let (_, mut deps) = init_helper(Some(vec![]));
    deps.reward_pool.acc_reward_per_share = 3 * REWARD_SCALE / 7;
    let before = deps.reward_pool;
    let deposited = deposit_helper(&mut deps, "user".into(), 1_000);
    assert!(deposited.messages.is_empty());
    let redeemed = redeem_helper(&mut deps, "user".into(), 1_000);
    assert_eq!(redeemed.messages, vec![snip20_transfer("user", 1_000, &deps.config.inc_token)]);
    assert_eq!(position(&deps, "user"), UserInfo { locked: 0, debt: 0 });
    assert_eq!(deps.reward_pool, before);
}

#[test]
fn stake_is_conserved_over_deposits_and_withdrawals() {
    let (_, mut deps) = init_helper(Some(vec![]));
    let master = mock_env("master");
    let steps = vec![
        LPStakingHookMsg::Deposit { from: user("a"), amount: 10 },
        LPStakingHookMsg::Deposit { from: user("b"), amount: 25 },
        LPStakingHookMsg::Redeem { to: user("a"), amount: Some(4) },
        LPStakingHookMsg::Deposit { from: user("c"), amount: 1 },
        LPStakingHookMsg::Redeem { to: user("b"), amount: None },
        LPStakingHookMsg::Redeem { to: user("c"), amount: Some(2) },
    ];
    for step in steps {
        let _ = handle(
            &mut deps,
            &master,
            LPStakingHandleMsg::NotifyAllocation { amount: 0, hook: Some(step) },
        );
        assert_eq!(total_locked(&deps), deps.reward_pool.inc_token_supply);
    }
    assert_eq!(deps.reward_pool.inc_token_supply, 7);
    assert_eq!(position(&deps, "a").locked, 6);
    assert_eq!(position(&deps, "b").locked, 0);
    assert_eq!(position(&deps, "c").locked, 1);
}

#[test]
fn rewards_paid_never_exceed_allocations() {
    let (_, mut deps) = init_helper(Some(vec![]));
    let master = mock_env("master");
    let mut allocated: u128 = 0;
    for (amount, hook) in vec![
        (40, LPStakingHookMsg::Deposit { from: user("a"), amount: 3 * REWARD_SCALE }),
        (17, LPStakingHookMsg::Deposit { from: user("b"), amount: 5 * REWARD_SCALE }),
        (23, LPStakingHookMsg::Redeem { to: user("a"), amount: Some(REWARD_SCALE) }),
        (9, LPStakingHookMsg::Deposit { from: user("b"), amount: REWARD_SCALE }),
    ] {
        notify_allocation(&mut deps, &master, amount, Some(hook)).unwrap();
        allocated += amount;
    }
    let acc = deps.reward_pool.acc_reward_per_share;
    let pending: u128 = deps.users.entries.iter().map(|e| e.value.reward_due(acc).unwrap()).sum();
    assert!(pending + deps.reward_pool.residue <= allocated);
}

#[test]
fn withdrawal_beyond_the_position_is_refused() {
    let (_, mut deps) = init_helper(Some(vec![]));
    deposit_helper(&mut deps, "user".into(), 100);
    let before = deps.clone();
    let pool = deps.reward_pool;
    assert_eq!(
        redeem_hook(&mut deps, pool, user("user"), Some(101)),
        Err(ContractError::InsufficientStake { balance: 100, required: 101 })
    );
    assert_eq!(deps, before);
}

#[test]
fn callback_is_for_master_and_admin_only() {
    let (_, mut deps) = init_helper(None);
    let before = deps.clone();
    assert_eq!(
        notify_allocation(&mut deps, &mock_env("user"), 100, None),
        Err(ContractError::Unauthorized)
    );
    assert_eq!(deps, before);
    assert!(notify_allocation(&mut deps, &mock_env("admin"), 100, None).is_ok());
    assert!(notify_allocation(&mut deps, &mock_env("master"), 100, None).is_ok());
    assert_eq!(deps.reward_pool.residue, 200);
}

#[test]
fn failed_continuation_rolls_the_allocation_back() {
    let (_, mut deps) = init_helper(Some(vec![]));
    deposit_helper(&mut deps, "user".into(), 100);
    let before = deps.clone();
    let res = notify_allocation(
        &mut deps,
        &mock_env("master"),
        50,
        Some(LPStakingHookMsg::Redeem { to: user("user"), amount: Some(500) }),
    );
    assert_eq!(res, Err(ContractError::InsufficientStake { balance: 100, required: 500 }));
    assert_eq!(deps, before);
}

#[test]
fn deposit_from_another_token_is_refused() {
    let (_, deps) = init_helper(None);
    assert_eq!(
        deposit(&deps, &mock_env("reward_t"), user("user"), 100),
        Err(ContractError::UnsupportedToken)
    );
    let asked = handle(
        &mut deps.clone(),
        &mock_env("inc_t"),
        LPStakingHandleMsg::Receive {
            sender: user("user"),
            from: user("user"),
            amount: 5,
            msg: LPStakingReceiveMsg::Deposit {},
        },
    )
    .unwrap();
    assert_eq!(asked.messages.len(), 1);
}

#[test]
fn redeem_asks_the_master_first() {
    let (_, deps) = init_helper(None);
    let asked = redeem(&deps, &mock_env("user"), Some(30)).unwrap();
    assert_eq!(
        asked.messages,
        vec![CosmosMsg::Wasm(WasmMsg::Execute {
            contract_addr: user("master"),
            callback_code_hash: "".to_string(),
            msg: MsgBody::Master(MasterHandleMsg::UpdateAllocation {
                spy_addr: user(MOCK_CONTRACT_ADDR),
                spy_hash: "".to_string(),
                hook: Some(LPStakingHookMsg::Redeem { to: user("user"), amount: Some(30) }),
            }),
        })]
    );
}

#[test]
fn stopped_pool_serves_the_emergency_exit_only() {
    let (_, mut deps) = init_helper(Some(vec![contract("sub_a")]));
    deposit_helper(&mut deps, "user".into(), 100);
    deps.reward_pool.acc_reward_per_share = REWARD_SCALE;

    let running = deps.clone();
    assert_eq!(
        handle(&mut deps, &mock_env("user"), LPStakingHandleMsg::EmergencyRedeem {}),
        Err(ContractError::UnknownAction)
    );
    assert_eq!(deps, running);
    assert_eq!(stop_contract(&mut deps, &mock_env("user")), Err(ContractError::Unauthorized));
    stop_contract(&mut deps, &mock_env("admin")).unwrap();
    assert!(deps.config.is_stopped);

    assert_eq!(
        handle(&mut deps, &mock_env("user"), LPStakingHandleMsg::Redeem { amount: None }),
        Err(ContractError::Paused)
    );
    let exit = handle(&mut deps, &mock_env("user"), LPStakingHandleMsg::EmergencyRedeem {}).unwrap();
    assert_eq!(exit.messages, vec![snip20_transfer("user", 100, &deps.config.inc_token)]);
    assert_eq!(
        exit.data,
        Some(StakingAnswer::Handle(LPStakingHandleAnswer::EmergencyRedeem { status: Success }))
    );
    assert_eq!(position(&deps, "user"), UserInfo { locked: 0, debt: 0 });
    assert_eq!(deps.reward_pool.inc_token_supply, 0);

    let again = emergency_redeem(&mut deps, &mock_env("user")).unwrap();
    assert!(again.messages.is_empty());

    handle(&mut deps, &mock_env("admin"), LPStakingHandleMsg::ResumeContract {}).unwrap();
    assert!(!deps.config.is_stopped);
}

#[test]
fn admin_can_be_changed_by_the_admin() {
    let (_, mut deps) = init_helper(None);
    assert_eq!(
        change_admin(&mut deps, &mock_env("user"), user("user")),
        Err(ContractError::Unauthorized)
    );
    change_admin(&mut deps, &mock_env("admin"), user("user")).unwrap();
    assert_eq!(deps.config.admin, user("user"));
    assert_eq!(
        add_subscribers(&mut deps, &mock_env("admin"), vec![]),
        Err(ContractError::Unauthorized)
    );
}

#[test]
fn removing_subscribers_keeps_the_order_of_the_rest() {
    let (_, mut deps) = init_helper(Some(vec![
        contract("sub_a"),
        contract("sub_b"),
        contract("sub_c"),
        contract("sub_b"),
    ]));
    remove_subscribers(&mut deps, &mock_env("admin"), vec![user("sub_b"), user("nobody")]).unwrap();
    assert_eq!(deps.subscribers, vec![contract("sub_a"), contract("sub_c")]);
}

#[test]
fn queries_without_a_key() {
    let (_, mut deps) = init_helper(Some(vec![contract("sub_a")]));
    deposit_helper(&mut deps, "user".into(), 100);
    assert_eq!(
        query(&deps, LPStakingQueryMsg::TotalLocked {}, 0),
        Ok(LPStakingQueryAnswer::TotalLocked { amount: 100 })
    );
    assert_eq!(
        query(&deps, LPStakingQueryMsg::ContractStatus {}, 0),
        Ok(LPStakingQueryAnswer::ContractStatus { is_stopped: false })
    );
    assert_eq!(
        query(&deps, LPStakingQueryMsg::RewardToken {}, 0),
        Ok(LPStakingQueryAnswer::RewardToken { token: contract("reward_t") })
    );
    assert_eq!(
        query(&deps, LPStakingQueryMsg::IncentivizedToken {}, 0),
        Ok(LPStakingQueryAnswer::IncentivizedToken { token: contract("inc_t") })
    );
    assert_eq!(
        query(&deps, LPStakingQueryMsg::Subscribers {}, 0),
        Ok(LPStakingQueryAnswer::Subscribers { contracts: vec![contract("sub_a")] })
    );
    assert_eq!(
        query(&deps, LPStakingQueryMsg::TokenInfo {}, 0),
        Ok(LPStakingQueryAnswer::TokenInfo {
            name: "".to_string(),
            symbol: "".to_string(),
            decimals: 1,
            total_supply: None
        })
    );
}

#[test]
fn queries_need_the_viewing_key() {
    let (_, mut deps) = init_helper(Some(vec![]));
    deposit_helper(&mut deps, "user".into(), 100);
    deps.reward_pool.residue = 10;
    let refused = Ok(LPStakingQueryAnswer::QueryError {
        msg: "Wrong viewing key for this address or viewing key not set".to_string(),
    });
    let balance =
        |key: &str| LPStakingQueryMsg::Balance { address: user("user"), key: key.to_string() };

    assert_eq!(query(&deps, balance("secret"), 0), refused);
    set_viewing_key(&mut deps, &mock_env("user"), "secret".to_string()).unwrap();
    assert_eq!(
        deps.viewing_keys.entries,
        vec![Entry { key: user("user"), value: secret_toolkit::crypto::sha_256(b"secret").to_vec() }]
    );
    assert_eq!(query(&deps, balance("wrong"), 0), refused);
    assert_eq!(query(&deps, balance("secret"), 0), Ok(LPStakingQueryAnswer::Balance { amount: 100 }));
    assert_eq!(
        authenticated_queries(
            &deps,
            LPStakingQueryMsg::Rewards { address: user("user"), key: "secret".to_string(), height: 1 },
            40
        ),
        Ok(LPStakingQueryAnswer::Rewards { rewards: 50 })
    );
}

#[test]
fn generated_viewing_key_opens_the_queries() {
    let (_, mut deps) = init_helper(Some(vec![]));
    let env = mock_env("user");
    let response = create_viewing_key(&mut deps, &env, "some entropy".to_string()).unwrap();
    let key = match response.data {
        Some(StakingAnswer::Handle(LPStakingHandleAnswer::CreateViewingKey { key })) => key,
        other => panic!("unexpected answer: {:?}", other),
    };

    let mut entropy = Vec::new();
    entropy.extend_from_slice(&env.block.height.to_be_bytes());
    entropy.extend_from_slice(&env.block.time.to_be_bytes());
    entropy.extend_from_slice(b"user");
    entropy.extend_from_slice(b"some entropy");
    let drawn = secret_toolkit::crypto::Prng::new(&deps.config.prng_seed, &entropy).rand_bytes();
    let secret = secret_toolkit::crypto::sha_256(&drawn);
    let hex: String = secret.iter().map(|b| format!("{:02x}", b)).collect();
    assert_eq!(key.0, format!("api_key_{}", hex));

    assert_eq!(
        query(&deps, LPStakingQueryMsg::Balance { address: user("user"), key: key.0 }, 0),
        Ok(LPStakingQueryAnswer::Balance { amount: 0 })
    );
}

#[test]
fn keyed_store_replaces_in_place() {
    let mut store: KeyedStore<u8> = KeyedStore::new();
    store.set(user("a"), 1);
    store.set(user("b"), 2);
    store.set(user("a"), 3);
    assert_eq!(
        store.entries,
        vec![Entry { key: user("a"), value: 3 }, Entry { key: user("b"), value: 2 }]
    );
    assert_eq!(store.get(&user("a")), Some(&3));
    assert_eq!(store.get(&user("c")), None);
    assert_eq!(store.position(&user("b")), Some(1));
}

#[test]
fn settlement_is_stored_and_announced() {
    let (_, mut deps) = init_helper(Some(vec![contract("sub_a")]));
    let s = Settlement {
        user: UserInfo { locked: 7, debt: 3 },
        pool: RewardPool { residue: 1, inc_token_supply: 7, acc_reward_per_share: 5 },
        reward: 2,
        amount: 7,
    };
    let transfer = snip20_transfer("user", 2, &deps.config.reward_token);
    let response = commit_settlement(&mut deps, Resize::Deposit, user("user"), s, vec![transfer.clone()]);
    assert_eq!(
        response.messages,
        vec![transfer.clone(), create_subscriber_msg(contract("sub_a"), &user("user"), 7)]
    );
    assert_eq!(position(&deps, "user"), s.user);
    assert_eq!(deps.reward_pool, s.pool);

    let response = commit_settlement(&mut deps, Resize::Emergency, user("user"), s, vec![transfer.clone()]);
    assert_eq!(response.messages, vec![transfer]);
    assert_eq!(
        response.data,
        Some(StakingAnswer::Handle(LPStakingHandleAnswer::EmergencyRedeem { status: Success }))
    );
}

#[test]
fn checked_query_answers_by_the_check() {
    let (_, mut deps) = init_helper(Some(vec![]));
    deposit_helper(&mut deps, "user".into(), 100);
    let msg = LPStakingQueryMsg::Balance { address: user("user"), key: "any".to_string() };
    assert_eq!(
        answer_checked_query(&deps, &msg, true, 0),
        Ok(LPStakingQueryAnswer::Balance { amount: 100 })
    );
    assert_eq!(
        answer_checked_query(&deps, &msg, false, 0),
        Ok(LPStakingQueryAnswer::QueryError {
            msg: "Wrong viewing key for this address or viewing key not set".to_string()
        })
    );
    store_viewing_key(&mut deps, user("user"), vec![1, 2, 3]);
    assert_eq!(deps.viewing_keys.get(&user("user")), Some(&vec![1, 2, 3]));
}

#[test]
fn projected_rewards_spread_the_residue() {
    let pool = RewardPool { residue: 10, inc_token_supply: 200, acc_reward_per_share: REWARD_SCALE };
    let position = UserInfo { locked: 100, debt: 100 };
    assert_eq!(scrt_finance::rewards::projected_reward(pool, position, 0), Ok(5));
    assert_eq!(scrt_finance::rewards::projected_reward(pool, position, 30), Ok(20));
    let idle = RewardPool { residue: 10, inc_token_supply: 0, acc_reward_per_share: REWARD_SCALE };
    assert_eq!(scrt_finance::rewards::projected_reward(idle, position, 30), Ok(0));
    assert_eq!(
        scrt_finance::rewards::projected_reward(pool, UserInfo { locked: 100, debt: 106 }, 0),
        Err(ContractError::Overflow)
    );
}

#[test]
fn error_texts() {
    assert_eq!(
        ContractError::InsufficientStake { balance: 100, required: 1050 }.message(),
        "insufficient funds to redeem: balance=100, required=1050"
    );
    assert_eq!(ContractError::Unauthorized.message(), "unauthorized");
    assert_eq!(
        ContractError::Paused.message(),
        "this contract is stopped and this action is not allowed"
    );
    assert_eq!(ContractError::UnknownAction.message(), "Unavailable or unknown action");
    assert_eq!(
        ContractError::UnknownPreviousChoice { choice: 0 }.message(),
        "previous choice 0 does not exist in this poll"
    );
}

#[test]
fn bytes_and_text_encodings() {
    let mut out = vec![9u8];
    scrt_finance::encoding::push_be_bytes(&mut out, 0x0102_0304_0506_0708);
    assert_eq!(out, vec![9, 1, 2, 3, 4, 5, 6, 7, 8]);
    let mut text = "x".to_string();
    scrt_finance::encoding::push_hex(&mut text, &[0x00, 0x9f, 0xa0, 0xff]);
    assert_eq!(text, "x009fa0ff");
    let mut text = String::new();
    scrt_finance::encoding::push_decimal(&mut text, 0);
    scrt_finance::encoding::push_decimal(&mut text, u128::MAX);
    assert_eq!(text, format!("0{}", u128::MAX));
}

#[test]
fn residue_is_consumed_once() {
    let (_, mut deps) = init_helper(Some(vec![]));
    let master = mock_env("master");
    notify_allocation(&mut deps, &master, 30, None).unwrap();
    notify_allocation(&mut deps, &master, 12, None).unwrap();
    assert_eq!(deps.reward_pool, RewardPool { residue: 42, inc_token_supply: 0, acc_reward_per_share: 0 });

    // The first deposit is paid nothing and leaves the residue waiting.
    let deposited = notify_allocation(
        &mut deps,
        &master,
        0,
        Some(LPStakingHookMsg::Deposit { from: user("first"), amount: 7 }),
    )
    .unwrap();
    assert!(deposited.messages.is_empty());
    assert_eq!(deps.reward_pool, RewardPool { residue: 42, inc_token_supply: 7, acc_reward_per_share: 0 });

    // The next allocation spreads it together with what arrives.
    notify_allocation(&mut deps, &master, 8, None).unwrap();
    assert_eq!(
        deps.reward_pool,
        RewardPool { residue: 0, inc_token_supply: 7, acc_reward_per_share: 50 * REWARD_SCALE / 7 }
    );

    // The one after that spreads only what arrives.
    notify_allocation(&mut deps, &master, 14, None).unwrap();
    assert_eq!(
        deps.reward_pool.acc_reward_per_share,
        50 * REWARD_SCALE / 7 + 14 * REWARD_SCALE / 7
    );
    assert_eq!(deps.reward_pool.residue, 0);
    assert_eq!(position(&deps, "first").reward_due(deps.reward_pool.acc_reward_per_share), Ok(63));
}

#[test]
fn rounded_debts_collect_less_than_a_unit_each() {
    let (_, mut deps) = init_helper(Some(vec![]));
    let master = mock_env("master");
    let deposit = |deps: &mut StakingStorage, amount: u128, from: String, stake: u128| {
        notify_allocation(
            deps,
            &master,
            amount,
            Some(LPStakingHookMsg::Deposit { from: HumanAddr(from), amount: stake }),
        )
        .unwrap()
    };
    deposit(&mut deps, 0, "a".to_string(), 10);
    // 8 units over a stake of 10 put the accumulator at 0.8 per unit staked.
    deposit(&mut deps, 8, "b0".to_string(), 1);
    for i in 1..100 {
        deposit(&mut deps, 0, format!("b{}", i), 1);
    }
    // Each of the hundred debts was rounded from 0.8 down to zero.
    assert_eq!(position(&deps, "b42"), UserInfo { locked: 1, debt: 0 });
    // 22 units over a stake of 110 lift the accumulator to 1 per unit staked.
    notify_allocation(&mut deps, &master, 22, None).unwrap();
    let acc = deps.reward_pool.acc_reward_per_share;
    assert_eq!(acc, REWARD_SCALE);
    let pending: u128 = deps.users.entries.iter().map(|e| e.value.reward_due(acc).unwrap()).sum();
    let allocated = 30;
    let rounded = 100;
    assert_eq!(pending, 110);
    assert!(pending <= allocated + rounded);
}
