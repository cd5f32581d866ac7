use scrt_finance::chain::{
    BlockInfo, ContractInfo, CosmosMsg, Env, HumanAddr, LogAttribute, MessageInfo, MsgBody,
    WasmMsg,
};
use scrt_finance::errors::ContractError;
use scrt_finance::poll_factory::challenge::Challenge;
use scrt_finance::poll_factory::contract::{
    complete_registration, create_poll, get_active_polls, handle, init, new_poll, query,
    register_for_updates, remove_inactive_polls, update_voting_power,
};
use scrt_finance::poll_factory::msg::{InitMsg, QueryAnswer, QueryMsg, ResponseStatus};
use scrt_finance::poll_factory::state::{ActivePoll, FactoryStorage, PollContract};
use scrt_finance::secret_vote_types::{
    PollConfig, PollFactoryHandleMsg, PollHandleMsg, PollInitMsg, PollMetadata,
};
use scrt_finance::types::SecretContract;

fn mock_env(sender: &str, time: u64) -> Env {
    Env {
        block: BlockInfo { height: 7, time, chain_id: "cosmos-testnet-14002".to_string() },
        message: MessageInfo { sender: HumanAddr(sender.to_string()) },
        contract: ContractInfo { address: HumanAddr("factory".to_string()) },
        contract_code_hash: "factory hash".to_string(),
    }
}

fn addr(name: &str) -> HumanAddr {
    HumanAddr(name.to_string())
}

fn factory() -> FactoryStorage {
    let msg = InitMsg {
        prng_seed: b"seed".to_vec(),
        poll_contract: PollContract { code_id: 3, code_hash: "poll hash".to_string() },
        staking_pool: SecretContract { address: addr("staking pool"), contract_hash: "".to_string() },
    };
    let (deps, response) = init(&mock_env("admin", 0), msg).unwrap();
    assert!(response.messages.is_empty());
    deps
}

fn metadata() -> PollMetadata {
    PollMetadata {
        title: "test vote".to_string(),
        description: "hey hey this is a test vote".to_string(),
        author_addr: None,
        author_alias: "proposer".to_string(),
    }
}

fn hex(bytes: &[u8]) -> String {
    bytes.iter().map(|b| format!("{:02x}", b)).collect()
}

/// The challenge the factory hands to the poll it creates in `env`.
fn expected_challenge(deps: &FactoryStorage, env: &Env) -> String {
    let mut entropy = Vec::new();
    entropy.extend_from_slice(&env.block.height.to_be_bytes());
    entropy.extend_from_slice(&env.block.time.to_be_bytes());
    entropy.extend_from_slice(env.message.sender.0.as_bytes());
    let drawn = secret_toolkit::crypto::Prng::new(&deps.config.prng_seed, &entropy).rand_bytes();
    hex(&secret_toolkit::crypto::sha_256(&drawn))
}

#[test]
fn test() {
    let deps = factory();
    assert_eq!(deps.admin, addr("admin"));
    assert_eq!(deps.default_poll_config, PollConfig { duration: 1209600, quorum: 34, min_threshold: 0 });
    assert_eq!(deps.config.id_counter, 0);
    assert_eq!(deps.config.prng_seed, secret_toolkit::crypto::sha_256(b"seed").to_vec());
    assert_eq!(deps.current_challenge, None);
    assert!(deps.active_polls.is_empty());
}

#[test]
fn new_poll_hands_out_a_challenge() {
    let mut deps = factory();
    let env = mock_env("proposer", 500);
    let challenge = expected_challenge(&deps, &env);
    let response = handle(
        &mut deps,
        &env,
        PollFactoryHandleMsg::NewPoll {
            poll_metadata: metadata(),
            poll_config: None,
            poll_choices: vec!["Yes".into(), "No".into()],
        },
    )
    .unwrap();
    assert_eq!(
        response.messages,
        vec![CosmosMsg::Wasm(WasmMsg::Instantiate {
            code_id: 3,
            callback_code_hash: "poll hash".to_string(),
            msg: PollInitMsg {
                metadata: metadata(),
                config: PollConfig { duration: 1209600, quorum: 34, min_threshold: 0 },
                choices: vec!["Yes".into(), "No".into()],
                staking_pool: deps.config.staking_pool.clone(),
                init_hook: Some(scrt_finance::secret_vote_types::InitHook {
                    contract_addr: addr("factory"),
                    code_hash: "factory hash".to_string(),
                    msg: MsgBody::PollFactory(PollFactoryHandleMsg::RegisterForUpdates {
                        challenge: challenge.clone(),
                        end_time: 500 + 1209600,
                    }),
                }),
            },
            label: "secret-poll-0".to_string(),
        })]
    );
    assert_eq!(response.data, None);
    assert_eq!(deps.config.id_counter, 1);
    assert_eq!(
        deps.current_challenge,
        Some(secret_toolkit::crypto::sha_256(challenge.as_bytes()).to_vec())
    );

    let config = PollConfig { duration: 10, quorum: 1, min_threshold: 2 };
    let second = new_poll(&mut deps, &env, metadata(), config, vec![]).unwrap();
    match &second.messages[0] {
        CosmosMsg::Wasm(WasmMsg::Instantiate { label, msg, .. }) => {
            assert_eq!(label, "secret-poll-1");
            assert_eq!(msg.config, config);
        }
        other => panic!("unexpected instruction: {:?}", other),
    }
    assert_eq!(
        new_poll(
            &mut deps,
            &mock_env("proposer", u64::MAX),
            metadata(),
            PollConfig { duration: 1, quorum: 1, min_threshold: 2 },
            vec![]
        ),
        Err(ContractError::Overflow)
    );
}

#[test]
fn registration_needs_the_challenge() {
    let mut deps = factory();
    let env = mock_env("proposer", 500);
    let challenge = expected_challenge(&deps, &env);
    let config = deps.default_poll_config;
    new_poll(&mut deps, &env, metadata(), config, vec![]).unwrap();
    deps.active_polls.push(ActivePoll { address: addr("old poll"), end_time: 600 });

    let before = deps.clone();
    let err = register_for_updates(
        &mut deps,
        &mock_env("intruder", 501),
        Challenge("not the challenge".to_string()),
        9_000,
    )
    .unwrap_err();
    assert_eq!(err, ContractError::ChallengeMismatch);
    assert_eq!(
        err.message(),
        "challenge did not match. This function can be called only as a callback from a new poll contract"
    );
    assert_eq!(deps, before);

    // Through `handle` a refusal undoes the pruning as well.
    assert_eq!(
        handle(
            &mut deps,
            &mock_env("intruder", 700),
            PollFactoryHandleMsg::RegisterForUpdates {
                challenge: "not the challenge".to_string(),
                end_time: 9_000
            },
        ),
        Err(ContractError::ChallengeMismatch)
    );
    assert_eq!(deps, before);

    let registered = handle(
        &mut deps,
        &mock_env("new poll", 501),
        PollFactoryHandleMsg::RegisterForUpdates { challenge: challenge.clone(), end_time: 9_000 },
    )
    .unwrap();
    assert_eq!(registered.data, Some(ResponseStatus::Success));
    assert_eq!(
        registered.log,
        vec![LogAttribute { key: "new_poll".to_string(), value: "new poll".to_string() }]
    );
    assert_eq!(
        deps.active_polls,
        vec![
            ActivePoll { address: addr("old poll"), end_time: 600 },
            ActivePoll { address: addr("new poll"), end_time: 9_000 },
        ]
    );
    assert_eq!(deps.current_challenge, None);

    // The challenge is spent.
    assert_eq!(
        register_for_updates(&mut deps, &mock_env("new poll", 502), Challenge(challenge), 9_000),
        Err(ContractError::ChallengeMismatch)
    );
}

#[test]
fn voting_power_goes_to_the_polls_that_run() {
    let mut deps = factory();
    deps.active_polls = vec![
        ActivePoll { address: addr("poll a"), end_time: 100 },
        ActivePoll { address: addr("poll b"), end_time: 99 },
        ActivePoll { address: addr("poll c"), end_time: 300 },
    ];
    let before = deps.clone();
    assert_eq!(
        handle(
            &mut deps,
            &mock_env("intruder", 100),
            PollFactoryHandleMsg::UpdateVotingPower { voter: addr("user"), new_power: 5 },
        ),
        Err(ContractError::Unauthorized)
    );
    assert_eq!(deps, before);

    let response = handle(
        &mut deps,
        &mock_env("staking pool", 100),
        PollFactoryHandleMsg::UpdateVotingPower { voter: addr("user"), new_power: 5 },
    )
    .unwrap();
    let update = |poll: &str| {
        CosmosMsg::Wasm(WasmMsg::Execute {
            contract_addr: addr(poll),
            callback_code_hash: "poll hash".to_string(),
            msg: MsgBody::Poll(PollHandleMsg::UpdateVotingPower { voter: addr("user"), new_power: 5 }),
        })
    };
    assert_eq!(response.messages, vec![update("poll a"), update("poll c")]);
    assert_eq!(
        response.log,
        vec![LogAttribute { key: "voting power update".to_string(), value: "user".to_string() }]
    );
    assert_eq!(
        deps.active_polls,
        vec![
            ActivePoll { address: addr("poll a"), end_time: 100 },
            ActivePoll { address: addr("poll c"), end_time: 300 },
        ]
    );

    let direct = update_voting_power(
        &deps,
        &mock_env("staking pool", 100),
        addr("user"),
        5,
        vec![ActivePoll { address: addr("poll c"), end_time: 300 }],
    )
    .unwrap();
    assert_eq!(direct.messages, vec![update("poll c")]);
}

#[test]
fn registry_is_pruned_by_end_time() {
    let mut deps = factory();
    deps.active_polls = vec![
        ActivePoll { address: addr("poll a"), end_time: 100 },
        ActivePoll { address: addr("poll b"), end_time: 200 },
    ];
    assert_eq!(get_active_polls(&deps, 101).unwrap(), vec![ActivePoll { address: addr("poll b"), end_time: 200 }]);
    assert_eq!(
        query(&deps, QueryMsg::ActivePolls { current_time: 100 }),
        Ok(QueryAnswer::ActivePolls { active_polls: deps.active_polls.clone() })
    );
    let kept = remove_inactive_polls(&mut deps, &mock_env("anyone", 201)).unwrap();
    assert!(kept.is_empty());
    assert!(deps.active_polls.is_empty());
}

#[test]
fn admin_reconfigures_the_factory() {
    let mut deps = factory();
    let change = PollFactoryHandleMsg::UpdateDefaultPollConfig {
        duration: Some(60),
        quorum: None,
        min_threshold: Some(5),
    };
    assert_eq!(
        handle(&mut deps, &mock_env("user", 1), change.clone()),
        Err(ContractError::Unauthorized)
    );
    let response = handle(&mut deps, &mock_env("admin", 1), change).unwrap();
    assert_eq!(response.data, None);
    assert_eq!(deps.default_poll_config, PollConfig { duration: 60, quorum: 34, min_threshold: 5 });
    assert_eq!(
        query(&deps, QueryMsg::DefaultPollConfig {}),
        Ok(QueryAnswer::DefaultPollConfig { poll_config: deps.default_poll_config })
    );

    let code = PollFactoryHandleMsg::UpdatePollContract { new_id: 9, new_code_hash: "new".to_string() };
    assert_eq!(
        handle(&mut deps, &mock_env("user", 1), code.clone()),
        Err(ContractError::Unauthorized)
    );
    let response = handle(&mut deps, &mock_env("admin", 1), code).unwrap();
    assert_eq!(response.data, Some(ResponseStatus::Success));
    assert_eq!(
        query(&deps, QueryMsg::PollCode {}),
        Ok(QueryAnswer::PollCode {
            contract: PollContract { code_id: 9, code_hash: "new".to_string() }
        })
    );
    assert_eq!(query(&deps, QueryMsg::Admin {}), Ok(QueryAnswer::Admin { address: addr("admin") }));
    assert_eq!(
        query(&deps, QueryMsg::StakingPool {}),
        Ok(QueryAnswer::StakingPool { contract: deps.config.staking_pool.clone() })
    );
}

#[test]
fn challenge_is_checked_against_its_digest() {
    let challenge = Challenge("test".to_string());
    let digest: [u8; 32] = [
        159, 134, 208, 129, 136, 76, 125, 101, 154, 47, 234, 160, 197, 90, 208, 21, 163, 191, 79,
        27, 43, 11, 130, 44, 209, 93, 108, 21, 176, 240, 10, 8,
    ];
    assert_eq!(challenge.to_hashed(), digest.to_vec());
    assert!(challenge.check_challenge(&digest));
    assert!(!challenge.check_challenge(b"test"));
    assert!(!Challenge("tesu".to_string()).check_challenge(&digest));
}

#[test]
fn poll_is_created_with_the_challenge_given() {
    let mut deps = factory();
    deps.config.id_counter = 41;
    let config = PollConfig { duration: 10, quorum: 1, min_threshold: 2 };
    let response = create_poll(
        &mut deps,
        &mock_env("proposer", 5),
        metadata(),
        config,
        vec!["a".to_string()],
        Challenge("secret".to_string()),
        vec![4, 5, 6],
    )
    .unwrap();
    match &response.messages[0] {
        CosmosMsg::Wasm(WasmMsg::Instantiate { label, msg, code_id, .. }) => {
            assert_eq!(label, "secret-poll-41");
            assert_eq!(*code_id, 3);
            assert_eq!(
                msg.init_hook.as_ref().unwrap().msg,
                MsgBody::PollFactory(PollFactoryHandleMsg::RegisterForUpdates {
                    challenge: "secret".to_string(),
                    end_time: 15,
                })
            );
        }
        other => panic!("unexpected instruction: {:?}", other),
    }
    assert_eq!(deps.current_challenge, Some(vec![4, 5, 6]));
    assert_eq!(deps.config.id_counter, 42);
}

#[test]
fn registration_follows_the_check() {
    let mut deps = factory();
    deps.current_challenge = Some(vec![1]);
    let before = deps.clone();
    assert_eq!(
        complete_registration(&mut deps, &mock_env("poll", 5), false, 50),
        Err(ContractError::ChallengeMismatch)
    );
    assert_eq!(deps, before);
    complete_registration(&mut deps, &mock_env("poll", 5), true, 50).unwrap();
    assert_eq!(deps.active_polls, vec![ActivePoll { address: addr("poll"), end_time: 50 }]);
    assert_eq!(deps.current_challenge, None);
}
