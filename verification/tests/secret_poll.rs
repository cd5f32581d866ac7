use scrt_finance::chain::{
    BlockInfo, ContractInfo, CosmosMsg, Env, HumanAddr, InitResponse, LogAttribute, MessageInfo,
    MsgBody, WasmMsg,
};
use scrt_finance::errors::ContractError;
use scrt_finance::secret_poll::contract::{
    finalize, handle, init, query, query_has_voted, query_num_of_voters, query_tally,
    query_vote, query_vote_info, require_vote_ended_and_valid, require_vote_ongoing,
    update_voting_power, vote, PollAnswer,
};
use scrt_finance::secret_poll::tally::update_vote;
use scrt_finance::secret_poll::msg::{FinalizeAnswer, QueryAnswer, QueryMsg, ResponseStatus};
use scrt_finance::secret_poll::state::{read_vote, store_vote, PollStorage, StoredPollConfig, Vote};
use scrt_finance::secret_vote_types::{
    InitHook, PollConfig, PollFactoryHandleMsg, PollHandleMsg, PollInitMsg, PollMetadata,
};
use scrt_finance::types::SecretContract;

const MOCK_CONTRACT_ADDR: &str = "cosmos2contract";

fn mock_env(sender: &str, block: u64, time: u64) -> Env {
    Env {
        block: BlockInfo { height: block, time, chain_id: "cosmos-testnet-14002".to_string() },
        message: MessageInfo { sender: HumanAddr(sender.to_string()) },
        contract: ContractInfo { address: HumanAddr(MOCK_CONTRACT_ADDR.to_string()) },
        contract_code_hash: "".to_string(),
    }
}

fn init_msg() -> PollInitMsg {
    PollInitMsg {
        metadata: PollMetadata {
            title: "test vote".to_string(),
            description: "hey hey this is a test vote".to_string(),
            author_addr: Some(HumanAddr("proposer".to_string())),
            author_alias: "proposer".into(),
        },
        config: PollConfig { duration: 1000, quorum: 33, min_threshold: 0 },
        choices: vec!["Yes".into(), "No".into()],
        staking_pool: SecretContract {
            address: HumanAddr("staking pool".to_string()),
            contract_hash: "".to_string(),
        },
        init_hook: None,
    }
}

fn init_helper() -> (Result<InitResponse, ContractError>, PollStorage) {
    let env = mock_env("factory", 0, 0);
    match init(&env, init_msg()) {
        Ok((deps, response)) => (Ok(response), deps),
        Err(e) => panic!("init failed: {:?}", e),
    }
}

fn voter(name: &str) -> HumanAddr {
    HumanAddr(name.to_string())
}

fn total_power(deps: &PollStorage) -> u128 {
    deps.votes.entries.iter().map(|e| e.value.voting_power).sum()
}

#[test]
fn test_vote_info() {
    let env = mock_env("factory", 0, 0);
    let init_msg = PollInitMsg {
        metadata: PollMetadata {
            title: "test_vote_info".to_string(),
            description: "test_vote_info".to_string(),
            author_addr: Some(HumanAddr("proposer".to_string())),
            author_alias: "proposer".into(),
        },
        config: PollConfig { duration: 1000, quorum: 33, min_threshold: 0 },
        choices: vec!["Yes".into(), "No".into()],
        staking_pool: SecretContract {
            address: HumanAddr("staking pool".to_string()),
            contract_hash: "".to_string(),
        },
        init_hook: None,
    };
    let (deps, _) = init(&env, init_msg).unwrap();

    let res = query_vote_info(&deps).unwrap();
    assert_eq!(
        res,
        QueryAnswer::VoteInfo {
            info: PollMetadata {
                title: "test_vote_info".to_string(),
                description: "test_vote_info".to_string(),
                author_addr: Some(HumanAddr("proposer".to_string())),
                author_alias: "proposer".into(),
            }
        }
    )
}

#[test]
fn test_tally() {
    let (init_result, mut deps) = init_helper();
    assert!(init_result.is_ok());

    update_vote(
        &mut deps,
        &HumanAddr("user".into()),
        None,
        Vote { choice: 0, voting_power: 100 },
    )
    .unwrap();

    let err = query_tally(&deps).unwrap_err();
    assert_eq!(err, ContractError::NotFinalizedOrInvalid { ended: false });
    assert_eq!(err.message(), "vote hasn't ended yet");

    // Finalize
    deps.config.valid = true;
    deps.config.ended = true;

    let res = query_tally(&deps).unwrap();
    assert_eq!(
        res,
        QueryAnswer::Tally { choices: vec!["Yes".into(), "No".into()], tally: vec![100, 0] }
    )
}

#[test]
fn test_tally_before_ended() {
    let (_, mut deps) = init_helper();
    vote(&mut deps, &mock_env("user", 1, 10), 1, 70).unwrap();
    assert_eq!(
        query(&deps, QueryMsg::Tally {}),
        Err(ContractError::NotFinalizedOrInvalid { ended: false })
    );
    assert_eq!(
        require_vote_ended_and_valid(&deps),
        Err(ContractError::NotFinalizedOrInvalid { ended: false })
    );
}

#[test]
fn test_tally_below_quorum() {
    let (_, mut deps) = init_helper();
    vote(&mut deps, &mock_env("user", 1, 10), 0, 33).unwrap();
    // 33 of 100 is a participation of 33 percent, which does not exceed the quorum of 33.
    let response = finalize(&mut deps, &mock_env("anyone", 2, 1000), 100).unwrap();
    assert_eq!(
        response.data,
        Some(PollAnswer::Finalize(FinalizeAnswer {
            valid: false,
            choices: vec!["Yes".into(), "No".into()],
            tally: vec![33, 0],
        }))
    );
    assert!(deps.config.ended);
    assert!(!deps.config.valid);
    let err = query_tally(&deps).unwrap_err();
    assert_eq!(err, ContractError::NotFinalizedOrInvalid { ended: true });
    assert_eq!(err.message(), "vote hasn't passed quorum");
}

#[test]
fn test_minimum_deposit() {
    let env = mock_env("factory", 0, 0);
    let mut msg = init_msg();
    msg.config.min_threshold = 50;
    let (mut deps, _) = init(&env, msg).unwrap();
    vote(&mut deps, &mock_env("a", 1, 10), 0, 50).unwrap();
    vote(&mut deps, &mock_env("b", 1, 10), 1, 40).unwrap();
    // Participation is 90 percent, but the strongest choice does not exceed the threshold of 50.
    let response = finalize(&mut deps, &mock_env("anyone", 2, 1000), 100).unwrap();
    match response.data {
        Some(PollAnswer::Finalize(answer)) => assert!(!answer.valid),
        other => panic!("unexpected answer: {:?}", other),
    }

    let (mut deps, _) = init(&env, {
        let mut msg = init_msg();
        msg.config.min_threshold = 50;
        msg
    })
    .unwrap();
    vote(&mut deps, &mock_env("a", 1, 10), 0, 51).unwrap();
    let response = finalize(&mut deps, &mock_env("anyone", 2, 1000), 100).unwrap();
    match response.data {
        Some(PollAnswer::Finalize(answer)) => assert!(answer.valid),
        other => panic!("unexpected answer: {:?}", other),
    }
    assert_eq!(
        query_tally(&deps),
        Ok(QueryAnswer::Tally { choices: vec!["Yes".into(), "No".into()], tally: vec![51, 0] })
    );
}

#[test]
fn test_has_voted() {
    let (_, mut deps) = init_helper();
    assert_eq!(
        query_has_voted(&deps, voter("user")),
        Ok(QueryAnswer::HasVoted { has_voted: false })
    );
    vote(&mut deps, &mock_env("user", 1, 10), 1, 5).unwrap();
    assert_eq!(
        query(&deps, QueryMsg::HasVoted { voter: voter("user") }),
        Ok(QueryAnswer::HasVoted { has_voted: true })
    );
    assert_eq!(
        query_has_voted(&deps, voter("other")),
        Ok(QueryAnswer::HasVoted { has_voted: false })
    );
}

#[test]
fn test_num_of_voters() {
    let (_, mut deps) = init_helper();
    assert_eq!(query_num_of_voters(&deps), Ok(QueryAnswer::NumberOfVoters { count: 0 }));
    vote(&mut deps, &mock_env("a", 1, 10), 0, 5).unwrap();
    vote(&mut deps, &mock_env("b", 1, 10), 1, 5).unwrap();
    vote(&mut deps, &mock_env("a", 1, 11), 1, 5).unwrap();
    update_voting_power(&mut deps, &mock_env("factory", 1, 12), voter("c"), 9).unwrap();
    assert_eq!(
        query(&deps, QueryMsg::NumberOfVoters {}),
        Ok(QueryAnswer::NumberOfVoters { count: 2 })
    );
}

#[test]
fn test_query_vote() {
    let (_, mut deps) = init_helper();
    assert_eq!(query_vote(&deps, voter("user")), Err(ContractError::NotFound));
    vote(&mut deps, &mock_env("user", 1, 10), 1, 40).unwrap();
    assert_eq!(
        query(&deps, QueryMsg::Vote { voter: voter("user"), key: "key".to_string() }),
        Ok(QueryAnswer::Vote { choice: 1, voting_power: 40 })
    );
    assert_eq!(read_vote(&deps, &voter("user")), Ok(Vote { choice: 1, voting_power: 40 }));
}

#[test]
fn test_update_voting_power() {
    let (_, mut deps) = init_helper();
    let user = mock_env("user", 1, 10);
    let factory = mock_env("factory", 1, 10);

    let voted = vote(&mut deps, &user, 0, 40).unwrap();
    assert_eq!(deps.tally, vec![40, 0]);
    assert_eq!(
        voted.log,
        vec![LogAttribute { key: "voted".to_string(), value: "user".to_string() }]
    );
    assert_eq!(voted.data, Some(PollAnswer::Status(ResponseStatus::Success)));

    vote(&mut deps, &user, 1, 40).unwrap();
    assert_eq!(deps.tally, vec![0, 40]);

    let synced = handle(
        &mut deps,
        &factory,
        PollHandleMsg::UpdateVotingPower { voter: voter("user"), new_power: 70 },
        0,
    )
    .unwrap();
    assert_eq!(deps.tally, vec![0, 70]);
    assert_eq!(read_vote(&deps, &voter("user")), Ok(Vote { choice: 1, voting_power: 70 }));
    assert_eq!(
        synced.log,
        vec![LogAttribute { key: "voting_power_updated".to_string(), value: "user".to_string() }]
    );
    assert_eq!(deps.num_of_voters, 1);

    // Only the factory reports changes, and a voter without a vote is left alone.
    let before = deps.clone();
    assert_eq!(
        update_voting_power(&mut deps, &user, voter("user"), 1),
        Err(ContractError::Unauthorized)
    );
    let idle = update_voting_power(&mut deps, &factory, voter("stranger"), 500).unwrap();
    assert!(idle.log.is_empty());
    assert_eq!(deps, before);
}

#[test]
fn test_vote_after_ended() {
    let (_, mut deps) = init_helper();
    vote(&mut deps, &mock_env("user", 1, 10), 0, 40).unwrap();
    finalize(&mut deps, &mock_env("anyone", 2, 1000), 100).unwrap();
    let before = deps.clone();
    let err = handle(
        &mut deps,
        &mock_env("user", 3, 1001),
        PollHandleMsg::Vote { choice: 1, staking_pool_viewing_key: "key".to_string() },
        40,
    )
    .unwrap_err();
    assert_eq!(err, ContractError::AlreadyEnded);
    assert_eq!(err.message(), "vote has ended");
    assert_eq!(
        update_voting_power(&mut deps, &mock_env("factory", 3, 1001), voter("user"), 1),
        Err(ContractError::AlreadyEnded)
    );
    assert_eq!(require_vote_ongoing(&deps), Err(ContractError::AlreadyEnded));
    assert_eq!(deps, before);
}

#[test]
fn test_finalize_before_ended() {
    let (_, mut deps) = init_helper();
    vote(&mut deps, &mock_env("user", 1, 10), 0, 40).unwrap();
    let before = deps.clone();
    let err = finalize(&mut deps, &mock_env("anyone", 2, 999), 100).unwrap_err();
    assert_eq!(err, ContractError::NotYetEnded);
    assert_eq!(err.message(), "vote has not ended yet");
    assert_eq!(deps, before);

    // Exactly at the end time it succeeds, once.
    let response =
        handle(&mut deps, &mock_env("anyone", 3, 1000), PollHandleMsg::Finalize {}, 100).unwrap();
    assert_eq!(
        response.data,
        Some(PollAnswer::Finalize(FinalizeAnswer {
            valid: true,
            choices: vec!["Yes".into(), "No".into()],
            tally: vec![40, 0],
        }))
    );
    assert!(deps.config.ended && deps.config.valid);
    let ended = deps.clone();
    assert_eq!(
        finalize(&mut deps, &mock_env("anyone", 4, 2000), 100),
        Err(ContractError::AlreadyEnded)
    );
    assert_eq!(deps, ended);
}

#[test]
fn finalize_needs_a_supply_to_measure_against() {
    let (_, mut deps) = init_helper();
    assert_eq!(
        finalize(&mut deps, &mock_env("anyone", 2, 1000), 0),
        Err(ContractError::DivideByZero)
    );
    deps.tally = vec![u128::MAX, 1];
    assert_eq!(
        finalize(&mut deps, &mock_env("anyone", 2, 1000), 100),
        Err(ContractError::Overflow)
    );
    deps.tally = vec![u128::MAX / 50, 0];
    assert_eq!(
        finalize(&mut deps, &mock_env("anyone", 2, 1000), 100),
        Err(ContractError::Overflow)
    );
    deps.tally = vec![];
    assert_eq!(
        finalize(&mut deps, &mock_env("anyone", 2, 1000), 100),
        Err(ContractError::CorruptTally)
    );
    assert!(!deps.config.ended);
}

#[test]
fn participation_is_rounded_down() {
    let (_, mut deps) = init_helper();
    vote(&mut deps, &mock_env("user", 1, 10), 0, 339).unwrap();
    // 100 * 339 / 1000 is 33, which does not exceed the quorum of 33.
    let response = finalize(&mut deps, &mock_env("anyone", 2, 1500), 1000).unwrap();
    match response.data {
        Some(PollAnswer::Finalize(answer)) => assert!(!answer.valid),
        other => panic!("unexpected answer: {:?}", other),
    }
    let (_, mut deps) = init_helper();
    vote(&mut deps, &mock_env("user", 1, 10), 0, 340).unwrap();
    let response = finalize(&mut deps, &mock_env("anyone", 2, 1500), 1000).unwrap();
    match response.data {
        Some(PollAnswer::Finalize(answer)) => assert!(answer.valid),
        other => panic!("unexpected answer: {:?}", other),
    }
}

#[test]
fn vote_for_an_unknown_choice_is_refused() {
    let (_, mut deps) = init_helper();
    vote(&mut deps, &mock_env("user", 1, 10), 0, 40).unwrap();
    let before = deps.clone();
    let err = vote(&mut deps, &mock_env("user", 1, 11), 2, 40).unwrap_err();
    assert_eq!(err, ContractError::UnknownChoice { choice: 2 });
    assert_eq!(err.message(), "choice 2 does not exist in this poll");
    assert_eq!(deps, before);
    assert_eq!(
        update_vote(
            &mut deps,
            &voter("user"),
            Some(Vote { choice: 7, voting_power: 1 }),
            Vote { choice: 0, voting_power: 1 }
        ),
        Err(ContractError::UnknownPreviousChoice { choice: 7 })
    );
    assert_eq!(
        update_vote(
            &mut deps,
            &voter("user"),
            Some(Vote { choice: 0, voting_power: 41 }),
            Vote { choice: 0, voting_power: 1 }
        ),
        Err(ContractError::Overflow)
    );
    assert_eq!(
        vote(&mut deps, &mock_env("other", 1, 11), 0, u128::MAX),
        Err(ContractError::Overflow)
    );
    assert_eq!(deps, before);
}

#[test]
fn tally_sums_to_the_power_of_the_votes() {
    let (_, mut deps) = init_helper();
    let factory = mock_env("factory", 1, 10);
    vote(&mut deps, &mock_env("a", 1, 10), 0, 40).unwrap();
    vote(&mut deps, &mock_env("b", 1, 10), 1, 15).unwrap();
    vote(&mut deps, &mock_env("a", 1, 10), 1, 41).unwrap();
    update_voting_power(&mut deps, &factory, voter("b"), 0).unwrap();
    vote(&mut deps, &mock_env("c", 1, 10), 0, 3).unwrap();
    update_voting_power(&mut deps, &factory, voter("a"), 100).unwrap();
    assert_eq!(deps.tally, vec![3, 100]);
    assert_eq!(deps.tally.iter().sum::<u128>(), total_power(&deps));
}

#[test]
fn store_vote_replaces_the_vote() {
    let (_, mut deps) = init_helper();
    store_vote(&mut deps, &voter("user"), 0, 5).unwrap();
    store_vote(&mut deps, &voter("user"), 1, 6).unwrap();
    assert_eq!(read_vote(&deps, &voter("user")), Ok(Vote { choice: 1, voting_power: 6 }));
    assert_eq!(deps.votes.entries.len(), 1);
    assert_eq!(read_vote(&deps, &voter("other")), Err(ContractError::NotFound));
}

#[test]
fn init_checks_the_poll() {
    let env = mock_env("factory", 0, 50);
    let with = |change: fn(&mut PollInitMsg)| {
        let mut msg = init_msg();
        change(&mut msg);
        init(&env, msg).map(|_| ())
    };
    assert_eq!(with(|m| m.choices = vec!["Yes".into()]), Err(ContractError::TooFewChoices));
    assert_eq!(with(|m| m.metadata.title = "x".into()), Err(ContractError::TitleTooShort));
    assert_eq!(
        with(|m| m.metadata.description = "too short".into()),
        Err(ContractError::DescriptionTooShort)
    );
    assert_eq!(with(|m| m.metadata.author_alias = "ab".into()), Err(ContractError::AliasTooShort));
    assert_eq!(with(|m| m.config.duration = u64::MAX), Err(ContractError::Overflow));
    assert_eq!(with(|_| ()), Ok(()));

    let hook = InitHook {
        contract_addr: voter("factory"),
        code_hash: "hash".to_string(),
        msg: MsgBody::PollFactory(PollFactoryHandleMsg::RegisterForUpdates {
            challenge: "secret".to_string(),
            end_time: 1050,
        }),
    };
    let mut msg = init_msg();
    msg.init_hook = Some(hook.clone());
    let (deps, response) = init(&env, msg).unwrap();
    assert_eq!(
        response.messages,
        vec![CosmosMsg::Wasm(WasmMsg::Execute {
            contract_addr: hook.contract_addr,
            callback_code_hash: hook.code_hash,
            msg: hook.msg,
        })]
    );
    assert_eq!(deps.owner, voter("factory"));
    assert_eq!(deps.tally, vec![0, 0]);
    assert_eq!(
        deps.config,
        StoredPollConfig {
            end_timestamp: 1050,
            quorum: 33,
            min_threshold: 0,
            choices: vec!["Yes".into(), "No".into()],
            ended: false,
            valid: false,
        }
    );
    assert_eq!(
        query(&deps, QueryMsg::Choices {}),
        Ok(QueryAnswer::Choices { choices: vec!["Yes".into(), "No".into()] })
    );
    assert_eq!(
        query(&deps, QueryMsg::VoteConfig {}),
        Ok(QueryAnswer::VoteConfig { vote_config: deps.config.clone() })
    );
}
