use cosmwasm_std::Response;
use pet_ledger::attestation::ZkTLSProof;
use pet_ledger::context::{Env, MessageInfo};
use pet_ledger::error::StdError;
use pet_ledger::pet_interaction::{
    execute, execute_process_status_degradation, execute_record_care_activity,
    execute_record_game_session, execute_update_config, execute_update_pet_status, instantiate,
    query, sessions_of, ActivityImpact, Config, ContractError, ExecuteMsg, GameSession,
    InstantiateMsg, InteractionLedger, PetCareActivity, PetStatus, PetSwap, QueryMsg,
    QueryResponse,
};

fn env(time: u64) -> Env {
    Env { time }
}

fn from(sender: &str) -> MessageInfo {
    MessageInfo { sender: sender.to_string() }
}

fn valid_proof(id: &str) -> ZkTLSProof {
    ZkTLSProof {
        id: id.to_string(),
        proof_type: "pet_care".to_string(),
        signature: "sig".to_string(),
        timestamp: 1_000,
        data_hash: "hash".to_string(),
        verified: false,
    }
}

fn bad_proof(id: &str) -> ZkTLSProof {
    let mut p = valid_proof(id);
    p.signature = String::new();
    p
}

fn status(happiness: u8) -> PetStatus {
    PetStatus {
        pet_id: "rex".to_string(),
        owner: "somebody".to_string(),
        happiness,
        hunger: 40,
        energy: 30,
        cleanliness: 20,
        last_updated: 1,
        care_streak: 0,
    }
}

fn feed(happiness_change: i8) -> PetCareActivity {
    PetCareActivity {
        pet_id: "rex".to_string(),
        owner: "somebody".to_string(),
        activity_type: "feed".to_string(),
        timestamp: 1,
        impact: ActivityImpact {
            happiness_change,
            hunger_change: -20,
            energy_change: 5,
            cleanliness_change: 0,
        },
    }
}

fn session(id: &str, completed: bool, end_time: Option<u64>) -> GameSession {
    GameSession {
        session_id: id.to_string(),
        player: "somebody".to_string(),
        pet_ids: vec!["rex".to_string(), "tom".to_string()],
        start_time: 900,
        end_time,
        max_height: 1_500,
        final_score: 42_000,
        pet_swaps: vec![PetSwap {
            from_pet: None,
            to_pet: "rex".to_string(),
            height: 10,
            timestamp: 901,
        }],
        completed,
    }
}

fn attrs(pairs: &[(&str, &str)]) -> Response {
    let mut response = Response::new();
    for (key, value) in pairs {
        response = response.add_attribute(*key, *value);
    }
    response
}

fn ledger() -> InteractionLedger {
    let msg = InstantiateMsg { admin: None, achievement_contract: None, pet_nft_contract: None };
    instantiate(env(1_000), from("admin"), msg).0
}

fn stored_status(ledger: &InteractionLedger, pet_id: &str) -> PetStatus {
    match query(ledger, env(1_000), QueryMsg::PetStatus { pet_id: pet_id.to_string() }) {
        Ok(QueryResponse::PetStatus(s)) => s.clone(),
        other => panic!("no status: {:?}", other),
    }
}

fn history(ledger: &InteractionLedger, pet_id: &str, limit: Option<u32>) -> Vec<PetCareActivity> {
    let msg = QueryMsg::PetCareHistory { pet_id: pet_id.to_string(), limit };
    match query(ledger, env(1_000), msg) {
        Ok(QueryResponse::PetCareHistory(found)) => found.into_iter().cloned().collect(),
        other => panic!("no history: {:?}", other),
    }
}

#[test]
fn instantiate_makes_the_sender_admin() {
    let msg = InstantiateMsg { admin: None, achievement_contract: None, pet_nft_contract: None };
    let (ledger, response) = instantiate(env(5), from("creator"), msg);
    assert_eq!(
        ledger.config,
        Config {
            admin: "creator".to_string(),
            achievement_contract: None,
            pet_nft_contract: None
        }
    );
    assert_eq!(response, attrs(&[("method", "instantiate"), ("admin", "creator")]));
    assert_eq!(ledger.pet_status.len(), 0);
    assert_eq!(ledger.game_sessions.len(), 0);
    assert_eq!(ledger.care_history.len(), 0);
    assert_eq!(ledger.zktls_proofs.len(), 0);
}

#[test]
fn instantiate_takes_the_named_admin() {
    let msg = InstantiateMsg {
        admin: Some("boss".to_string()),
        achievement_contract: Some("ach".to_string()),
        pet_nft_contract: Some("nft".to_string()),
    };
    let (ledger, response) = instantiate(env(5), from("creator"), msg);
    assert_eq!(
        ledger.config,
        Config {
            admin: "boss".to_string(),
            achievement_contract: Some("ach".to_string()),
            pet_nft_contract: Some("nft".to_string()),
        }
    );
    assert_eq!(response, attrs(&[("method", "instantiate"), ("admin", "boss")]));
}

#[test]
fn update_config_is_for_the_admin() {
    let mut l = ledger();
    let r = execute_update_config(&mut l, from("eve"), Some("eve".to_string()), None, None);
    assert_eq!(r, Err(ContractError::Unauthorized {}));
    assert_eq!(l.config.admin, "admin");
}

#[test]
fn update_config_replaces_what_is_named() {
    let mut l = ledger();
    let r = execute_update_config(&mut l, from("admin"), None, Some("ach".to_string()), None);
    assert_eq!(r, Ok(attrs(&[("method", "update_config")])));
    assert_eq!(
        l.config,
        Config {
            admin: "admin".to_string(),
            achievement_contract: Some("ach".to_string()),
            pet_nft_contract: None
        }
    );
    let r = execute_update_config(
        &mut l,
        from("admin"),
        Some("next".to_string()),
        None,
        Some("nft".to_string()),
    );
    assert!(r.is_ok());
    assert_eq!(
        l.config,
        Config {
            admin: "next".to_string(),
            achievement_contract: Some("ach".to_string()),
            pet_nft_contract: Some("nft".to_string()),
        }
    );
    let r = execute_update_config(&mut l, from("admin"), None, None, None);
    assert_eq!(r, Err(ContractError::Unauthorized {}));
}

#[test]
fn status_update_then_care_activity_scenario() {
    let mut l = ledger();
    let r = execute(
        &mut l,
        env(1_000),
        from("alice"),
        ExecuteMsg::UpdatePetStatus {
            pet_id: "rex".to_string(),
            status: status(50),
            proof: valid_proof("att1"),
        },
    );
    assert_eq!(
        r,
        Ok(attrs(&[
            ("method", "update_pet_status"),
            ("pet_id", "rex"),
            ("owner", "alice"),
            ("happiness", "50"),
        ]))
    );
    let stored = stored_status(&l, "rex");
    assert_eq!(stored.owner, "alice");
    assert_eq!(stored.happiness, 50);
    assert_eq!(stored.last_updated, 1_000);
    assert_eq!(stored.care_streak, 0);

    let r = execute(
        &mut l,
        env(1_010),
        from("alice"),
        ExecuteMsg::RecordCareActivity {
            pet_id: "rex".to_string(),
            activity: feed(10),
            proof: valid_proof("att2"),
        },
    );
    assert_eq!(
        r,
        Ok(attrs(&[
            ("method", "record_care_activity"),
            ("pet_id", "rex"),
            ("activity_type", "feed"),
            ("owner", "alice"),
        ]))
    );
    let stored = stored_status(&l, "rex");
    assert_eq!(stored.happiness, 60);
    assert_eq!(stored.hunger, 20);
    assert_eq!(stored.energy, 35);
    assert_eq!(stored.cleanliness, 20);
    assert_eq!(stored.care_streak, 1);
    assert_eq!(stored.last_updated, 1_010);
    assert_eq!(stored.owner, "alice");

    let mut expected = feed(10);
    expected.owner = "alice".to_string();
    expected.timestamp = 1_010;
    assert_eq!(history(&l, "rex", Some(1)), vec![expected]);
}

#[test]
fn status_update_forces_owner_and_time() {
    let mut l = ledger();
    let mut s = status(70);
    s.owner = "mallory".to_string();
    s.last_updated = 999_999;
    execute_update_pet_status(&mut l, env(1_234), from("alice"), "rex".to_string(), s, valid_proof("p"))
        .unwrap();
    let stored = stored_status(&l, "rex");
    assert_eq!(stored.owner, "alice");
    assert_eq!(stored.last_updated, 1_234);
}

#[test]
fn status_update_lets_anybody_take_a_record_over() {
    let mut l = ledger();
    execute_update_pet_status(
        &mut l,
        env(1_000),
        from("alice"),
        "rex".to_string(),
        status(50),
        valid_proof("att1"),
    )
    .unwrap();
    execute_update_pet_status(
        &mut l,
        env(1_001),
        from("bob"),
        "rex".to_string(),
        status(10),
        valid_proof("att2"),
    )
    .unwrap();
    let stored = stored_status(&l, "rex");
    assert_eq!(stored.owner, "bob");
    assert_eq!(stored.happiness, 10);
    assert_eq!(l.pet_status.len(), 1);
}

#[test]
fn status_update_keeps_an_oversized_counter() {
    let mut l = ledger();
    execute_update_pet_status(
        &mut l,
        env(1_000),
        from("alice"),
        "rex".to_string(),
        status(200),
        valid_proof("att1"),
    )
    .unwrap();
    assert_eq!(stored_status(&l, "rex").happiness, 200);
}

#[test]
fn status_is_stored_under_the_key_not_under_its_own_field() {
    let mut l = ledger();
    execute_update_pet_status(
        &mut l,
        env(1_000),
        from("alice"),
        "tom".to_string(),
        status(50),
        valid_proof("att1"),
    )
    .unwrap();
    assert_eq!(stored_status(&l, "tom").pet_id, "rex");
    let r = query(&l, env(1_000), QueryMsg::PetStatus { pet_id: "rex".to_string() });
    assert_eq!(r, Err(StdError::NotFound {}));
}

#[test]
fn invalid_proof_stops_every_operation_and_changes_nothing() {
    let mut l = ledger();
    execute_update_pet_status(
        &mut l,
        env(1_000),
        from("alice"),
        "rex".to_string(),
        status(50),
        valid_proof("att1"),
    )
    .unwrap();

    let r = execute_update_pet_status(
        &mut l,
        env(1_000),
        from("alice"),
        "rex".to_string(),
        status(99),
        bad_proof("b1"),
    );
    assert_eq!(r, Err(ContractError::InvalidProof {}));
    let r = execute_record_care_activity(
        &mut l,
        env(1_000),
        from("alice"),
        "rex".to_string(),
        feed(10),
        bad_proof("b2"),
    );
    assert_eq!(r, Err(ContractError::InvalidProof {}));
    let r = execute_record_game_session(
        &mut l,
        env(1_000),
        from("alice"),
        session("s1", true, None),
        bad_proof("b3"),
    );
    assert_eq!(r, Err(ContractError::InvalidProof {}));
    let r = execute_process_status_degradation(
        &mut l,
        env(1_000),
        from("alice"),
        "rex".to_string(),
        status(50),
        status(1),
        bad_proof("b4"),
    );
    assert_eq!(r, Err(ContractError::InvalidProof {}));

    assert_eq!(stored_status(&l, "rex").happiness, 50);
    assert_eq!(l.pet_status.len(), 1);
    assert_eq!(l.care_history.len(), 0);
    assert_eq!(l.game_sessions.len(), 0);
    assert_eq!(l.zktls_proofs.len(), 1);
}

#[test]
fn proof_from_the_far_future_is_invalid() {
    let mut l = ledger();
    let mut p = valid_proof("att1");
    p.timestamp = 1_301;
    let r = execute_update_pet_status(
        &mut l,
        env(1_000),
        from("alice"),
        "rex".to_string(),
        status(50),
        p,
    );
    assert_eq!(r, Err(ContractError::InvalidProof {}));
    let mut p = valid_proof("att1");
    p.timestamp = 1_300;
    let r = execute_update_pet_status(
        &mut l,
        env(1_000),
        from("alice"),
        "rex".to_string(),
        status(50),
        p,
    );
    assert!(r.is_ok());
}

#[test]
fn care_from_a_stranger_leaves_the_counters_and_is_recorded() {
    let mut l = ledger();
    execute_update_pet_status(
        &mut l,
        env(1_000),
        from("alice"),
        "rex".to_string(),
        status(50),
        valid_proof("att1"),
    )
    .unwrap();
    let before = stored_status(&l, "rex");
    let r = execute_record_care_activity(
        &mut l,
        env(1_050),
        from("bob"),
        "rex".to_string(),
        feed(10),
        valid_proof("att2"),
    );
    assert!(r.is_ok());
    assert_eq!(stored_status(&l, "rex"), before);
    let found = history(&l, "rex", None);
    assert_eq!(found.len(), 1);
    assert_eq!(found[0].owner, "bob");
    assert_eq!(found[0].timestamp, 1_050);
    assert_eq!(found[0].activity_type, "feed");
}

#[test]
fn care_for_an_unknown_pet_is_recorded_without_a_record() {
    let mut l = ledger();
    let r = execute_record_care_activity(
        &mut l,
        env(1_050),
        from("bob"),
        "ghost".to_string(),
        feed(10),
        valid_proof("att2"),
    );
    assert!(r.is_ok());
    assert_eq!(l.pet_status.len(), 0);
    assert_eq!(history(&l, "ghost", None).len(), 1);
    assert_eq!(l.zktls_proofs.len(), 1);
}

#[test]
fn care_clamps_at_both_ends() {
    let mut l = ledger();
    let mut s = status(95);
    s.hunger = 5;
    execute_update_pet_status(&mut l, env(1_000), from("alice"), "rex".to_string(), s, valid_proof("p"))
        .unwrap();
    execute_record_care_activity(
        &mut l,
        env(1_001),
        from("alice"),
        "rex".to_string(),
        feed(10),
        valid_proof("q"),
    )
    .unwrap();
    let stored = stored_status(&l, "rex");
    assert_eq!(stored.happiness, 100);
    assert_eq!(stored.hunger, 0);
}

#[test]
fn care_streak_counts_accepted_activities() {
    let mut l = ledger();
    execute_update_pet_status(
        &mut l,
        env(1_000),
        from("alice"),
        "rex".to_string(),
        status(50),
        valid_proof("p"),
    )
    .unwrap();
    for i in 0..5u64 {
        execute_record_care_activity(
            &mut l,
            env(1_001 + i),
            from("alice"),
            "rex".to_string(),
            feed(1),
            valid_proof("q"),
        )
        .unwrap();
    }
    assert_eq!(stored_status(&l, "rex").care_streak, 5);
    assert_eq!(stored_status(&l, "rex").happiness, 55);
    assert_eq!(history(&l, "rex", None).len(), 5);
    assert_eq!(history(&l, "rex", Some(2)).len(), 2);
    assert_eq!(history(&l, "rex", Some(2))[0].timestamp, 1_005);
    assert_eq!(history(&l, "rex", Some(2))[1].timestamp, 1_004);
}

#[test]
fn history_defaults_to_fifty_entries() {
    let mut l = ledger();
    for i in 0..60u64 {
        execute_record_care_activity(
            &mut l,
            env(1_001 + i),
            from("alice"),
            "rex".to_string(),
            feed(1),
            valid_proof("q"),
        )
        .unwrap();
    }
    let found = history(&l, "rex", None);
    assert_eq!(found.len(), 50);
    assert_eq!(found[0].timestamp, 1_060);
    assert_eq!(found[49].timestamp, 1_011);
    assert_eq!(history(&l, "rex", Some(60)).len(), 60);
    assert_eq!(history(&l, "rex", Some(0)).len(), 0);
}

#[test]
fn degradation_by_a_stranger_is_unauthorized() {
    let mut l = ledger();
    execute_update_pet_status(
        &mut l,
        env(1_000),
        from("alice"),
        "rex".to_string(),
        status(50),
        valid_proof("att1"),
    )
    .unwrap();
    let r = execute(
        &mut l,
        env(1_001),
        from("bob"),
        ExecuteMsg::ProcessStatusDegradation {
            pet_id: "rex".to_string(),
            old_status: status(50),
            new_status: status(10),
            proof: valid_proof("att2"),
        },
    );
    assert_eq!(r, Err(ContractError::Unauthorized {}));
    assert_eq!(stored_status(&l, "rex").happiness, 50);
    assert_eq!(l.zktls_proofs.len(), 1);
}

#[test]
fn degradation_by_the_owner_stores_the_new_state_as_it_stands() {
    let mut l = ledger();
    execute_update_pet_status(
        &mut l,
        env(1_000),
        from("alice"),
        "rex".to_string(),
        status(50),
        valid_proof("att1"),
    )
    .unwrap();
    let mut new_status = status(10);
    new_status.owner = "carol".to_string();
    new_status.last_updated = 77;
    new_status.energy = 250;
    let r = execute_process_status_degradation(
        &mut l,
        env(1_001),
        from("alice"),
        "rex".to_string(),
        status(50),
        new_status.clone(),
        valid_proof("att2"),
    );
    assert_eq!(
        r,
        Ok(attrs(&[
            ("method", "process_status_degradation"),
            ("pet_id", "rex"),
            ("new_happiness", "10"),
        ]))
    );
    assert_eq!(stored_status(&l, "rex"), new_status);
}

#[test]
fn degradation_of_an_unknown_pet_creates_the_record() {
    let mut l = ledger();
    let r = execute_process_status_degradation(
        &mut l,
        env(1_001),
        from("bob"),
        "rex".to_string(),
        status(50),
        status(10),
        valid_proof("att2"),
    );
    assert!(r.is_ok());
    assert_eq!(stored_status(&l, "rex"), status(10));
}

#[test]
fn completed_session_without_end_time_ends_at_submission() {
    let mut l = ledger();
    let r = execute(
        &mut l,
        env(1_111),
        from("alice"),
        ExecuteMsg::RecordGameSession { session: session("s1", true, None), proof: valid_proof("p") },
    );
    assert_eq!(
        r,
        Ok(attrs(&[
            ("method", "record_game_session"),
            ("session_id", "s1"),
            ("player", "alice"),
            ("final_score", "42000"),
        ]))
    );
    let mut expected = session("s1", true, Some(1_111));
    expected.player = "alice".to_string();
    let found = query(&l, env(1_111), QueryMsg::GameSession { session_id: "s1".to_string() });
    assert_eq!(found, Ok(QueryResponse::GameSession(&expected)));
}

#[test]
fn completed_session_keeps_a_supplied_end_time() {
    let mut l = ledger();
    execute_record_game_session(
        &mut l,
        env(1_111),
        from("alice"),
        session("s1", true, Some(950)),
        valid_proof("p"),
    )
    .unwrap();
    assert_eq!(l.game_sessions.get(&"s1".to_string()).unwrap().end_time, Some(950));
}

#[test]
fn open_session_has_no_end_time() {
    let mut l = ledger();
    execute_record_game_session(
        &mut l,
        env(1_111),
        from("alice"),
        session("s1", false, None),
        valid_proof("p"),
    )
    .unwrap();
    let stored = l.game_sessions.get(&"s1".to_string()).unwrap();
    assert_eq!(stored.end_time, None);
    assert!(!stored.completed);
    assert_eq!(stored.player, "alice");
}

#[test]
fn session_is_replaced_as_a_whole() {
    let mut l = ledger();
    execute_record_game_session(
        &mut l,
        env(1_000),
        from("alice"),
        session("s1", false, None),
        valid_proof("att1"),
    )
    .unwrap();
    let mut second = session("s1", true, None);
    second.pet_swaps = Vec::new();
    second.final_score = 7;
    execute_record_game_session(&mut l, env(1_100), from("bob"), second, valid_proof("att2")).unwrap();
    assert_eq!(l.game_sessions.len(), 1);
    let stored = l.game_sessions.get(&"s1".to_string()).unwrap();
    assert_eq!(stored.player, "bob");
    assert_eq!(stored.final_score, 7);
    assert!(stored.pet_swaps.is_empty());
    assert_eq!(stored.end_time, Some(1_100));
}

#[test]
fn sessions_of_a_player_come_last_stored_first() {
    let mut l = ledger();
    for (id, player) in [("s1", "alice"), ("s2", "bob"), ("s3", "alice"), ("s4", "alice")] {
        execute_record_game_session(
            &mut l,
            env(1_000),
            from(player),
            session(id, false, None),
            valid_proof("p"),
        )
        .unwrap();
    }
    let ids = |found: Vec<&GameSession>| -> Vec<String> {
        found.into_iter().map(|s| s.session_id.clone()).collect()
    };
    assert_eq!(ids(sessions_of(&l.game_sessions, "alice", 50)), vec!["s4", "s3", "s1"]);
    assert_eq!(ids(sessions_of(&l.game_sessions, "alice", 2)), vec!["s4", "s3"]);
    assert_eq!(ids(sessions_of(&l.game_sessions, "bob", 50)), vec!["s2"]);
    assert!(sessions_of(&l.game_sessions, "carol", 50).is_empty());
    assert!(sessions_of(&l.game_sessions, "alice", 0).is_empty());

    let msg = QueryMsg::UserGameSessions { user: "alice".to_string(), limit: Some(1) };
    match query(&l, env(1_000), msg) {
        Ok(QueryResponse::UserGameSessions(found)) => assert_eq!(ids(found), vec!["s4"]),
        other => panic!("unexpected answer: {:?}", other),
    }
    let msg = QueryMsg::UserGameSessions { user: "alice".to_string(), limit: None };
    match query(&l, env(1_000), msg) {
        Ok(QueryResponse::UserGameSessions(found)) => {
            assert_eq!(ids(found), vec!["s4", "s3", "s1"])
        }
        other => panic!("unexpected answer: {:?}", other),
    }
}

#[test]
fn proof_store_is_last_write_wins_across_operations() {
    let mut l = ledger();
    let mut first = valid_proof("shared");
    first.proof_type = "pet_status".to_string();
    execute_update_pet_status(
        &mut l,
        env(1_000),
        from("alice"),
        "rex".to_string(),
        status(50),
        first,
    )
    .unwrap();
    let mut second = valid_proof("shared");
    second.proof_type = "game_session".to_string();
    execute_record_game_session(
        &mut l,
        env(1_000),
        from("bob"),
        session("s1", false, None),
        second.clone(),
    )
    .unwrap();
    assert_eq!(l.zktls_proofs.len(), 1);
    let found = query(&l, env(1_000), QueryMsg::ProofStatus { proof_id: "shared".to_string() });
    assert_eq!(found, Ok(QueryResponse::ProofStatus(&second)));
}

#[test]
fn point_lookups_of_absent_keys_fail() {
    let l = ledger();
    assert_eq!(
        query(&l, env(1), QueryMsg::PetStatus { pet_id: "x".to_string() }),
        Err(StdError::NotFound {})
    );
    assert_eq!(
        query(&l, env(1), QueryMsg::GameSession { session_id: "x".to_string() }),
        Err(StdError::NotFound {})
    );
    assert_eq!(
        query(&l, env(1), QueryMsg::ProofStatus { proof_id: "x".to_string() }),
        Err(StdError::NotFound {})
    );
}

#[test]
fn scans_of_absent_keys_are_empty() {
    let l = ledger();
    assert_eq!(
        query(&l, env(1), QueryMsg::PetCareHistory { pet_id: "x".to_string(), limit: None }),
        Ok(QueryResponse::PetCareHistory(Vec::new()))
    );
    assert_eq!(
        query(&l, env(1), QueryMsg::UserGameSessions { user: "x".to_string(), limit: None }),
        Ok(QueryResponse::UserGameSessions(Vec::new()))
    );
}

#[test]
fn config_query_returns_the_config() {
    let l = ledger();
    assert_eq!(query(&l, env(1), QueryMsg::Config {}), Ok(QueryResponse::Config(&l.config)));
}

#[test]
fn execute_dispatches_update_config() {
    let mut l = ledger();
    let msg = ExecuteMsg::UpdateConfig {
        admin: Some("next".to_string()),
        achievement_contract: None,
        pet_nft_contract: None,
    };
    assert_eq!(execute(&mut l, env(1), from("eve"), msg.clone()), Err(ContractError::Unauthorized {}));
    assert!(execute(&mut l, env(1), from("admin"), msg).is_ok());
    assert_eq!(l.config.admin, "next");
}

#[test]
fn responses_hold_attributes_in_order_and_nothing_else() {
    let mut l = ledger();
    let response = execute_update_pet_status(
        &mut l,
        env(1_000),
        from("alice"),
        "rex".to_string(),
        status(7),
        valid_proof("att1"),
    )
    .unwrap();
    let listed: Vec<(String, String)> =
        response.attributes.iter().map(|a| (a.key.clone(), a.value.clone())).collect();
    assert_eq!(
        listed,
        vec![
            ("method".to_string(), "update_pet_status".to_string()),
            ("pet_id".to_string(), "rex".to_string()),
            ("owner".to_string(), "alice".to_string()),
            ("happiness".to_string(), "7".to_string()),
        ]
    );
    assert!(response.messages.is_empty());
    assert!(response.events.is_empty());
    assert!(response.data.is_none());
}

#[test]
fn instantiate_response_holds_nothing_but_attributes() {
    let msg = InstantiateMsg { admin: None, achievement_contract: None, pet_nft_contract: None };
    let (_, response) = instantiate(env(5), from("creator"), msg);
    assert_eq!(response.attributes.len(), 2);
    assert!(response.messages.is_empty());
    assert!(response.events.is_empty());
    assert!(response.data.is_none());
}
