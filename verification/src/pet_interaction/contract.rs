//! The pet interaction ledger and its operations.
//!
//! Every mutating operation validates its attestation first and changes
//! nothing when it refuses; an accepted operation stores its attestation
//! under the attestation's identifier, last write wins.

use vstd::prelude::*;
use vstd::string::*;
use cosmwasm_std::Response;
use crate::attestation::{proof_is_valid, validate_zktls_proof, ZkTLSProof};
use crate::context::{Env, MessageInfo};
use crate::error::StdError;
use crate::pet_interaction::history::{recent_activities, slot_for, CareHistory, HistoryEntry};
use crate::pet_interaction::msg::{
    page_size,
    Config,
    ContractError,
    ExecuteMsg,
    InstantiateMsg,
    QueryMsg,
    QueryResponse,
    DEFAULT_LIMIT,
};
use crate::pet_interaction::session::{played_by, GameSession};
use crate::pet_interaction::vitals::{care_effect, PetCareActivity, PetStatus};
use crate::recent::{latest_matching, lemma_scan_done, lemma_scan_step, targets};
use crate::response::{
    attributes_of,
    decimal_digits,
    decimal_string,
    new_response,
    reports,
    reserved,
    with_attribute,
};
use crate::table::{Contents, Table};

verus! {

/// The whole state of the pet interaction ledger.
pub struct InteractionLedger {
    pub config: Config,
    pub pet_status: Table<String, PetStatus>,
    pub game_sessions: Table<String, GameSession>,
    pub care_history: CareHistory,
    pub zktls_proofs: Table<String, ZkTLSProof>,
}

/// The configuration that [`instantiate`] stores.
pub open spec fn initial_config(info: MessageInfo, msg: InstantiateMsg) -> Config {
    Config {
        admin: match msg.admin {
            Some(admin) => admin,
            None => info.sender,
        },
        achievement_contract: msg.achievement_contract,
        pet_nft_contract: msg.pet_nft_contract,
    }
}

/// The configuration after an update: each part that the message names
/// replaces the stored one, the others stay.
pub open spec fn updated_config(
    config: Config,
    admin: Option<String>,
    achievement_contract: Option<String>,
    pet_nft_contract: Option<String>,
) -> Config {
    Config {
        admin: match admin {
            Some(a) => a,
            None => config.admin,
        },
        achievement_contract: match achievement_contract {
            Some(c) => Some(c),
            None => config.achievement_contract,
        },
        pet_nft_contract: match pet_nft_contract {
            Some(c) => Some(c),
            None => config.pet_nft_contract,
        },
    }
}

/// `after` differs from `before` at most in the stored pet records and in
/// the stored attestations.
pub open spec fn only_status_and_proofs_change(
    before: InteractionLedger,
    after: InteractionLedger,
) -> bool {
    &&& after.config == before.config
    &&& after.game_sessions == before.game_sessions
    &&& after.care_history == before.care_history
}

/// What [`execute_update_config`] does.
pub open spec fn update_config_outcome(
    before: InteractionLedger,
    info: MessageInfo,
    admin: Option<String>,
    achievement_contract: Option<String>,
    pet_nft_contract: Option<String>,
    after: InteractionLedger,
    r: Result<Response, ContractError>,
) -> bool {
    if info.sender@ != before.config.admin@ {
        r == Err::<Response, ContractError>(ContractError::Unauthorized {  }) && after == before
    } else {
        &&& r is Ok
        &&& reports(r->Ok_0, seq![("method"@, "update_config"@)])
        &&& after.config == updated_config(
            before.config,
            admin,
            achievement_contract,
            pet_nft_contract,
        )
        &&& after.pet_status == before.pet_status
        &&& after.game_sessions == before.game_sessions
        &&& after.care_history == before.care_history
        &&& after.zktls_proofs == before.zktls_proofs
    }
}

/// What [`execute_update_pet_status`] does.
pub open spec fn update_pet_status_outcome(
    before: InteractionLedger,
    env: Env,
    info: MessageInfo,
    pet_id: String,
    status: PetStatus,
    proof: ZkTLSProof,
    after: InteractionLedger,
    r: Result<Response, ContractError>,
) -> bool {
    if !proof_is_valid(proof, env.time) {
        r == Err::<Response, ContractError>(ContractError::InvalidProof {  }) && after == before
    } else {
        &&& r is Ok
        &&& reports(r->Ok_0, seq![
            ("method"@, "update_pet_status"@),
            ("pet_id"@, pet_id@),
            ("owner"@, info.sender@),
            ("happiness"@, decimal_digits(status.happiness as nat)),
        ])
        &&& only_status_and_proofs_change(before, after)
        &&& after.pet_status@ == before.pet_status@.insert(
            pet_id@,
            status.claimed_by(info.sender, env.time),
        )
        &&& after.zktls_proofs@ == before.zktls_proofs@.insert(proof.id@, proof)
    }
}

/// What [`execute_record_care_activity`] does.
pub open spec fn record_care_activity_outcome(
    before: InteractionLedger,
    env: Env,
    info: MessageInfo,
    pet_id: String,
    activity: PetCareActivity,
    proof: ZkTLSProof,
    after: InteractionLedger,
    r: Result<Response, ContractError>,
) -> bool {
    if !proof_is_valid(proof, env.time) {
        r == Err::<Response, ContractError>(ContractError::InvalidProof {  }) && after == before
    } else {
        &&& r is Ok
        &&& reports(r->Ok_0, seq![
            ("method"@, "record_care_activity"@),
            ("pet_id"@, pet_id@),
            ("activity_type"@, activity.activity_type@),
            ("owner"@, info.sender@),
        ])
        &&& after.config == before.config
        &&& after.game_sessions == before.game_sessions
        &&& after.pet_status@ == match care_effect(
            before.pet_status@.get(pet_id@),
            info.sender@,
            activity.impact,
            env.time,
        ) {
            Some(cared) => before.pet_status@.insert(pet_id@, cared),
            None => before.pet_status@,
        }
        &&& after.care_history@ == before.care_history@.insert(
            slot_for(before.care_history@, env.time),
            HistoryEntry { pet_id, activity: activity.stamped(info.sender, env.time) },
        )
        &&& after.zktls_proofs@ == before.zktls_proofs@.insert(proof.id@, proof)
    }
}

/// What [`execute_record_game_session`] does.
pub open spec fn record_game_session_outcome(
    before: InteractionLedger,
    env: Env,
    info: MessageInfo,
    session: GameSession,
    proof: ZkTLSProof,
    after: InteractionLedger,
    r: Result<Response, ContractError>,
) -> bool {
    if !proof_is_valid(proof, env.time) {
        r == Err::<Response, ContractError>(ContractError::InvalidProof {  }) && after == before
    } else {
        &&& r is Ok
        &&& reports(r->Ok_0, seq![
            ("method"@, "record_game_session"@),
            ("session_id"@, session.session_id@),
            ("player"@, info.sender@),
            ("final_score"@, decimal_digits(session.final_score as nat)),
        ])
        &&& after.config == before.config
        &&& after.pet_status == before.pet_status
        &&& after.care_history == before.care_history
        &&& after.game_sessions@ == before.game_sessions@.insert(
            session.session_id@,
            session.accepted(info.sender, env.time),
        )
        &&& after.zktls_proofs@ == before.zktls_proofs@.insert(proof.id@, proof)
    }
}

/// Whether `sender` may overwrite the record of `pet_id`: a record that
/// exists answers to its owner alone, an absent one to anybody.
pub open spec fn may_degrade(
    before: InteractionLedger,
    pet_id: Seq<char>,
    sender: Seq<char>,
) -> bool {
    match before.pet_status@.get(pet_id) {
        Some(current) => current.owner@ == sender,
        None => true,
    }
}

/// What [`execute_process_status_degradation`] does.
pub open spec fn process_status_degradation_outcome(
    before: InteractionLedger,
    info: MessageInfo,
    pet_id: String,
    new_status: PetStatus,
    proof: ZkTLSProof,
    now: u64,
    after: InteractionLedger,
    r: Result<Response, ContractError>,
) -> bool {
    if !proof_is_valid(proof, now) {
        r == Err::<Response, ContractError>(ContractError::InvalidProof {  }) && after == before
    } else if !may_degrade(before, pet_id@, info.sender@) {
        r == Err::<Response, ContractError>(ContractError::Unauthorized {  }) && after == before
    } else {
        &&& r is Ok
        &&& reports(r->Ok_0, seq![
            ("method"@, "process_status_degradation"@),
            ("pet_id"@, pet_id@),
            ("new_happiness"@, decimal_digits(new_status.happiness as nat)),
        ])
        &&& only_status_and_proofs_change(before, after)
        &&& after.pet_status@ == before.pet_status@.insert(pet_id@, new_status)
        &&& after.zktls_proofs@ == before.zktls_proofs@.insert(proof.id@, proof)
    }
}

/// What [`execute`] does: the outcome of the operation that the message
/// names.
pub open spec fn execute_outcome(
    before: InteractionLedger,
    env: Env,
    info: MessageInfo,
    msg: ExecuteMsg,
    after: InteractionLedger,
    r: Result<Response, ContractError>,
) -> bool {
    match msg {
        ExecuteMsg::UpdateConfig { admin, achievement_contract, pet_nft_contract } => {
            update_config_outcome(
                before,
                info,
                admin,
                achievement_contract,
                pet_nft_contract,
                after,
                r,
            )
        },
        ExecuteMsg::UpdatePetStatus { pet_id, status, proof } => {
            update_pet_status_outcome(before, env, info, pet_id, status, proof, after, r)
        },
        ExecuteMsg::RecordCareActivity { pet_id, activity, proof } => {
            record_care_activity_outcome(before, env, info, pet_id, activity, proof, after, r)
        },
        ExecuteMsg::RecordGameSession { session, proof } => {
            record_game_session_outcome(before, env, info, session, proof, after, r)
        },
        ExecuteMsg::ProcessStatusDegradation { pet_id, old_status, new_status, proof } => {
            process_status_degradation_outcome(
                before,
                info,
                pet_id,
                new_status,
                proof,
                env.time,
                after,
                r,
            )
        },
    }
}

/// What [`query`] answers.
pub open spec fn query_outcome(
    ledger: InteractionLedger,
    msg: QueryMsg,
    r: Result<QueryResponse<'_>, StdError>,
) -> bool {
    match msg {
        QueryMsg::Config {  } => r matches Ok(QueryResponse::Config(c)) && *c == ledger.config,
        QueryMsg::PetStatus { pet_id } => match ledger.pet_status@.get(pet_id@) {
            Some(status) => r matches Ok(QueryResponse::PetStatus(s)) && *s == status,
            None => r == Err::<QueryResponse<'_>, StdError>(StdError::NotFound {  }),
        },
        QueryMsg::GameSession { session_id } => match ledger.game_sessions@.get(session_id@) {
            Some(session) => r matches Ok(QueryResponse::GameSession(s)) && *s == session,
            None => r == Err::<QueryResponse<'_>, StdError>(StdError::NotFound {  }),
        },
        QueryMsg::PetCareHistory { pet_id, limit } => {
            r matches Ok(QueryResponse::PetCareHistory(found)) && targets(found@)
                == recent_activities(ledger.care_history@, pet_id@, page_size(limit))
        },
        QueryMsg::UserGameSessions { user, limit } => {
            r matches Ok(QueryResponse::UserGameSessions(found)) && targets(found@)
                == latest_matching(
                ledger.game_sessions@.values(),
                played_by(user@),
                page_size(limit),
            )
        },
        QueryMsg::ProofStatus { proof_id } => match ledger.zktls_proofs@.get(proof_id@) {
            Some(proof) => r matches Ok(QueryResponse::ProofStatus(p)) && *p == proof,
            None => r == Err::<QueryResponse<'_>, StdError>(StdError::NotFound {  }),
        },
    }
}

/// Sets up a ledger that holds nothing but its configuration. The sender
/// administers it unless the message names somebody else.
pub fn instantiate(env: Env, info: MessageInfo, msg: InstantiateMsg) -> (r: (
    InteractionLedger,
    Response,
))
    ensures
        r.0.config == initial_config(info, msg),
        r.0.pet_status@ == Contents::<Seq<char>, PetStatus>::empty(),
        r.0.game_sessions@ == Contents::<Seq<char>, GameSession>::empty(),
        r.0.care_history@ == Seq::<HistoryEntry>::empty(),
        r.0.zktls_proofs@ == Contents::<Seq<char>, ZkTLSProof>::empty(),
        reports(r.1, seq![("method"@, "instantiate"@), ("admin"@, r.0.config.admin@)]),
{
    proof {
        lemma_keys_are_free();
    }
    let admin = match msg.admin {
        Some(admin) => admin,
        None => info.sender,
    };
    let response = new_response();
    let response = with_attribute(response, "method", String::from_str("instantiate"));
    let response = with_attribute(response, "admin", admin.clone());
    assert(attributes_of(response) =~= seq![("method"@, "instantiate"@), ("admin"@, admin@)]);
    let ledger = InteractionLedger {
        config: Config {
            admin,
            achievement_contract: msg.achievement_contract,
            pet_nft_contract: msg.pet_nft_contract,
        },
        pet_status: Table::new(),
        game_sessions: Table::new(),
        care_history: CareHistory::new(),
        zktls_proofs: Table::new(),
    };
    (ledger, response)
}

/// Applies one mutating operation to the ledger.
pub fn execute(ledger: &mut InteractionLedger, env: Env, info: MessageInfo, msg: ExecuteMsg) -> (r:
    Result<Response, ContractError>)
    ensures
        execute_outcome(*old(ledger), env, info, msg, *final(ledger), r),
{
    match msg {
        ExecuteMsg::UpdateConfig { admin, achievement_contract, pet_nft_contract } => {
            execute_update_config(ledger, info, admin, achievement_contract, pet_nft_contract)
        },
        ExecuteMsg::UpdatePetStatus { pet_id, status, proof } => {
            execute_update_pet_status(ledger, env, info, pet_id, status, proof)
        },
        ExecuteMsg::RecordCareActivity { pet_id, activity, proof } => {
            execute_record_care_activity(ledger, env, info, pet_id, activity, proof)
        },
        ExecuteMsg::RecordGameSession { session, proof } => {
            execute_record_game_session(ledger, env, info, session, proof)
        },
        ExecuteMsg::ProcessStatusDegradation { pet_id, old_status, new_status, proof } => {
            execute_process_status_degradation(
                ledger,
                env,
                info,
                pet_id,
                old_status,
                new_status,
                proof,
            )
        },
    }
}

/// Replaces the parts of the configuration that the message names. Only the
/// administrator may do so.
pub fn execute_update_config(
    ledger: &mut InteractionLedger,
    info: MessageInfo,
    admin: Option<String>,
    achievement_contract: Option<String>,
    pet_nft_contract: Option<String>,
) -> (r: Result<Response, ContractError>)
    ensures
        update_config_outcome(
            *old(ledger),
            info,
            admin,
            achievement_contract,
            pet_nft_contract,
            *final(ledger),
            r,
        ),
{
    proof {
        lemma_keys_are_free();
    }
    if info.sender != ledger.config.admin {
        return Err(ContractError::Unauthorized {  });
    }
    if let Some(admin_addr) = admin {
        ledger.config.admin = admin_addr;
    }
    if let Some(contract_addr) = achievement_contract {
        ledger.config.achievement_contract = Some(contract_addr);
    }
    if let Some(contract_addr) = pet_nft_contract {
        ledger.config.pet_nft_contract = Some(contract_addr);
    }
    let response = new_response();
    let response = with_attribute(response, "method", String::from_str("update_config"));
    assert(attributes_of(response) =~= seq![("method"@, "update_config"@)]);
    Ok(response)
}

/// Stores `status` as the record of `pet_id`, with the sender as its owner
/// and the block time as its time of update. No earlier owner is asked.
pub fn execute_update_pet_status(
    ledger: &mut InteractionLedger,
    env: Env,
    info: MessageInfo,
    pet_id: String,
    status: PetStatus,
    proof: ZkTLSProof,
) -> (r: Result<Response, ContractError>)
    ensures
        update_pet_status_outcome(
            *old(ledger),
            env,
            info,
            pet_id,
            status,
            proof,
            *final(ledger),
            r,
        ),
{
    proof {
        lemma_keys_are_free();
    }
    if !validate_zktls_proof(&proof, env.time) {
        return Err(ContractError::InvalidProof {  });
    }
    let response = new_response();
    let response = with_attribute(response, "method", String::from_str("update_pet_status"));
    let response = with_attribute(response, "pet_id", pet_id.clone());
    let response = with_attribute(response, "owner", info.sender.clone());
    let response = with_attribute(response, "happiness", decimal_string(status.happiness as u128));
    assert(attributes_of(response) =~= seq![
        ("method"@, "update_pet_status"@),
        ("pet_id"@, pet_id@),
        ("owner"@, info.sender@),
        ("happiness"@, decimal_digits(status.happiness as nat)),
    ]);
    let stored = status.claim(info.sender, env.time);
    ledger.pet_status.insert(pet_id, stored);
    ledger.zktls_proofs.insert(proof.id.clone(), proof);
    Ok(response)
}

/// Records a care activity under `pet_id`, stamped with the sender and the
/// block time. Where the pet has a record and the sender owns it, the
/// activity moves the record's counters; in every other case the record
/// stays as it is and the activity is recorded all the same.
pub fn execute_record_care_activity(
    ledger: &mut InteractionLedger,
    env: Env,
    info: MessageInfo,
    pet_id: String,
    activity: PetCareActivity,
    proof: ZkTLSProof,
) -> (r: Result<Response, ContractError>)
    ensures
        record_care_activity_outcome(
            *old(ledger),
            env,
            info,
            pet_id,
            activity,
            proof,
            *final(ledger),
            r,
        ),
{
    proof {
        lemma_keys_are_free();
    }
    if !validate_zktls_proof(&proof, env.time) {
        return Err(ContractError::InvalidProof {  });
    }
    let response = new_response();
    let response = with_attribute(response, "method", String::from_str("record_care_activity"));
    let response = with_attribute(response, "pet_id", pet_id.clone());
    let response = with_attribute(response, "activity_type", activity.activity_type.clone());
    let response = with_attribute(response, "owner", info.sender.clone());
    assert(attributes_of(response) =~= seq![
        ("method"@, "record_care_activity"@),
        ("pet_id"@, pet_id@),
        ("activity_type"@, activity.activity_type@),
        ("owner"@, info.sender@),
    ]);
    let cared = match ledger.pet_status.get(&pet_id) {
        Some(current) => if current.owner == info.sender {
            Some(current.care(&activity.impact, env.time))
        } else {
            None
        },
        None => None,
    };
    if let Some(status) = cared {
        ledger.pet_status.insert(pet_id.clone(), status);
    }
    let stamped = activity.stamp(info.sender, env.time);
    ledger.care_history.append(pet_id, stamped);
    ledger.zktls_proofs.insert(proof.id.clone(), proof);
    Ok(response)
}

/// Stores `session` under its identifier, with the sender as its player. A
/// session that arrives completed without an end time ends at the block
/// time. An earlier session of the same identifier is replaced.
pub fn execute_record_game_session(
    ledger: &mut InteractionLedger,
    env: Env,
    info: MessageInfo,
    session: GameSession,
    proof: ZkTLSProof,
) -> (r: Result<Response, ContractError>)
    ensures
        record_game_session_outcome(*old(ledger), env, info, session, proof, *final(ledger), r),
{
    proof {
        lemma_keys_are_free();
    }
    if !validate_zktls_proof(&proof, env.time) {
        return Err(ContractError::InvalidProof {  });
    }
    let response = new_response();
    let response = with_attribute(response, "method", String::from_str("record_game_session"));
    let response = with_attribute(response, "session_id", session.session_id.clone());
    let response = with_attribute(response, "player", info.sender.clone());
    let response = with_attribute(response, "final_score", decimal_string(session.final_score));
    assert(attributes_of(response) =~= seq![
        ("method"@, "record_game_session"@),
        ("session_id"@, session.session_id@),
        ("player"@, info.sender@),
        ("final_score"@, decimal_digits(session.final_score as nat)),
    ]);
    let key = session.session_id.clone();
    let stored = session.accept(info.sender, env.time);
    ledger.game_sessions.insert(key, stored);
    ledger.zktls_proofs.insert(proof.id.clone(), proof);
    Ok(response)
}

/// Overwrites the record of `pet_id` with `new_status` as it stands. Where
/// the pet has a record, only its owner may do so.
pub fn execute_process_status_degradation(
    ledger: &mut InteractionLedger,
    env: Env,
    info: MessageInfo,
    pet_id: String,
    old_status: PetStatus,
    new_status: PetStatus,
    proof: ZkTLSProof,
) -> (r: Result<Response, ContractError>)
    ensures
        process_status_degradation_outcome(
            *old(ledger),
            info,
            pet_id,
            new_status,
            proof,
            env.time,
            *final(ledger),
            r,
        ),
{
    proof {
        lemma_keys_are_free();
    }
    if !validate_zktls_proof(&proof, env.time) {
        return Err(ContractError::InvalidProof {  });
    }
    if let Some(current) = ledger.pet_status.get(&pet_id) {
        if current.owner != info.sender {
            return Err(ContractError::Unauthorized {  });
        }
    }
    let response = new_response();
    let response = with_attribute(
        response,
        "method",
        String::from_str("process_status_degradation"),
    );
    let response = with_attribute(response, "pet_id", pet_id.clone());
    let response = with_attribute(
        response,
        "new_happiness",
        decimal_string(new_status.happiness as u128),
    );
    assert(attributes_of(response) =~= seq![
        ("method"@, "process_status_degradation"@),
        ("pet_id"@, pet_id@),
        ("new_happiness"@, decimal_digits(new_status.happiness as nat)),
    ]);
    ledger.pet_status.insert(pet_id, new_status);
    ledger.zktls_proofs.insert(proof.id.clone(), proof);
    Ok(response)
}

/// The sessions of `player`, last stored first, at most `limit` of them.
/// The scan visits the sessions in the reverse of their storage order.
pub fn sessions_of<'a>(
    sessions: &'a Table<String, GameSession>,
    player: &str,
    limit: usize,
) -> (out: Vec<&'a GameSession>)
    ensures
        targets(out@) == latest_matching(sessions@.values(), played_by(player@), limit as nat),
{
    let wanted = String::from_str(player);
    let ghost pred = played_by(player@);
    let ghost all = sessions@.values();
    let mut out: Vec<&GameSession> = Vec::new();
    let mut i: usize = sessions.len();
    proof {
        reveal(Seq::filter);
        assert(all.skip(i as int) =~= Seq::<GameSession>::empty());
        assert(all.skip(i as int).filter(pred) =~= Seq::<GameSession>::empty());
        assert(targets(out@) =~= all.skip(i as int).filter(pred).reverse());
    }
    while i > 0 && out.len() < limit
        invariant
            i <= sessions@.keys.len(),
            all == sessions@.values(),
            all.len() == sessions@.keys.len(),
            wanted@ == player@,
            pred == played_by(player@),
            out.len() <= limit,
            out@.len() == all.skip(i as int).filter(pred).len(),
            targets(out@) == all.skip(i as int).filter(pred).reverse(),
        decreases i,
    {
        proof {
            lemma_scan_step(all, pred, i as int);
        }
        i -= 1;
        let session = sessions.value_at(i);
        if session.player == wanted {
            let ghost held = out@;
            out.push(session);
            proof {
                assert(targets(out@) =~= targets(held).push(all[i as int]));
            }
        }
    }
    proof {
        lemma_scan_done(all, pred, limit as nat, i as int);
    }
    out
}

/// Answers one read operation. A point lookup of an absent key fails with
/// `NotFound`; a scan that finds nothing answers with an empty list.
pub fn query<'a>(ledger: &'a InteractionLedger, env: Env, msg: QueryMsg) -> (r: Result<
    QueryResponse<'a>,
    StdError,
>)
    ensures
        query_outcome(*ledger, msg, r),
{
    match msg {
        QueryMsg::Config {  } => Ok(QueryResponse::Config(&ledger.config)),
        QueryMsg::PetStatus { pet_id } => match ledger.pet_status.get(&pet_id) {
            Some(status) => Ok(QueryResponse::PetStatus(status)),
            None => Err(StdError::NotFound {  }),
        },
        QueryMsg::GameSession { session_id } => match ledger.game_sessions.get(&session_id) {
            Some(session) => Ok(QueryResponse::GameSession(session)),
            None => Err(StdError::NotFound {  }),
        },
        QueryMsg::PetCareHistory { pet_id, limit } => {
            let limit = match limit {
                Some(n) => n,
                None => DEFAULT_LIMIT,
            };
            Ok(
                QueryResponse::PetCareHistory(
                    ledger.care_history.recent(pet_id.as_str(), limit as usize),
                ),
            )
        },
        QueryMsg::UserGameSessions { user, limit } => {
            let limit = match limit {
                Some(n) => n,
                None => DEFAULT_LIMIT,
            };
            Ok(
                QueryResponse::UserGameSessions(
                    sessions_of(&ledger.game_sessions, user.as_str(), limit as usize),
                ),
            )
        },
        QueryMsg::ProofStatus { proof_id } => match ledger.zktls_proofs.get(&proof_id) {
            Some(proof) => Ok(QueryResponse::ProofStatus(proof)),
            None => Err(StdError::NotFound {  }),
        },
    }
}

/// None of the keys under which this ledger reports is reserved.
proof fn lemma_keys_are_free()
    ensures
        !reserved("activity_type"@),
        !reserved("admin"@),
        !reserved("final_score"@),
        !reserved("happiness"@),
        !reserved("method"@),
        !reserved("new_happiness"@),
        !reserved("owner"@),
        !reserved("pet_id"@),
        !reserved("player"@),
        !reserved("session_id"@),
{
    reveal_strlit("activity_type");
    reveal_strlit("admin");
    reveal_strlit("final_score");
    reveal_strlit("happiness");
    reveal_strlit("method");
    reveal_strlit("new_happiness");
    reveal_strlit("owner");
    reveal_strlit("pet_id");
    reveal_strlit("player");
    reveal_strlit("session_id");
}

} // verus!
