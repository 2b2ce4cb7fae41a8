//! What holds of every operation of the pet interaction ledger.

use vstd::prelude::*;
use cosmwasm_std::Response;
use crate::attestation::{proof_is_valid, ZkTLSProof};
use crate::context::{Env, MessageInfo};
use crate::pet_interaction::contract::{
    execute_outcome,
    process_status_degradation_outcome,
    record_care_activity_outcome,
    record_game_session_outcome,
    update_pet_status_outcome,
    InteractionLedger,
};
use crate::error::StdError;
use crate::pet_interaction::contract::query_outcome;
use crate::pet_interaction::history::{
    filed_under,
    lemma_slot_within,
    recent_activities,
    slot_for,
    HistoryEntry,
};
use crate::pet_interaction::msg::{ContractError, ExecuteMsg, QueryMsg, QueryResponse};
use crate::pet_interaction::session::GameSession;
use crate::pet_interaction::vitals::{PetCareActivity, PetStatus};

verus! {

/// The attestation that an operation carries, if it carries one.
pub open spec fn carried_proof(msg: ExecuteMsg) -> Option<ZkTLSProof> {
    match msg {
        ExecuteMsg::UpdateConfig { .. } => None,
        ExecuteMsg::UpdatePetStatus { proof, .. } => Some(proof),
        ExecuteMsg::RecordCareActivity { proof, .. } => Some(proof),
        ExecuteMsg::RecordGameSession { proof, .. } => Some(proof),
        ExecuteMsg::ProcessStatusDegradation { proof, .. } => Some(proof),
    }
}

/// A refused operation leaves the whole ledger as it was.
pub proof fn lemma_refusal_changes_nothing(
    before: InteractionLedger,
    env: Env,
    info: MessageInfo,
    msg: ExecuteMsg,
    after: InteractionLedger,
    r: Result<Response, ContractError>,
)
    requires
        execute_outcome(before, env, info, msg, after, r),
        r is Err,
    ensures
        after == before,
{
}

/// An operation that carries an attestation is accepted only if the
/// attestation is structurally valid, and an accepted one leaves its
/// attestation in the store under the attestation's identifier.
pub proof fn lemma_accepted_proof_is_valid_and_stored(
    before: InteractionLedger,
    env: Env,
    info: MessageInfo,
    msg: ExecuteMsg,
    after: InteractionLedger,
    r: Result<Response, ContractError>,
)
    requires
        execute_outcome(before, env, info, msg, after, r),
        r is Ok,
        carried_proof(msg) is Some,
    ensures
        proof_is_valid(carried_proof(msg)->Some_0, env.time),
        after.zktls_proofs@.get(carried_proof(msg)->Some_0.id@) == carried_proof(msg),
{
}

/// Every stored session that is completed has an end time.
pub open spec fn sessions_sealed(ledger: InteractionLedger) -> bool {
    forall|id: Seq<char>| #[trigger]
        ledger.game_sessions@.map.contains_key(id) ==> ledger.game_sessions@.map[id].sealed()
}

/// No operation stores a completed session without an end time: where
/// every stored session was sealed before, every one is afterwards.
pub proof fn lemma_sessions_stay_sealed(
    before: InteractionLedger,
    env: Env,
    info: MessageInfo,
    msg: ExecuteMsg,
    after: InteractionLedger,
    r: Result<Response, ContractError>,
)
    requires
        execute_outcome(before, env, info, msg, after, r),
        sessions_sealed(before),
    ensures
        sessions_sealed(after),
{
    assert forall|id: Seq<char>| #[trigger]
        after.game_sessions@.map.contains_key(id) implies after.game_sessions@.map[id].sealed() by {
        if before.game_sessions@.map.contains_key(id) {
            assert(before.game_sessions@.map[id].sealed());
        }
    }
}

/// The configuration changes only at the word of its administrator.
pub proof fn lemma_only_the_admin_changes_the_config(
    before: InteractionLedger,
    env: Env,
    info: MessageInfo,
    msg: ExecuteMsg,
    after: InteractionLedger,
    r: Result<Response, ContractError>,
)
    requires
        execute_outcome(before, env, info, msg, after, r),
        after.config != before.config,
    ensures
        info.sender@ == before.config.admin@,
        msg is UpdateConfig,
{
}

/// A status update makes the sender the owner of the record, whoever owned
/// it before, and dates it with the block time.
pub proof fn lemma_status_update_claims_the_record(
    before: InteractionLedger,
    env: Env,
    info: MessageInfo,
    pet_id: String,
    status: PetStatus,
    proof: ZkTLSProof,
    after: InteractionLedger,
    r: Result<Response, ContractError>,
)
    requires
        update_pet_status_outcome(before, env, info, pet_id, status, proof, after, r),
        proof_is_valid(proof, env.time),
    ensures
        after.pet_status@.get(pet_id@) matches Some(stored) && stored.owner == info.sender
            && stored.last_updated == env.time && stored.happiness == status.happiness
            && stored.hunger == status.hunger && stored.energy == status.energy
            && stored.cleanliness == status.cleanliness,
{
}

/// What a status update stored is what a lookup of the pet answers with
/// next.
pub proof fn lemma_stored_status_is_read_back(
    before: InteractionLedger,
    env: Env,
    info: MessageInfo,
    pet_id: String,
    status: PetStatus,
    proof: ZkTLSProof,
    after: InteractionLedger,
    r: Result<Response, ContractError>,
    answer: Result<QueryResponse<'_>, StdError>,
)
    requires
        update_pet_status_outcome(before, env, info, pet_id, status, proof, after, r),
        proof_is_valid(proof, env.time),
        query_outcome(after, QueryMsg::PetStatus { pet_id }, answer),
    ensures
        answer matches Ok(QueryResponse::PetStatus(found)) && *found == status.claimed_by(
            info.sender,
            env.time,
        ),
{
}

/// A care activity that is accepted at a time no earlier than any entry of
/// the history is the first that a query for its pet answers with, whatever
/// positive limit the query names.
pub proof fn lemma_fresh_activity_heads_the_history(
    before: InteractionLedger,
    env: Env,
    info: MessageInfo,
    pet_id: String,
    activity: PetCareActivity,
    proof: ZkTLSProof,
    after: InteractionLedger,
    r: Result<Response, ContractError>,
    limit: nat,
)
    requires
        record_care_activity_outcome(before, env, info, pet_id, activity, proof, after, r),
        proof_is_valid(proof, env.time),
        forall|i: int|
            0 <= i < before.care_history@.len()
                ==> before.care_history@[i].activity.timestamp <= env.time,
        limit > 0,
    ensures
        recent_activities(after.care_history@, pet_id@, limit).len() > 0,
        recent_activities(after.care_history@, pet_id@, limit)[0] == activity.stamped(
            info.sender,
            env.time,
        ),
{
    let log = before.care_history@;
    let entry = HistoryEntry { pet_id, activity: activity.stamped(info.sender, env.time) };
    lemma_slot_within(log, env.time);
    assert(slot_for(log, env.time) == log.len()) by {
        if slot_for(log, env.time) < log.len() {
            assert(log[slot_for(log, env.time)].activity.timestamp > env.time);
        }
    }
    assert(after.care_history@ =~= log.push(entry));
    log.lemma_filter_push(entry, filed_under(pet_id@));
    let kept = log.filter(filed_under(pet_id@)).push(entry);
    assert(kept.reverse()[0] == entry);
    if kept.reverse().len() > limit {
        assert(kept.reverse().take(limit as int)[0] == entry);
    }
}

/// A degradation of an existing record by anybody but its owner is refused
/// as unauthorized and changes nothing.
pub proof fn lemma_degradation_needs_the_owner(
    before: InteractionLedger,
    info: MessageInfo,
    pet_id: String,
    new_status: PetStatus,
    proof: ZkTLSProof,
    now: u64,
    after: InteractionLedger,
    r: Result<Response, ContractError>,
)
    requires
        process_status_degradation_outcome(
            before,
            info,
            pet_id,
            new_status,
            proof,
            now,
            after,
            r,
        ),
        proof_is_valid(proof, now),
        before.pet_status@.get(pet_id@) matches Some(current) && current.owner@ != info.sender@,
    ensures
        r == Err::<Response, ContractError>(ContractError::Unauthorized {  }),
        after == before,
{
}

/// A care activity for an existing record from anybody but its owner
/// leaves every stored record as it was, and is filed in the history all
/// the same.
pub proof fn lemma_foreign_care_is_only_logged(
    before: InteractionLedger,
    env: Env,
    info: MessageInfo,
    pet_id: String,
    activity: PetCareActivity,
    proof: ZkTLSProof,
    after: InteractionLedger,
    r: Result<Response, ContractError>,
)
    requires
        record_care_activity_outcome(before, env, info, pet_id, activity, proof, after, r),
        proof_is_valid(proof, env.time),
        before.pet_status@.get(pet_id@) matches Some(current) && current.owner@ != info.sender@,
    ensures
        r is Ok,
        after.pet_status@ == before.pet_status@,
        after.care_history@.len() == before.care_history@.len() + 1,
        after.care_history@.contains(
            HistoryEntry { pet_id, activity: activity.stamped(info.sender, env.time) },
        ),
{
    let at = slot_for(before.care_history@, env.time);
    lemma_slot_within(before.care_history@, env.time);
    assert(after.care_history@[at] == HistoryEntry {
        pet_id,
        activity: activity.stamped(info.sender, env.time),
    });
}

/// A care activity of the owner leaves the record with all four counters
/// in `[0, 100]`, whatever it held before, with a streak that is no
/// shorter, and dated with the block time.
pub proof fn lemma_owner_care_keeps_counters_in_range(
    before: InteractionLedger,
    env: Env,
    info: MessageInfo,
    pet_id: String,
    activity: PetCareActivity,
    proof: ZkTLSProof,
    after: InteractionLedger,
    r: Result<Response, ContractError>,
)
    requires
        record_care_activity_outcome(before, env, info, pet_id, activity, proof, after, r),
        proof_is_valid(proof, env.time),
        before.pet_status@.get(pet_id@) matches Some(current) && current.owner@ == info.sender@,
    ensures
        after.pet_status@.get(pet_id@) matches Some(cared) && cared.in_range()
            && cared.care_streak >= before.pet_status@.map[pet_id@].care_streak
            && cared.last_updated == env.time && cared.owner
            == before.pet_status@.map[pet_id@].owner,
{
}

/// An accepted care activity drops nothing from the history and changes
/// nothing in it: every earlier entry is still there, in the same order.
pub proof fn lemma_history_only_grows(
    before: InteractionLedger,
    env: Env,
    info: MessageInfo,
    pet_id: String,
    activity: PetCareActivity,
    proof: ZkTLSProof,
    after: InteractionLedger,
    r: Result<Response, ContractError>,
)
    requires
        record_care_activity_outcome(before, env, info, pet_id, activity, proof, after, r),
        proof_is_valid(proof, env.time),
    ensures
        after.care_history@.remove(slot_for(before.care_history@, env.time))
            == before.care_history@,
{
    let at = slot_for(before.care_history@, env.time);
    lemma_slot_within(before.care_history@, env.time);
    assert(after.care_history@.remove(at) =~= before.care_history@);
}

/// A session that arrives completed and without an end time is stored with
/// the block time as its end, and every stored session that is completed
/// has an end time.
pub proof fn lemma_completed_session_ends_now(
    before: InteractionLedger,
    env: Env,
    info: MessageInfo,
    session: GameSession,
    proof: ZkTLSProof,
    after: InteractionLedger,
    r: Result<Response, ContractError>,
)
    requires
        record_game_session_outcome(before, env, info, session, proof, after, r),
        proof_is_valid(proof, env.time),
    ensures
        after.game_sessions@.get(session.session_id@) matches Some(stored) && stored.sealed()
            && stored.player == info.sender && (session.completed && session.end_time.is_none()
            ==> stored.end_time == Some(env.time)),
{
}

} // verus!
