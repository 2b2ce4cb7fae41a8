//! What holds of every operation of the achievement ledger.

use vstd::prelude::*;
use cosmwasm_std::Response;
use crate::achievement::contract::{
    execute_outcome,
    submit_achievement_proof_outcome,
    AchievementLedger,
};
use crate::achievement::msg::{ContractError, ExecuteMsg};
use crate::achievement::records::{recognized, UserAchievement};
use crate::attestation::{proof_is_valid, ZkTLSProof};
use crate::context::{Env, MessageInfo};

verus! {

/// Every stored progress record is [`UserAchievement::sound`].
pub open spec fn records_sound(ledger: AchievementLedger) -> bool {
    forall|key: (Seq<char>, Seq<char>)| #[trigger]
        ledger.user_achievements@.map.contains_key(key)
            ==> ledger.user_achievements@.map[key].sound()
}

/// A refused operation leaves the whole ledger as it was.
pub proof fn lemma_refusal_changes_nothing(
    before: AchievementLedger,
    env: Env,
    info: MessageInfo,
    msg: ExecuteMsg,
    after: AchievementLedger,
    r: Result<Response, ContractError>,
)
    requires
        execute_outcome(before, env, info, msg, after, r),
        r is Err,
    ensures
        after == before,
{
}

/// The configuration and the catalog change only at the word of the
/// administrator.
pub proof fn lemma_only_the_admin_changes_config_and_catalog(
    before: AchievementLedger,
    env: Env,
    info: MessageInfo,
    msg: ExecuteMsg,
    after: AchievementLedger,
    r: Result<Response, ContractError>,
)
    requires
        execute_outcome(before, env, info, msg, after, r),
        after.config != before.config || after.achievements != before.achievements,
    ensures
        info.sender@ == before.config.admin@,
        msg is UpdateConfig || msg is RegisterAchievement,
{
}

/// An accepted submission is for an achievement that is in the catalog and
/// active, carries a structurally valid attestation, and leaves that
/// attestation in the store under its identifier.
pub proof fn lemma_accepted_submission_is_admissible(
    before: AchievementLedger,
    env: Env,
    info: MessageInfo,
    achievement_id: String,
    proof: ZkTLSProof,
    after: AchievementLedger,
    r: Result<Response, ContractError>,
)
    requires
        submit_achievement_proof_outcome(before, env, info, achievement_id, proof, after, r),
        r is Ok,
    ensures
        before.achievements@.get(achievement_id@) matches Some(achievement) && achievement.active,
        proof_is_valid(proof, env.time),
        after.zktls_proofs@.get(proof.id@) == Some(proof),
{
}

/// No operation makes a sound record unsound: where every completed record
/// had its completion time before, every one has it afterwards.
pub proof fn lemma_records_stay_sound(
    before: AchievementLedger,
    env: Env,
    info: MessageInfo,
    msg: ExecuteMsg,
    after: AchievementLedger,
    r: Result<Response, ContractError>,
)
    requires
        execute_outcome(before, env, info, msg, after, r),
        records_sound(before),
    ensures
        records_sound(after),
{
    assert forall|key: (Seq<char>, Seq<char>)| #[trigger]
        after.user_achievements@.map.contains_key(key) implies after.user_achievements@.map[
        key
    ].sound() by {
        if before.user_achievements@.map.contains_key(key) {
            assert(before.user_achievements@.map[key].sound());
        }
    }
}

/// A submission never changes a completion time that a record has: whether
/// it is accepted or refused, and whatever it earns.
pub proof fn lemma_completion_time_is_kept(
    before: AchievementLedger,
    env: Env,
    info: MessageInfo,
    achievement_id: String,
    proof: ZkTLSProof,
    after: AchievementLedger,
    r: Result<Response, ContractError>,
)
    requires
        submit_achievement_proof_outcome(before, env, info, achievement_id, proof, after, r),
        before.user_achievements@.get((info.sender@, achievement_id@)) matches Some(record)
            && record.completed_at.is_some(),
    ensures
        after.user_achievements@.get((info.sender@, achievement_id@)) matches Some(record)
            && record.completed_at == before.user_achievements@.map[(
            info.sender@,
            achievement_id@,
        )].completed_at,
{
}

/// Two submissions in a row for a pair that is already completed leave the
/// completion time of the pair as it was.
pub proof fn lemma_completion_is_idempotent(
    before: AchievementLedger,
    env1: Env,
    proof1: ZkTLSProof,
    between: AchievementLedger,
    r1: Result<Response, ContractError>,
    env2: Env,
    proof2: ZkTLSProof,
    after: AchievementLedger,
    r2: Result<Response, ContractError>,
    info: MessageInfo,
    achievement_id: String,
)
    requires
        submit_achievement_proof_outcome(before, env1, info, achievement_id, proof1, between, r1),
        submit_achievement_proof_outcome(between, env2, info, achievement_id, proof2, after, r2),
        before.user_achievements@.get((info.sender@, achievement_id@)) matches Some(record)
            && record.completed && record.sound(),
    ensures
        after.user_achievements@.get((info.sender@, achievement_id@)) matches Some(record)
            && record.completed_at == before.user_achievements@.map[(
            info.sender@,
            achievement_id@,
        )].completed_at,
{
    lemma_completion_time_is_kept(before, env1, info, achievement_id, proof1, between, r1);
    lemma_completion_time_is_kept(between, env2, info, achievement_id, proof2, after, r2);
}

/// A first accepted submission of a recognized category for a pair without
/// a record completes it at the block time.
pub proof fn lemma_first_completion_is_dated(
    before: AchievementLedger,
    env: Env,
    info: MessageInfo,
    achievement_id: String,
    proof: ZkTLSProof,
    after: AchievementLedger,
    r: Result<Response, ContractError>,
)
    requires
        submit_achievement_proof_outcome(before, env, info, achievement_id, proof, after, r),
        r is Ok,
        recognized(proof.proof_type@),
        before.user_achievements@.get((info.sender@, achievement_id@)).is_none(),
    ensures
        after.user_achievements@.get((info.sender@, achievement_id@)) matches Some(record)
            && record.progress == 100 && record.completed && record.completed_at == Some(env.time)
            && record.proof_id == Some(proof.id) && record.user == info.sender
            && record.achievement_id == achievement_id,
{
}

} // verus!
