//! The achievement ledger and its operations.
//!
//! The catalog answers to the administrator alone. A submission is checked
//! against the catalog first, then against the structure of its
//! attestation; a refused operation changes nothing.

use vstd::prelude::*;
use vstd::string::*;
use cosmwasm_std::Response;
use crate::achievement::msg::{
    Config,
    ContractError,
    ExecuteMsg,
    InstantiateMsg,
    QueryMsg,
    QueryResponse,
};
use crate::achievement::records::{
    earned_by,
    evaluation,
    process_achievement_proof,
    vouch,
    vouched,
    Achievement,
    Loaded,
    Reward,
    UserAchievement,
};
use crate::attestation::{proof_is_valid, validate_zktls_proof, ZkTLSProof};
use crate::context::{Env, MessageInfo};
use crate::error::StdError;
use crate::recent::targets;
use crate::response::{
    attributes_of,
    decimal_digits,
    decimal_string,
    new_response,
    reports,
    reserved,
    with_attribute,
};
use crate::table::{Contents, Table};

verus! {

/// The whole state of the achievement ledger.
pub struct AchievementLedger {
    pub config: Config,
    pub achievements: Table<String, Achievement>,
    pub user_achievements: Table<(String, String), UserAchievement>,
    pub zktls_proofs: Table<String, ZkTLSProof>,
}

/// The configuration that [`instantiate`] stores.
pub open spec fn initial_config(info: MessageInfo, msg: InstantiateMsg) -> Config {
    Config {
        admin: match msg.admin {
            Some(admin) => admin,
            None => info.sender,
        },
        pet_nft_contract: msg.pet_nft_contract,
    }
}

/// The configuration after an update: each part that the message names
/// replaces the stored one, the others stay.
pub open spec fn updated_config(
    config: Config,
    admin: Option<String>,
    pet_nft_contract: Option<String>,
) -> Config {
    Config {
        admin: match admin {
            Some(a) => a,
            None => config.admin,
        },
        pet_nft_contract: match pet_nft_contract {
            Some(c) => Some(c),
            None => config.pet_nft_contract,
        },
    }
}

/// The progress record of a pair as a submission finds it.
pub open spec fn loaded(
    records: Contents<(Seq<char>, Seq<char>), UserAchievement>,
    user: String,
    achievement_id: String,
) -> Loaded {
    match records.get((user@, achievement_id@)) {
        Some(record) => Loaded::Existing(record),
        None => Loaded::Default(UserAchievement::fresh(user, achievement_id)),
    }
}

/// The attributes of an accepted submission: who earned what, and, where
/// the submission completed the achievement, that it did and what reward
/// the catalog attaches to it.
pub open spec fn submission_attributes(
    user: Seq<char>,
    achievement_id: Seq<char>,
    progress: u8,
    completed: bool,
    reward: Option<Reward>,
) -> Seq<(Seq<char>, Seq<char>)> {
    let base = seq![
        ("method"@, "submit_achievement_proof"@),
        ("user"@, user),
        ("achievement_id"@, achievement_id),
        ("progress"@, decimal_digits(progress as nat)),
    ];
    if !completed {
        base
    } else {
        match reward {
            Some(reward) => base.push(("completed"@, "true"@)).push(
                ("reward_type"@, reward.reward_type@),
            ).push(("reward_value"@, reward.value@)),
            None => base.push(("completed"@, "true"@)),
        }
    }
}

/// What [`execute_update_config`] does.
pub open spec fn update_config_outcome(
    before: AchievementLedger,
    info: MessageInfo,
    admin: Option<String>,
    pet_nft_contract: Option<String>,
    after: AchievementLedger,
    r: Result<Response, ContractError>,
) -> bool {
    if info.sender@ != before.config.admin@ {
        r == Err::<Response, ContractError>(ContractError::Unauthorized {  }) && after == before
    } else {
        &&& r is Ok
        &&& reports(r->Ok_0, seq![("method"@, "update_config"@), ("admin"@, after.config.admin@)])
        &&& after.config == updated_config(before.config, admin, pet_nft_contract)
        &&& after.achievements == before.achievements
        &&& after.user_achievements == before.user_achievements
        &&& after.zktls_proofs == before.zktls_proofs
    }
}

/// What [`execute_register_achievement`] does.
pub open spec fn register_achievement_outcome(
    before: AchievementLedger,
    info: MessageInfo,
    achievement: Achievement,
    after: AchievementLedger,
    r: Result<Response, ContractError>,
) -> bool {
    if info.sender@ != before.config.admin@ {
        r == Err::<Response, ContractError>(ContractError::Unauthorized {  }) && after == before
    } else {
        &&& r is Ok
        &&& reports(r->Ok_0, seq![
            ("method"@, "register_achievement"@),
            ("achievement_id"@, achievement.id@),
        ])
        &&& after.config == before.config
        &&& after.achievements@ == before.achievements@.insert(achievement.id@, achievement)
        &&& after.user_achievements == before.user_achievements
        &&& after.zktls_proofs == before.zktls_proofs
    }
}

/// What [`execute_submit_achievement_proof`] does.
pub open spec fn submit_achievement_proof_outcome(
    before: AchievementLedger,
    env: Env,
    info: MessageInfo,
    achievement_id: String,
    proof: ZkTLSProof,
    after: AchievementLedger,
    r: Result<Response, ContractError>,
) -> bool {
    match before.achievements@.get(achievement_id@) {
        None => {
            &&& r == Err::<Response, ContractError>(ContractError::Std(StdError::NotFound {  }))
            &&& after == before
        },
        Some(achievement) => {
            if !achievement.active {
                &&& r == Err::<Response, ContractError>(ContractError::AchievementInactive {  })
                &&& after == before
            } else if !proof_is_valid(proof, env.time) {
                &&& r == Err::<Response, ContractError>(ContractError::InvalidProof {  })
                &&& after == before
            } else {
                let current = loaded(
                    before.user_achievements@,
                    info.sender,
                    achievement_id,
                ).record();
                let earned = evaluation(proof.proof_type@);
                &&& r is Ok
                &&& reports(r->Ok_0, submission_attributes(
                    info.sender@,
                    achievement_id@,
                    earned.0,
                    earned.1,
                    achievement.reward,
                ))
                &&& after.config == before.config
                &&& after.achievements == before.achievements
                &&& after.zktls_proofs@ == before.zktls_proofs@.insert(proof.id@, proof)
                &&& after.user_achievements@ == before.user_achievements@.insert(
                    (info.sender@, achievement_id@),
                    current.advanced(earned.0, earned.1, proof.id, env.time),
                )
            }
        },
    }
}

/// What [`execute_validate_proof`] does.
pub open spec fn validate_proof_outcome(
    before: AchievementLedger,
    info: MessageInfo,
    proof_id: String,
    after: AchievementLedger,
    r: Result<Response, ContractError>,
) -> bool {
    if info.sender@ != before.config.admin@ {
        r == Err::<Response, ContractError>(ContractError::Unauthorized {  }) && after == before
    } else {
        match before.zktls_proofs@.get(proof_id@) {
            None => {
                &&& r == Err::<Response, ContractError>(
                    ContractError::Std(StdError::NotFound {  }),
                )
                &&& after == before
            },
            Some(proof) => {
                &&& r is Ok
                &&& reports(r->Ok_0, seq![("method"@, "validate_proof"@), ("proof_id"@, proof_id@)])
                &&& after.config == before.config
                &&& after.achievements == before.achievements
                &&& after.user_achievements == before.user_achievements
                &&& after.zktls_proofs@ == before.zktls_proofs@.insert(proof_id@, vouched(proof))
            },
        }
    }
}

/// What [`execute`] does: the outcome of the operation that the message
/// names.
pub open spec fn execute_outcome(
    before: AchievementLedger,
    env: Env,
    info: MessageInfo,
    msg: ExecuteMsg,
    after: AchievementLedger,
    r: Result<Response, ContractError>,
) -> bool {
    match msg {
        ExecuteMsg::UpdateConfig { admin, pet_nft_contract } => {
            update_config_outcome(before, info, admin, pet_nft_contract, after, r)
        },
        ExecuteMsg::RegisterAchievement { achievement } => {
            register_achievement_outcome(before, info, achievement, after, r)
        },
        ExecuteMsg::SubmitAchievementProof { achievement_id, proof, supporting_data } => {
            submit_achievement_proof_outcome(before, env, info, achievement_id, proof, after, r)
        },
        ExecuteMsg::ValidateProof { proof_id } => {
            validate_proof_outcome(before, info, proof_id, after, r)
        },
    }
}

/// What [`query`] answers.
pub open spec fn query_outcome(
    ledger: AchievementLedger,
    msg: QueryMsg,
    r: Result<QueryResponse<'_>, StdError>,
) -> bool {
    match msg {
        QueryMsg::Config {  } => r matches Ok(QueryResponse::Config(c)) && *c == ledger.config,
        QueryMsg::Achievement { id } => match ledger.achievements@.get(id@) {
            Some(achievement) => r matches Ok(QueryResponse::Achievement(a)) && *a == achievement,
            None => r == Err::<QueryResponse<'_>, StdError>(StdError::NotFound {  }),
        },
        QueryMsg::UserAchievement { user, achievement_id } => match ledger.user_achievements@.get(
            (user@, achievement_id@),
        ) {
            Some(record) => r matches Ok(QueryResponse::UserAchievement(u)) && *u == record,
            None => r == Err::<QueryResponse<'_>, StdError>(StdError::NotFound {  }),
        },
        QueryMsg::UserAchievements { user } => {
            r matches Ok(QueryResponse::UserAchievements(found)) && targets(found@)
                == ledger.user_achievements@.values().filter(earned_by(user@))
        },
        QueryMsg::AllAchievements {  } => {
            r matches Ok(QueryResponse::AllAchievements(found)) && targets(found@)
                == ledger.achievements@.values()
        },
        QueryMsg::ProofStatus { proof_id } => match ledger.zktls_proofs@.get(proof_id@) {
            Some(proof) => r matches Ok(QueryResponse::ProofStatus(p)) && *p == proof,
            None => r == Err::<QueryResponse<'_>, StdError>(StdError::NotFound {  }),
        },
    }
}

/// Sets up a ledger that holds nothing but its configuration. The sender
/// administers it unless the message names somebody else.
pub fn instantiate(env: Env, info: MessageInfo, msg: InstantiateMsg) -> (r: (
    AchievementLedger,
    Response,
))
    ensures
        r.0.config == initial_config(info, msg),
        r.0.achievements@ == Contents::<Seq<char>, Achievement>::empty(),
        r.0.user_achievements@ == Contents::<(Seq<char>, Seq<char>), UserAchievement>::empty(),
        r.0.zktls_proofs@ == Contents::<Seq<char>, ZkTLSProof>::empty(),
        reports(r.1, seq![("method"@, "instantiate"@), ("admin"@, r.0.config.admin@)]),
{
    proof {
        lemma_keys_are_free();
    }
    let admin = match msg.admin {
        Some(admin) => admin,
        None => info.sender,
    };
    let response = new_response();
    let response = with_attribute(response, "method", String::from_str("instantiate"));
    let response = with_attribute(response, "admin", admin.clone());
    assert(attributes_of(response) =~= seq![("method"@, "instantiate"@), ("admin"@, admin@)]);
    let ledger = AchievementLedger {
        config: Config { admin, pet_nft_contract: msg.pet_nft_contract },
        achievements: Table::new(),
        user_achievements: Table::new(),
        zktls_proofs: Table::new(),
    };
    (ledger, response)
}

/// Applies one mutating operation to the ledger.
pub fn execute(ledger: &mut AchievementLedger, env: Env, info: MessageInfo, msg: ExecuteMsg) -> (r:
    Result<Response, ContractError>)
    ensures
        execute_outcome(*old(ledger), env, info, msg, *final(ledger), r),
{
    match msg {
        ExecuteMsg::UpdateConfig { admin, pet_nft_contract } => {
            execute_update_config(ledger, info, admin, pet_nft_contract)
        },
        ExecuteMsg::RegisterAchievement { achievement } => {
            execute_register_achievement(ledger, info, achievement)
        },
        ExecuteMsg::SubmitAchievementProof { achievement_id, proof, supporting_data } => {
            execute_submit_achievement_proof(
                ledger,
                env,
                info,
                achievement_id,
                proof,
                supporting_data,
            )
        },
        ExecuteMsg::ValidateProof { proof_id } => execute_validate_proof(ledger, info, proof_id),
    }
}

/// Replaces the parts of the configuration that the message names. Only the
/// administrator may do so.
pub fn execute_update_config(
    ledger: &mut AchievementLedger,
    info: MessageInfo,
    admin: Option<String>,
    pet_nft_contract: Option<String>,
) -> (r: Result<Response, ContractError>)
    ensures
        update_config_outcome(*old(ledger), info, admin, pet_nft_contract, *final(ledger), r),
{
    proof {
        lemma_keys_are_free();
    }
    if info.sender != ledger.config.admin {
        return Err(ContractError::Unauthorized {  });
    }
    if let Some(admin_addr) = admin {
        ledger.config.admin = admin_addr;
    }
    if let Some(contract_addr) = pet_nft_contract {
        ledger.config.pet_nft_contract = Some(contract_addr);
    }
    let response = new_response();
    let response = with_attribute(response, "method", String::from_str("update_config"));
    let response = with_attribute(response, "admin", ledger.config.admin.clone());
    assert(attributes_of(response) =~= seq![
        ("method"@, "update_config"@),
        ("admin"@, ledger.config.admin@),
    ]);
    Ok(response)
}

/// Stores `achievement` in the catalog under its identifier, in place of
/// an earlier one of that identifier. Only the administrator may do so.
pub fn execute_register_achievement(
    ledger: &mut AchievementLedger,
    info: MessageInfo,
    achievement: Achievement,
) -> (r: Result<Response, ContractError>)
    ensures
        register_achievement_outcome(*old(ledger), info, achievement, *final(ledger), r),
{
    proof {
        lemma_keys_are_free();
    }
    if info.sender != ledger.config.admin {
        return Err(ContractError::Unauthorized {  });
    }
    let response = new_response();
    let response = with_attribute(response, "method", String::from_str("register_achievement"));
    let response = with_attribute(response, "achievement_id", achievement.id.clone());
    assert(attributes_of(response) =~= seq![
        ("method"@, "register_achievement"@),
        ("achievement_id"@, achievement.id@),
    ]);
    ledger.achievements.insert(achievement.id.clone(), achievement);
    Ok(response)
}

/// The progress record of `(user, achievement_id)`: a copy of the stored
/// one, or the record of a pair that has none.
pub fn load_or_default(
    records: &Table<(String, String), UserAchievement>,
    user: &String,
    achievement_id: &String,
) -> (r: Loaded)
    ensures
        r == loaded(records@, *user, *achievement_id),
{
    let key = (user.clone(), achievement_id.clone());
    match records.get(&key) {
        Some(record) => Loaded::Existing(record.duplicate()),
        None => Loaded::Default(UserAchievement::new(user.clone(), achievement_id.clone())),
    }
}

/// The response to an accepted submission.
fn submission_response(
    user: &String,
    achievement_id: &String,
    progress: u8,
    completed: bool,
    reward: &Option<Reward>,
) -> (r: Response)
    ensures
        reports(r, submission_attributes(user@, achievement_id@, progress, completed, *reward)),
{
    proof {
        lemma_keys_are_free();
    }
    let response = new_response();
    let response = with_attribute(response, "method", String::from_str("submit_achievement_proof"));
    let response = with_attribute(response, "user", user.clone());
    let response = with_attribute(response, "achievement_id", achievement_id.clone());
    let mut response = with_attribute(response, "progress", decimal_string(progress as u128));
    assert(attributes_of(response) =~= seq![
        ("method"@, "submit_achievement_proof"@),
        ("user"@, user@),
        ("achievement_id"@, achievement_id@),
        ("progress"@, decimal_digits(progress as nat)),
    ]);
    if completed {
        response = with_attribute(response, "completed", String::from_str("true"));
        if let Some(reward) = reward {
            response = with_attribute(response, "reward_type", reward.reward_type.clone());
            response = with_attribute(response, "reward_value", reward.value.clone());
        }
    }
    response
}

/// Takes a submission for `achievement_id` from the sender. The achievement
/// must be in the catalog and active and the attestation structurally
/// valid. The attestation is stored, and the sender's progress record takes
/// what the attestation's category earns; a record that has a completion
/// time keeps it.
pub fn execute_submit_achievement_proof(
    ledger: &mut AchievementLedger,
    env: Env,
    info: MessageInfo,
    achievement_id: String,
    proof: ZkTLSProof,
    supporting_data: Vec<u8>,
) -> (r: Result<Response, ContractError>)
    ensures
        submit_achievement_proof_outcome(
            *old(ledger),
            env,
            info,
            achievement_id,
            proof,
            *final(ledger),
            r,
        ),
{
    let (progress, completed, response) = match ledger.achievements.get(&achievement_id) {
        None => {
            return Err(ContractError::Std(StdError::NotFound {  }));
        },
        Some(achievement) => {
            if !achievement.active {
                return Err(ContractError::AchievementInactive {  });
            }
            if !validate_zktls_proof(&proof, env.time) {
                return Err(ContractError::InvalidProof {  });
            }
            let (progress, completed) = process_achievement_proof(achievement, &proof);
            let response = submission_response(
                &info.sender,
                &achievement_id,
                progress,
                completed,
                &achievement.reward,
            );
            (progress, completed, response)
        },
    };
    let current = load_or_default(&ledger.user_achievements, &info.sender, &achievement_id);
    let next = current.into_record().advance(progress, completed, proof.id.clone(), env.time);
    ledger.zktls_proofs.insert(proof.id.clone(), proof);
    ledger.user_achievements.insert((info.sender, achievement_id), next);
    Ok(response)
}

/// Marks the stored attestation `proof_id` as verified. Only the
/// administrator may do so.
pub fn execute_validate_proof(
    ledger: &mut AchievementLedger,
    info: MessageInfo,
    proof_id: String,
) -> (r: Result<Response, ContractError>)
    ensures
        validate_proof_outcome(*old(ledger), info, proof_id, *final(ledger), r),
{
    proof {
        lemma_keys_are_free();
    }
    if info.sender != ledger.config.admin {
        return Err(ContractError::Unauthorized {  });
    }
    let verified = match ledger.zktls_proofs.get(&proof_id) {
        Some(proof) => vouch(proof),
        None => {
            return Err(ContractError::Std(StdError::NotFound {  }));
        },
    };
    let response = new_response();
    let response = with_attribute(response, "method", String::from_str("validate_proof"));
    let response = with_attribute(response, "proof_id", proof_id.clone());
    assert(attributes_of(response) =~= seq![
        ("method"@, "validate_proof"@),
        ("proof_id"@, proof_id@),
    ]);
    ledger.zktls_proofs.insert(proof_id, verified);
    Ok(response)
}

/// The progress records of `user`, in storage order.
pub fn achievements_of<'a>(
    records: &'a Table<(String, String), UserAchievement>,
    user: &str,
) -> (out: Vec<&'a UserAchievement>)
    ensures
        targets(out@) == records@.values().filter(earned_by(user@)),
{
    let wanted = String::from_str(user);
    let ghost pred = earned_by(user@);
    let ghost all = records@.values();
    let mut out: Vec<&UserAchievement> = Vec::new();
    let n = records.len();
    let mut i: usize = 0;
    proof {
        reveal(Seq::filter);
        assert(all.take(0).filter(pred) =~= Seq::<UserAchievement>::empty());
        assert(targets(out@) =~= all.take(0).filter(pred));
    }
    while i < n
        invariant
            n == records@.keys.len(),
            all == records@.values(),
            all.len() == n,
            i <= n,
            wanted@ == user@,
            pred == earned_by(user@),
            targets(out@) == all.take(i as int).filter(pred),
        decreases n - i,
    {
        let record = records.value_at(i);
        proof {
            assert(all.take(i + 1) =~= all.take(i as int).push(all[i as int]));
            all.take(i as int).lemma_filter_push(all[i as int], pred);
        }
        if record.user == wanted {
            let ghost held = out@;
            out.push(record);
            proof {
                assert(targets(out@) =~= targets(held).push(all[i as int]));
            }
        }
        i += 1;
    }
    proof {
        assert(all.take(n as int) =~= all);
    }
    out
}

/// Every achievement of the catalog, in storage order.
pub fn all_achievements<'a>(catalog: &'a Table<String, Achievement>) -> (out: Vec<&'a Achievement>)
    ensures
        targets(out@) == catalog@.values(),
{
    let ghost all = catalog@.values();
    let mut out: Vec<&Achievement> = Vec::new();
    let n = catalog.len();
    let mut i: usize = 0;
    proof {
        assert(targets(out@) =~= all.take(0));
    }
    while i < n
        invariant
            n == catalog@.keys.len(),
            all == catalog@.values(),
            all.len() == n,
            i <= n,
            targets(out@) == all.take(i as int),
        decreases n - i,
    {
        let ghost held = out@;
        out.push(catalog.value_at(i));
        proof {
            assert(targets(out@) =~= targets(held).push(all[i as int]));
            assert(all.take(i + 1) =~= all.take(i as int).push(all[i as int]));
        }
        i += 1;
    }
    proof {
        assert(all.take(n as int) =~= all);
    }
    out
}

/// Answers one read operation. A point lookup of an absent key fails with
/// `NotFound`; a scan that finds nothing answers with an empty list.
pub fn query<'a>(ledger: &'a AchievementLedger, env: Env, msg: QueryMsg) -> (r: Result<
    QueryResponse<'a>,
    StdError,
>)
    ensures
        query_outcome(*ledger, msg, r),
{
    match msg {
        QueryMsg::Config {  } => Ok(QueryResponse::Config(&ledger.config)),
        QueryMsg::Achievement { id } => match ledger.achievements.get(&id) {
            Some(achievement) => Ok(QueryResponse::Achievement(achievement)),
            None => Err(StdError::NotFound {  }),
        },
        QueryMsg::UserAchievement { user, achievement_id } => {
            let key = (user, achievement_id);
            match ledger.user_achievements.get(&key) {
                Some(record) => Ok(QueryResponse::UserAchievement(record)),
                None => Err(StdError::NotFound {  }),
            }
        },
        QueryMsg::UserAchievements { user } => Ok(
            QueryResponse::UserAchievements(
                achievements_of(&ledger.user_achievements, user.as_str()),
            ),
        ),
        QueryMsg::AllAchievements {  } => Ok(
            QueryResponse::AllAchievements(all_achievements(&ledger.achievements)),
        ),
        QueryMsg::ProofStatus { proof_id } => match ledger.zktls_proofs.get(&proof_id) {
            Some(proof) => Ok(QueryResponse::ProofStatus(proof)),
            None => Err(StdError::NotFound {  }),
        },
    }
}

/// None of the keys under which this ledger reports is reserved.
proof fn lemma_keys_are_free()
    ensures
        !reserved("achievement_id"@),
        !reserved("admin"@),
        !reserved("completed"@),
        !reserved("method"@),
        !reserved("progress"@),
        !reserved("proof_id"@),
        !reserved("reward_type"@),
        !reserved("reward_value"@),
        !reserved("user"@),
{
    reveal_strlit("achievement_id");
    reveal_strlit("admin");
    reveal_strlit("completed");
    reveal_strlit("method");
    reveal_strlit("progress");
    reveal_strlit("proof_id");
    reveal_strlit("reward_type");
    reveal_strlit("reward_value");
    reveal_strlit("user");
}

} // verus!
