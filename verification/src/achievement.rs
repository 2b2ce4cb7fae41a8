//! The achievement ledger: a catalog kept by the administrator and the
//! progress that users earn with attestations.

pub mod contract;
pub mod laws;
pub mod msg;
pub mod records;

pub use crate::attestation::ZkTLSProof;
pub use contract::{
    achievements_of, all_achievements, execute, execute_register_achievement,
    execute_submit_achievement_proof, execute_update_config, execute_validate_proof, instantiate,
    load_or_default, query, AchievementLedger,
};
pub use msg::{Config, ContractError, ExecuteMsg, InstantiateMsg, QueryMsg, QueryResponse};
pub use records::{
    process_achievement_proof, Achievement, AchievementRequirement, Loaded, Reward,
    UserAchievement,
};
