//! The pet interaction ledger: vital state, care history and game sessions.

pub mod contract;
pub mod history;
pub mod laws;
pub mod msg;
pub mod session;
pub mod vitals;

pub use crate::attestation::ZkTLSProof;
pub use contract::{
    execute, execute_process_status_degradation, execute_record_care_activity,
    execute_record_game_session, execute_update_config, execute_update_pet_status, instantiate,
    query, sessions_of, InteractionLedger,
};
pub use history::{CareHistory, HistoryEntry};
pub use msg::{Config, ContractError, ExecuteMsg, InstantiateMsg, QueryMsg, QueryResponse};
pub use session::{GameSession, PetSwap};
pub use vitals::{apply_change, ActivityImpact, PetCareActivity, PetStatus};
