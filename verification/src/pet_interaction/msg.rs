//! The messages that the pet interaction ledger accepts and the answers it
//! gives.

use vstd::prelude::*;
use crate::attestation::ZkTLSProof;
use crate::pet_interaction::session::GameSession;
use crate::pet_interaction::vitals::{PetCareActivity, PetStatus};

verus! {

/// The configuration of the ledger: its administrator and the other
/// ledgers it may refer to.
#[derive(Clone, Debug, PartialEq)]
pub struct Config {
    pub admin: String,
    pub achievement_contract: Option<String>,
    pub pet_nft_contract: Option<String>,
}

/// What sets the ledger up. Without an `admin` the sender administers it.
#[derive(Clone, Debug, PartialEq)]
pub struct InstantiateMsg {
    pub admin: Option<String>,
    pub achievement_contract: Option<String>,
    pub pet_nft_contract: Option<String>,
}

/// The mutating operations, one variant each.
#[derive(Clone, Debug, PartialEq)]
pub enum ExecuteMsg {
    UpdateConfig {
        admin: Option<String>,
        achievement_contract: Option<String>,
        pet_nft_contract: Option<String>,
    },
    UpdatePetStatus { pet_id: String, status: PetStatus, proof: ZkTLSProof },
    RecordCareActivity { pet_id: String, activity: PetCareActivity, proof: ZkTLSProof },
    RecordGameSession { session: GameSession, proof: ZkTLSProof },
    ProcessStatusDegradation {
        pet_id: String,
        old_status: PetStatus,
        new_status: PetStatus,
        proof: ZkTLSProof,
    },
}

/// The read operations, one variant each.
#[derive(Clone, Debug, PartialEq)]
pub enum QueryMsg {
    Config {  },
    PetStatus { pet_id: String },
    GameSession { session_id: String },
    PetCareHistory { pet_id: String, limit: Option<u32> },
    UserGameSessions { user: String, limit: Option<u32> },
    ProofStatus { proof_id: String },
}

/// The answer to a [`QueryMsg`], borrowed from the ledger.
#[derive(Debug, PartialEq)]
pub enum QueryResponse<'a> {
    Config(&'a Config),
    PetStatus(&'a PetStatus),
    GameSession(&'a GameSession),
    PetCareHistory(Vec<&'a PetCareActivity>),
    UserGameSessions(Vec<&'a GameSession>),
    ProofStatus(&'a ZkTLSProof),
}

/// Why an operation was refused.
#[derive(Clone, Debug, PartialEq)]
pub enum ContractError {
    /// The sender is not the recorded owner or administrator.
    Unauthorized {  },
    /// The attestation did not pass the structural gate.
    InvalidProof {  },
}

/// How many entries a scan returns where the query names no limit.
pub const DEFAULT_LIMIT: u32 = 50;

/// The number of entries that a scan with this `limit` may return.
pub open spec fn page_size(limit: Option<u32>) -> nat {
    match limit {
        Some(n) => n as nat,
        None => 50,
    }
}

} // verus!
