//! The messages that the achievement ledger accepts and the answers it
//! gives.

use vstd::prelude::*;
use crate::achievement::records::{Achievement, UserAchievement};
use crate::attestation::ZkTLSProof;
use crate::error::StdError;

verus! {

/// The configuration of the ledger: its administrator and the asset ledger
/// it may refer to.
#[derive(Clone, Debug, PartialEq)]
pub struct Config {
    pub admin: String,
    pub pet_nft_contract: Option<String>,
}

/// What sets the ledger up. Without an `admin` the sender administers it.
#[derive(Clone, Debug, PartialEq)]
pub struct InstantiateMsg {
    pub admin: Option<String>,
    pub pet_nft_contract: Option<String>,
}

/// The mutating operations, one variant each.
#[derive(Clone, Debug, PartialEq)]
pub enum ExecuteMsg {
    UpdateConfig { admin: Option<String>, pet_nft_contract: Option<String> },
    RegisterAchievement { achievement: Achievement },
    SubmitAchievementProof { achievement_id: String, proof: ZkTLSProof, supporting_data: Vec<u8> },
    ValidateProof { proof_id: String },
}

/// The read operations, one variant each.
#[derive(Clone, Debug, PartialEq)]
pub enum QueryMsg {
    Config {  },
    Achievement { id: String },
    UserAchievement { user: String, achievement_id: String },
    UserAchievements { user: String },
    AllAchievements {  },
    ProofStatus { proof_id: String },
}

/// The answer to a [`QueryMsg`], borrowed from the ledger.
#[derive(Debug, PartialEq)]
pub enum QueryResponse<'a> {
    Config(&'a Config),
    Achievement(&'a Achievement),
    UserAchievement(&'a UserAchievement),
    UserAchievements(Vec<&'a UserAchievement>),
    AllAchievements(Vec<&'a Achievement>),
    ProofStatus(&'a ZkTLSProof),
}

/// Why an operation was refused.
#[derive(Clone, Debug, PartialEq)]
pub enum ContractError {
    /// A failure of the store; a lookup of an absent key is one.
    Std(StdError),
    /// The sender is not the administrator.
    Unauthorized {  },
    /// The achievement exists but takes no submissions.
    AchievementInactive {  },
    /// The attestation is not structurally valid.
    InvalidProof {  },
}

} // verus!
