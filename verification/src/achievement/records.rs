//! The achievement catalog and the progress records of its users.

use vstd::prelude::*;
use vstd::string::*;
use crate::attestation::ZkTLSProof;

verus! {

/// One condition of an achievement.
#[derive(Clone, Debug, PartialEq)]
pub struct AchievementRequirement {
    pub trigger: String,
    pub threshold: u128,
    pub additional_params: Option<String>,
}

/// What completing an achievement is worth.
#[derive(Clone, Debug, PartialEq)]
pub struct Reward {
    pub reward_type: String,
    pub value: String,
}

/// An entry of the catalog.
#[derive(Clone, Debug, PartialEq)]
pub struct Achievement {
    pub id: String,
    pub title: String,
    pub description: String,
    pub category: String,
    pub requirements: Vec<AchievementRequirement>,
    pub reward: Option<Reward>,
    pub active: bool,
}

/// The progress of one user towards one achievement.
#[derive(Clone, Debug, PartialEq)]
pub struct UserAchievement {
    pub user: String,
    pub achievement_id: String,
    pub progress: u8,
    pub completed: bool,
    pub completed_at: Option<u64>,
    pub proof_id: Option<String>,
}

/// A progress record as a lookup finds it: the stored one, or the record
/// that stands for a pair without one.
#[derive(Clone, Debug, PartialEq)]
pub enum Loaded {
    Existing(UserAchievement),
    Default(UserAchievement),
}

/// The attestation categories that count towards an achievement.
pub open spec fn recognized(proof_type: Seq<char>) -> bool {
    ||| proof_type == "pet_care"@
    ||| proof_type == "game_session"@
    ||| proof_type == "pet_status"@
}

/// Progress and completion that an attestation of this category earns: a
/// recognized category completes the achievement, any other earns nothing.
/// The requirements of the achievement play no part.
pub open spec fn evaluation(proof_type: Seq<char>) -> (u8, bool) {
    if recognized(proof_type) {
        (100u8, true)
    } else {
        (0u8, false)
    }
}

/// Computes [`evaluation`] for the category of `proof`.
pub fn process_achievement_proof(achievement: &Achievement, proof: &ZkTLSProof) -> (r: (u8, bool))
    ensures
        r == evaluation(proof.proof_type@),
{
    if proof.proof_type == String::from_str("pet_care") || proof.proof_type == String::from_str(
        "game_session",
    ) || proof.proof_type == String::from_str("pet_status") {
        (100, true)
    } else {
        (0, false)
    }
}

impl UserAchievement {
    /// A completed record carries the time of its completion, and progress
    /// is a percentage.
    pub open spec fn sound(self) -> bool {
        &&& self.completed ==> self.completed_at.is_some()
        &&& self.progress <= 100
    }

    /// The record of a pair that has none yet.
    pub open spec fn fresh(user: String, achievement_id: String) -> UserAchievement {
        UserAchievement {
            user,
            achievement_id,
            progress: 0,
            completed: false,
            completed_at: None,
            proof_id: None,
        }
    }

    /// The record after a submission: progress and completion are what the
    /// submission earned, and the time of completion is set the first time
    /// the record completes, never again.
    pub open spec fn advanced(
        self,
        progress: u8,
        completed: bool,
        proof_id: String,
        now: u64,
    ) -> UserAchievement {
        UserAchievement {
            progress,
            completed,
            completed_at: if completed && self.completed_at.is_none() {
                Some(now)
            } else {
                self.completed_at
            },
            proof_id: Some(proof_id),
            ..self
        }
    }

    /// Computes [`Self::fresh`].
    pub fn new(user: String, achievement_id: String) -> (r: UserAchievement)
        ensures
            r == Self::fresh(user, achievement_id),
            r.sound(),
    {
        UserAchievement {
            user,
            achievement_id,
            progress: 0,
            completed: false,
            completed_at: None,
            proof_id: None,
        }
    }

    /// A copy of this record.
    pub fn duplicate(&self) -> (r: UserAchievement)
        ensures
            r == *self,
    {
        UserAchievement {
            user: self.user.clone(),
            achievement_id: self.achievement_id.clone(),
            progress: self.progress,
            completed: self.completed,
            completed_at: self.completed_at,
            proof_id: match &self.proof_id {
                Some(id) => Some(id.clone()),
                None => None,
            },
        }
    }

    /// Computes [`Self::advanced`].
    pub fn advance(self, progress: u8, completed: bool, proof_id: String, now: u64) -> (r:
        UserAchievement)
        ensures
            r == self.advanced(progress, completed, proof_id, now),
            self.completed_at.is_some() ==> r.completed_at == self.completed_at,
            progress <= 100 ==> r.sound(),
    {
        let mut r = self;
        r.progress = progress;
        r.completed = completed;
        r.proof_id = Some(proof_id);
        if completed && r.completed_at.is_none() {
            r.completed_at = Some(now);
        }
        r
    }
}

impl Loaded {
    /// The record, whichever way it came.
    pub open spec fn record(self) -> UserAchievement {
        match self {
            Loaded::Existing(r) => r,
            Loaded::Default(r) => r,
        }
    }

    /// Computes [`Self::record`].
    pub fn into_record(self) -> (r: UserAchievement)
        ensures
            r == self.record(),
    {
        match self {
            Loaded::Existing(r) => r,
            Loaded::Default(r) => r,
        }
    }
}

/// The stored attestation after the administrator has vouched for it.
pub open spec fn vouched(proof: ZkTLSProof) -> ZkTLSProof {
    ZkTLSProof { verified: true, ..proof }
}

/// Computes [`vouched`] on a copy of `proof`.
pub fn vouch(proof: &ZkTLSProof) -> (r: ZkTLSProof)
    ensures
        r == vouched(*proof),
{
    ZkTLSProof {
        id: proof.id.clone(),
        proof_type: proof.proof_type.clone(),
        signature: proof.signature.clone(),
        timestamp: proof.timestamp,
        data_hash: proof.data_hash.clone(),
        verified: true,
    }
}

/// Selects the progress records of one user.
pub open spec fn earned_by(user: Seq<char>) -> spec_fn(UserAchievement) -> bool {
    |u: UserAchievement| u.user@ == user
}

} // verus!
