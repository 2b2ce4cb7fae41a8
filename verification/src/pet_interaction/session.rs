//! Game sessions and their two-phase life: open, then completed.

use vstd::prelude::*;

verus! {

/// One change of the active pet during a session.
#[derive(Clone, Debug, PartialEq)]
pub struct PetSwap {
    pub from_pet: Option<String>,
    pub to_pet: String,
    pub height: u128,
    pub timestamp: u64,
}

/// A game session as one submission describes it in full.
#[derive(Clone, Debug, PartialEq)]
pub struct GameSession {
    pub session_id: String,
    pub player: String,
    pub pet_ids: Vec<String>,
    pub start_time: u64,
    pub end_time: Option<u64>,
    pub max_height: u128,
    pub final_score: u128,
    pub pet_swaps: Vec<PetSwap>,
    pub completed: bool,
}

impl GameSession {
    /// A completed session has an end time.
    pub open spec fn sealed(self) -> bool {
        self.completed ==> self.end_time.is_some()
    }

    /// The session as the registry stores it: the player is the sender, and
    /// a session that arrives completed without an end time ends now.
    pub open spec fn accepted(self, player: String, now: u64) -> GameSession {
        GameSession {
            player,
            end_time: if self.completed && self.end_time.is_none() {
                Some(now)
            } else {
                self.end_time
            },
            ..self
        }
    }

    /// Computes [`Self::accepted`]; the result is [`Self::sealed`].
    pub fn accept(self, player: String, now: u64) -> (r: GameSession)
        ensures
            r == self.accepted(player, now),
            r.sealed(),
    {
        let mut r = self;
        r.player = player;
        if r.completed && r.end_time.is_none() {
            r.end_time = Some(now);
        }
        r
    }
}

/// Selects the sessions of one player.
pub open spec fn played_by(player: Seq<char>) -> spec_fn(GameSession) -> bool {
    |s: GameSession| s.player@ == player
}

} // verus!
