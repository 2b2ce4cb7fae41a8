//! Bounded vital counters and the clamped signed update applied to them.

use vstd::prelude::*;

verus! {

/// The largest value a vital counter takes after a clamped update.
pub const VITAL_MAX: u8 = 100;

/// `v + d` forced into `[0, 100]`, over the mathematical integers.
pub open spec fn clamped_sum(v: int, d: int) -> int {
    if v + d < 0 {
        0
    } else if v + d > 100 {
        100
    } else {
        v + d
    }
}

/// Applies the signed delta `change` to the counter `current` and clamps the
/// sum into `[0, 100]`. The sum is formed in a wider type, so no input
/// overflows.
pub fn apply_change(current: u8, change: i8) -> (r: u8)
    ensures
        r as int == clamped_sum(current as int, change as int),
        r <= VITAL_MAX,
{
    let new_value: i16 = current as i16 + change as i16;
    if new_value < 0 {
        0
    } else if new_value > 100 {
        100
    } else {
        new_value as u8
    }
}

/// A clamped update always lands in `[0, 100]`, and a zero delta leaves a
/// counter that is already in range where it is.
pub proof fn lemma_clamp_bounded(v: u8, d: i8)
    ensures
        0 <= clamped_sum(v as int, d as int) <= 100,
        v <= 100 ==> clamped_sum(v as int, 0) == v as int,
{
}

/// The vital-state record of one pet.
#[derive(Clone, Debug, PartialEq)]
pub struct PetStatus {
    pub pet_id: String,
    pub owner: String,
    pub happiness: u8,
    pub hunger: u8,
    pub energy: u8,
    pub cleanliness: u8,
    pub last_updated: u64,
    pub care_streak: u32,
}

/// The signed deltas that one care activity applies to the four counters.
#[derive(Clone, Debug, PartialEq)]
pub struct ActivityImpact {
    pub happiness_change: i8,
    pub hunger_change: i8,
    pub energy_change: i8,
    pub cleanliness_change: i8,
}

/// One care activity: feeding, playing, cleaning or resting.
#[derive(Clone, Debug, PartialEq)]
pub struct PetCareActivity {
    pub pet_id: String,
    pub owner: String,
    pub activity_type: String,
    pub timestamp: u64,
    pub impact: ActivityImpact,
}

impl PetStatus {
    /// All four counters lie in `[0, 100]`.
    pub open spec fn in_range(self) -> bool {
        &&& self.happiness <= 100
        &&& self.hunger <= 100
        &&& self.energy <= 100
        &&& self.cleanliness <= 100
    }

    /// The record as a status update stores it: whatever owner and time the
    /// caller wrote into it give way to the sender and to the block time.
    pub open spec fn claimed_by(self, owner: String, now: u64) -> PetStatus {
        PetStatus { owner, last_updated: now, ..self }
    }

    /// The record after one care activity of its owner: each counter moved
    /// by its delta and clamped, the time refreshed, the streak one longer.
    /// The streak stays at its largest value once it has reached it.
    pub open spec fn after_care(self, impact: ActivityImpact, now: u64) -> PetStatus {
        PetStatus {
            happiness: clamped_sum(self.happiness as int, impact.happiness_change as int) as u8,
            hunger: clamped_sum(self.hunger as int, impact.hunger_change as int) as u8,
            energy: clamped_sum(self.energy as int, impact.energy_change as int) as u8,
            cleanliness: clamped_sum(
                self.cleanliness as int,
                impact.cleanliness_change as int,
            ) as u8,
            last_updated: now,
            care_streak: if self.care_streak < u32::MAX {
                (self.care_streak + 1) as u32
            } else {
                self.care_streak
            },
            ..self
        }
    }

    /// Computes [`Self::claimed_by`].
    pub fn claim(self, owner: String, now: u64) -> (r: PetStatus)
        ensures
            r == self.claimed_by(owner, now),
    {
        let mut r = self;
        r.owner = owner;
        r.last_updated = now;
        r
    }

    /// Computes [`Self::after_care`]. Whatever the record held before, its
    /// counters are in range afterwards.
    pub fn care(&self, impact: &ActivityImpact, now: u64) -> (r: PetStatus)
        ensures
            r == self.after_care(*impact, now),
            r.in_range(),
            r.care_streak >= self.care_streak,
    {
        PetStatus {
            pet_id: self.pet_id.clone(),
            owner: self.owner.clone(),
            happiness: apply_change(self.happiness, impact.happiness_change),
            hunger: apply_change(self.hunger, impact.hunger_change),
            energy: apply_change(self.energy, impact.energy_change),
            cleanliness: apply_change(self.cleanliness, impact.cleanliness_change),
            last_updated: now,
            care_streak: if self.care_streak < u32::MAX {
                self.care_streak + 1
            } else {
                self.care_streak
            },
        }
    }
}

impl PetCareActivity {
    /// The activity as the ledger records it: owner and time are those of
    /// the accepting transaction, not what the caller supplied.
    pub open spec fn stamped(self, owner: String, now: u64) -> PetCareActivity {
        PetCareActivity { owner, timestamp: now, ..self }
    }

    /// Computes [`Self::stamped`].
    pub fn stamp(self, owner: String, now: u64) -> (r: PetCareActivity)
        ensures
            r == self.stamped(owner, now),
    {
        let mut r = self;
        r.owner = owner;
        r.timestamp = now;
        r
    }
}

/// What a care activity sent by `sender` does to the stored record of its
/// target: the owner's activity moves the counters, any other leaves the
/// ledger without a change to make.
pub open spec fn care_effect(
    current: Option<PetStatus>,
    sender: Seq<char>,
    impact: ActivityImpact,
    now: u64,
) -> Option<PetStatus> {
    match current {
        Some(status) => if status.owner@ == sender {
            Some(status.after_care(impact, now))
        } else {
            None
        },
        None => None,
    }
}

} // verus!
