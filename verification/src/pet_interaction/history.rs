//! The care history: an append-only log of accepted activities, held in
//! the order of their timestamps.

use vstd::prelude::*;
use vstd::string::*;
use crate::pet_interaction::vitals::PetCareActivity;
use crate::recent::{latest_matching, lemma_scan_done, lemma_scan_step, targets};

verus! {

/// One line of the log: the pet it is filed under and the activity.
#[derive(Clone, Debug, PartialEq)]
pub struct HistoryEntry {
    pub pet_id: String,
    pub activity: PetCareActivity,
}

/// No entry is dated before one that stands in front of it.
pub open spec fn time_ordered(log: Seq<HistoryEntry>) -> bool {
    forall|i: int, j: int|
        0 <= i <= j < log.len() ==> log[i].activity.timestamp <= log[j].activity.timestamp
}

/// Where an entry dated `t` goes: behind the last entry that is not dated
/// later than `t`.
pub open spec fn slot_for(log: Seq<HistoryEntry>, t: u64) -> int
    decreases log.len(),
{
    if log.len() == 0 {
        0
    } else if log.last().activity.timestamp <= t {
        log.len() as int
    } else {
        slot_for(log.drop_last(), t)
    }
}

/// Selects the entries filed under one pet.
pub open spec fn filed_under(pet_id: Seq<char>) -> spec_fn(HistoryEntry) -> bool {
    |e: HistoryEntry| e.pet_id@ == pet_id
}

/// What a history query returns: the activities filed under `pet_id`,
/// latest first, at most `limit` of them.
pub open spec fn recent_activities(log: Seq<HistoryEntry>, pet_id: Seq<char>, limit: nat) -> Seq<
    PetCareActivity,
> {
    latest_matching(log, filed_under(pet_id), limit).map_values(|e: HistoryEntry| e.activity)
}

/// The slot of an entry lies inside the log, and every entry from it on is
/// dated later than `t`.
pub proof fn lemma_slot_within(log: Seq<HistoryEntry>, t: u64)
    ensures
        0 <= slot_for(log, t) <= log.len(),
        forall|i: int| slot_for(log, t) <= i < log.len() ==> log[i].activity.timestamp > t,
    decreases log.len(),
{
    if log.len() > 0 && log.last().activity.timestamp > t {
        let front = log.drop_last();
        lemma_slot_within(front, t);
        assert forall|i: int| slot_for(log, t) <= i < log.len() implies log[i].activity.timestamp
            > t by {
            if i < front.len() {
                assert(front[i] == log[i]);
            }
        }
    }
}

/// In a log that is in the order of time, every entry in front of the slot
/// is dated no later than `t`.
pub proof fn lemma_slot_for(log: Seq<HistoryEntry>, t: u64)
    requires
        time_ordered(log),
    ensures
        forall|i: int| 0 <= i < slot_for(log, t) ==> log[i].activity.timestamp <= t,
    decreases log.len(),
{
    lemma_slot_within(log, t);
    if log.len() > 0 {
        if log.last().activity.timestamp > t {
            let front = log.drop_last();
            lemma_slot_within(front, t);
            lemma_slot_for(front, t);
            assert forall|i: int| 0 <= i < slot_for(log, t) implies log[i].activity.timestamp
                <= t by {
                assert(front[i] == log[i]);
            }
        } else {
            assert forall|i: int| 0 <= i < slot_for(log, t) implies log[i].activity.timestamp
                <= t by {
                assert(log[i].activity.timestamp <= log[log.len() - 1].activity.timestamp);
            }
        }
    }
}

/// Filing an entry in its slot keeps the log in the order of time.
pub proof fn lemma_insert_keeps_order(log: Seq<HistoryEntry>, entry: HistoryEntry)
    requires
        time_ordered(log),
    ensures
        time_ordered(log.insert(slot_for(log, entry.activity.timestamp), entry)),
{
    let t = entry.activity.timestamp;
    let at = slot_for(log, t);
    lemma_slot_within(log, t);
    lemma_slot_for(log, t);
    let after = log.insert(at, entry);
    assert forall|i: int, j: int| 0 <= i <= j < after.len() implies after[i].activity.timestamp
        <= after[j].activity.timestamp by {
        let i0 = if i < at { i } else { i - 1 };
        let j0 = if j < at { j } else { j - 1 };
        if i != at && j != at {
            assert(after[i] == log[i0]);
            assert(after[j] == log[j0]);
        } else if i == at && j != at {
            assert(after[j] == log[j0]);
        } else if i != at && j == at {
            assert(after[i] == log[i0]);
        }
    }
}

/// No activity is dated after one that stands in front of it.
pub open spec fn newest_first(found: Seq<PetCareActivity>) -> bool {
    forall|i: int, j: int| 0 <= i <= j < found.len() ==> found[i].timestamp >= found[j].timestamp
}

/// Selecting from a log in the order of time leaves what is selected in
/// the order of time.
pub proof fn lemma_filter_keeps_order(log: Seq<HistoryEntry>, pred: spec_fn(HistoryEntry) -> bool)
    requires
        time_ordered(log),
    ensures
        time_ordered(log.filter(pred)),
    decreases log.len(),
{
    reveal(Seq::filter);
    if log.len() > 0 {
        let front = log.drop_last();
        let last = log.last();
        assert forall|i: int, j: int| 0 <= i <= j < front.len() implies front[i].activity.timestamp
            <= front[j].activity.timestamp by {
            assert(front[i] == log[i] && front[j] == log[j]);
        }
        lemma_filter_keeps_order(front, pred);
        if pred(last) {
            let kept = front.filter(pred);
            assert forall|i: int, j: int| 0 <= i <= j < kept.push(last).len() implies kept.push(
                last,
            )[i].activity.timestamp <= kept.push(last)[j].activity.timestamp by {
                if j == kept.len() && i < j {
                    assert(kept.contains(kept[i]));
                    front.lemma_filter_contains_rev(pred, kept[i]);
                    let k = front.index_of(kept[i]);
                    assert(front[k] == log[k]);
                    assert(log[k].activity.timestamp <= log[log.len() - 1].activity.timestamp);
                }
            }
        }
    }
}

/// What a history query returns from a log in the order of time comes
/// latest first.
pub proof fn lemma_recent_is_newest_first(log: Seq<HistoryEntry>, pet_id: Seq<char>, limit: nat)
    requires
        time_ordered(log),
    ensures
        newest_first(recent_activities(log, pet_id, limit)),
{
    let kept = log.filter(filed_under(pet_id));
    lemma_filter_keeps_order(log, filed_under(pet_id));
    let found = recent_activities(log, pet_id, limit);
    assert forall|i: int, j: int| 0 <= i <= j < found.len() implies found[i].timestamp
        >= found[j].timestamp by {
        assert(found[i] == kept[kept.len() - 1 - i].activity);
        assert(found[j] == kept[kept.len() - 1 - j].activity);
    }
}

/// The append-only log of care activities.
pub struct CareHistory {
    entries: Vec<HistoryEntry>,
}

impl View for CareHistory {
    type V = Seq<HistoryEntry>;

    closed spec fn view(&self) -> Seq<HistoryEntry> {
        self.entries@
    }
}

impl CareHistory {
    #[verifier::type_invariant]
    spec fn in_order(self) -> bool {
        time_ordered(self.entries@)
    }

    /// An empty log.
    pub fn new() -> (log: Self)
        ensures
            log@ == Seq::<HistoryEntry>::empty(),
    {
        CareHistory { entries: Vec::new() }
    }

    /// The number of entries.
    pub fn len(&self) -> (n: usize)
        ensures
            n == self@.len(),
            time_ordered(self@),
    {
        proof {
            use_type_invariant(self);
        }
        self.entries.len()
    }

    /// The entry at place `i`, counted from the oldest.
    pub fn entry_at(&self, i: usize) -> (e: &HistoryEntry)
        requires
            i < self@.len(),
        ensures
            *e == self@[i as int],
    {
        &self.entries[i]
    }

    /// Files `activity` under `pet_id`. Nothing that the log holds is
    /// changed or dropped: the entry goes behind every entry that is not
    /// dated later than it.
    pub fn append(&mut self, pet_id: String, activity: PetCareActivity)
        ensures
            final(self)@ == old(self)@.insert(
                slot_for(old(self)@, activity.timestamp),
                HistoryEntry { pet_id, activity },
            ),
            final(self)@.len() == old(self)@.len() + 1,
            time_ordered(final(self)@),
    {
        proof {
            use_type_invariant(&*self);
        }
        let ghost before = self@;
        let t = activity.timestamp;
        let mut entries: Vec<HistoryEntry> = Vec::new();
        core::mem::swap(&mut self.entries, &mut entries);
        let mut at: usize = entries.len();
        proof {
            assert(before.take(at as int) =~= before);
        }
        while at > 0 && entries[at - 1].activity.timestamp > t
            invariant
                entries@ == before,
                at <= entries.len(),
                slot_for(before, t) == slot_for(before.take(at as int), t),
            decreases at,
        {
            proof {
                assert(before.take(at as int).drop_last() =~= before.take(at - 1));
            }
            at -= 1;
        }
        proof {
            assert(before.take(before.len() as int) =~= before);
            if at > 0 {
                assert(before.take(at as int).last() == before[at - 1]);
            }
            assert(slot_for(before, t) == at);
            lemma_slot_within(before, t);
            lemma_insert_keeps_order(before, HistoryEntry { pet_id, activity });
        }
        entries.insert(at, HistoryEntry { pet_id, activity });
        self.entries = entries;
    }

    /// The activities filed under `pet_id`, latest first, at most `limit`
    /// of them.
    pub fn recent(&self, pet_id: &str, limit: usize) -> (out: Vec<&PetCareActivity>)
        ensures
            targets(out@) == recent_activities(self@, pet_id@, limit as nat),
            newest_first(targets(out@)),
    {
        proof {
            use_type_invariant(self);
            lemma_recent_is_newest_first(self@, pet_id@, limit as nat);
        }
        let wanted = String::from_str(pet_id);
        let ghost pred = filed_under(pet_id@);
        let mut out: Vec<&PetCareActivity> = Vec::new();
        let mut i: usize = self.entries.len();
        proof {
            reveal(Seq::filter);
            assert(self@.skip(i as int) =~= Seq::<HistoryEntry>::empty());
            assert(self@.skip(i as int).filter(pred) =~= Seq::<HistoryEntry>::empty());
            assert(targets(out@) =~= self@.skip(i as int).filter(pred).reverse().map_values(
                |e: HistoryEntry| e.activity,
            ));
        }
        while i > 0 && out.len() < limit
            invariant
                i <= self.entries.len(),
                wanted@ == pet_id@,
                pred == filed_under(pet_id@),
                out.len() <= limit,
                out@.len() == self@.skip(i as int).filter(pred).len(),
                targets(out@) == self@.skip(i as int).filter(pred).reverse().map_values(
                    |e: HistoryEntry| e.activity,
                ),
            decreases i,
        {
            proof {
                lemma_scan_step(self@, pred, i as int);
            }
            i -= 1;
            if self.entries[i].pet_id == wanted {
                let ghost held = out@;
                out.push(&self.entries[i].activity);
                proof {
                    let sel = self@.skip(i + 1).filter(pred).reverse();
                    assert(targets(out@) =~= targets(held).push(self@[i as int].activity));
                    assert(sel.push(self@[i as int]).map_values(|e: HistoryEntry| e.activity)
                        =~= sel.map_values(|e: HistoryEntry| e.activity).push(
                        self@[i as int].activity,
                    ));
                }
            }
        }
        proof {
            lemma_scan_done(self@, pred, limit as nat, i as int);
        }
        out
    }
}

} // verus!
