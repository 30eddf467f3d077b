//! The data model: visions, the entries logged against them, and the
//! snapshot that holds them all.

pub mod action;
pub mod ident;
pub mod links;
pub mod reality;
pub mod time;
pub mod user;
pub mod vision;

pub use action::ActionLog;
pub use reality::RealityAssessment;
pub use time::Timestamp;
pub use user::User;
pub use vision::{Vision, VisionState};

use vstd::prelude::*;

verus! {

/// The snapshot: every vision, assessment and action, in the order in which
/// they were recorded.
#[derive(Clone, Debug)]
pub struct Database {
    pub visions: Vec<Vision>,
    pub realities: Vec<RealityAssessment>,
    pub actions: Vec<ActionLog>,
    pub user: Option<User>,
}

impl Default for Database {
    fn default() -> (db: Database)
        ensures
            db.visions@.len() == 0,
            db.realities@.len() == 0,
            db.actions@.len() == 0,
            db.user is None,
    {
        Database { visions: Vec::new(), realities: Vec::new(), actions: Vec::new(), user: None }
    }
}

/// The actions that belong to the vision `id`.
pub open spec fn action_of(id: u128) -> spec_fn(ActionLog) -> bool {
    |a: ActionLog| a.vision_id == id
}

/// The actions that belong to the vision `id` and succeeded.
pub open spec fn success_of(id: u128) -> spec_fn(ActionLog) -> bool {
    |a: ActionLog| a.vision_id == id && a.success
}

/// The actions that belong to the vision `id` and lie within the `days`
/// days before `now`.
pub open spec fn recent_action_of(id: u128, now: Timestamp, days: nat) -> spec_fn(ActionLog) -> bool {
    |a: ActionLog| a.vision_id == id && a.timestamp.spec_is_within_days(now, days)
}

/// The assessments that belong to the vision `id`.
pub open spec fn reality_of(id: u128) -> spec_fn(RealityAssessment) -> bool {
    |r: RealityAssessment| r.vision_id == id
}

/// The visions in progress and not completed.
pub open spec fn is_active() -> spec_fn(Vision) -> bool {
    |v: Vision| !v.completed && v.state == VisionState::InProgress
}

/// The assessments of the vision `only`, or all of them where none is given.
pub open spec fn narrowed_to(only: Option<u128>) -> spec_fn(RealityAssessment) -> bool {
    |r: RealityAssessment| only is None || only == Some(r.vision_id)
}

/// No two of the visions share an identifier.
pub open spec fn has_unique_ids(visions: Seq<Vision>) -> bool {
    forall|i: int, j: int|
        #![trigger visions[i], visions[j]]
        0 <= i < j < visions.len() ==> visions[i].id != visions[j].id
}

/// Parents and children agree: a vision counts another among its children
/// exactly where the other names it as its parent.
pub open spec fn links_agree(visions: Seq<Vision>) -> bool {
    forall|p: int, c: int|
        #![trigger visions[p], visions[c]]
        0 <= p < visions.len() && 0 <= c < visions.len() ==> (visions[p].children@.contains(
            visions[c].id,
        ) <==> visions[c].parent == Some(visions[p].id))
}

impl Database {
    /// Whether some vision of the snapshot has the identifier `id`.
    pub open spec fn has_vision(&self, id: u128) -> bool {
        exists|i: int| 0 <= i < self.visions@.len() && self.visions@[i].id == id
    }

    /// Whether `i` is the place of the first vision with the identifier `id`.
    pub open spec fn is_first_with_id(&self, id: u128, i: int) -> bool {
        &&& 0 <= i < self.visions@.len()
        &&& self.visions@[i].id == id
        &&& forall|j: int| 0 <= j < i ==> self.visions@[j].id != id
    }

    /// The place of the first vision with the identifier `id`; meaningful
    /// where there is one.
    pub open spec fn place_of(&self, id: u128) -> int {
        choose|i: int| self.is_first_with_id(id, i)
    }

    /// The first vision with the identifier `id`; meaningful where there is one.
    pub open spec fn vision_with_id(&self, id: u128) -> Vision {
        self.visions@[self.place_of(id)]
    }

    /// The visions in progress and not completed.
    pub open spec fn spec_active_vision_count(&self) -> nat {
        self.visions@.filter(is_active()).len()
    }

    pub open spec fn spec_action_count(&self, id: u128) -> nat {
        self.actions@.filter(action_of(id)).len()
    }

    pub open spec fn spec_success_count(&self, id: u128) -> nat {
        self.actions@.filter(success_of(id)).len()
    }

    pub open spec fn spec_recent_action_count(&self, id: u128, now: Timestamp, days: nat) -> nat {
        self.actions@.filter(recent_action_of(id, now, days)).len()
    }

    pub open spec fn spec_reality_count(&self, id: u128) -> nat {
        self.realities@.filter(reality_of(id)).len()
    }

    /// The place of the first vision with the identifier `id`.
    pub fn find_vision(&self, id: u128) -> (place: Option<usize>)
        ensures
            place is Some <==> self.has_vision(id),
            place matches Some(i) ==> self.is_first_with_id(id, i as int) && i == self.place_of(id)
                && self.visions@[i as int] == self.vision_with_id(id),
    {
        let mut i: usize = 0;
        while i < self.visions.len()
            invariant
                i <= self.visions@.len(),
                forall|j: int| 0 <= j < i ==> self.visions@[j].id != id,
            decreases self.visions@.len() - i,
        {
            if self.visions[i].id == id {
                proof {
                    self.lemma_first_is_unique(id, i as int);
                }
                return Some(i);
            }
            i += 1;
        }
        None
    }

    /// There is at most one first vision with a given identifier.
    pub proof fn lemma_first_is_unique(&self, id: u128, i: int)
        requires
            self.is_first_with_id(id, i),
        ensures
            self.has_vision(id),
            self.place_of(id) == i,
            self.visions@[i] == self.vision_with_id(id),
            forall|k: int| self.is_first_with_id(id, k) ==> k == i,
    {
        let chosen = choose|k: int| self.is_first_with_id(id, k);
        assert(self.is_first_with_id(id, chosen));
        assert(chosen == i) by {
            if chosen < i {
                assert(self.visions@[chosen].id != id);
            } else if i < chosen {
                assert(self.visions@[i].id != id);
            }
        }
        assert forall|k: int| self.is_first_with_id(id, k) implies k == i by {
            if k < i {
                assert(self.visions@[k].id != id);
            } else if i < k {
                assert(self.visions@[i].id != id);
            }
        }
    }

    /// Where a vision has the identifier `id`, `place_of` is the place of
    /// the first that has it.
    pub proof fn lemma_place_of(&self, id: u128)
        requires
            self.has_vision(id),
        ensures
            self.is_first_with_id(id, self.place_of(id)),
    {
        let k = choose|k: int| 0 <= k < self.visions@.len() && self.visions@[k].id == id;
        self.lemma_first_before(id, k);
    }

    /// Before a vision with the identifier `id`, or at its place, stands the
    /// first vision with that identifier.
    pub proof fn lemma_first_before(&self, id: u128, k: int)
        requires
            0 <= k < self.visions@.len(),
            self.visions@[k].id == id,
        ensures
            exists|f: int| self.is_first_with_id(id, f),
        decreases k,
    {
        if exists|j: int| 0 <= j < k && self.visions@[j].id == id {
            let j = choose|j: int| 0 <= j < k && self.visions@[j].id == id;
            self.lemma_first_before(id, j);
        } else {
            assert(self.is_first_with_id(id, k));
        }
    }

    /// How many visions are in progress and not completed.
    pub fn active_vision_count(&self) -> (count: usize)
        ensures
            count == self.spec_active_vision_count(),
    {
        let mut count: usize = 0;
        let mut i: usize = 0;
        while i < self.visions.len()
            invariant
                i <= self.visions@.len(),
                count <= i,
                count == self.visions@.take(i as int).filter(is_active()).len(),
            decreases self.visions@.len() - i,
        {
            proof {
                lemma_filter_step(self.visions@, is_active(), i as int);
            }
            let vision = &self.visions[i];
            if !vision.completed && vision.state == VisionState::InProgress {
                count += 1;
            }
            i += 1;
        }
        assert(self.visions@.take(i as int) == self.visions@);
        count
    }

    /// How many actions belong to the vision `id`.
    pub fn action_count(&self, id: u128) -> (count: usize)
        ensures
            count == self.spec_action_count(id),
    {
        let mut count: usize = 0;
        let mut i: usize = 0;
        while i < self.actions.len()
            invariant
                i <= self.actions@.len(),
                count <= i,
                count == self.actions@.take(i as int).filter(action_of(id)).len(),
            decreases self.actions@.len() - i,
        {
            proof {
                lemma_filter_step(self.actions@, action_of(id), i as int);
            }
            if self.actions[i].vision_id == id {
                count += 1;
            }
            i += 1;
        }
        assert(self.actions@.take(i as int) == self.actions@);
        count
    }

    /// How many actions belong to the vision `id` and succeeded.
    pub fn success_count(&self, id: u128) -> (count: usize)
        ensures
            count == self.spec_success_count(id),
    {
        let mut count: usize = 0;
        let mut i: usize = 0;
        while i < self.actions.len()
            invariant
                i <= self.actions@.len(),
                count <= i,
                count == self.actions@.take(i as int).filter(success_of(id)).len(),
            decreases self.actions@.len() - i,
        {
            proof {
                lemma_filter_step(self.actions@, success_of(id), i as int);
            }
            if self.actions[i].vision_id == id && self.actions[i].success {
                count += 1;
            }
            i += 1;
        }
        assert(self.actions@.take(i as int) == self.actions@);
        count
    }

    /// How many actions belong to the vision `id` and were logged within the
    /// `days` days before `now`.
    pub fn recent_action_count(&self, id: u128, now: &Timestamp, days: u32) -> (count: usize)
        ensures
            count == self.spec_recent_action_count(id, *now, days as nat),
    {
        let mut count: usize = 0;
        let mut i: usize = 0;
        while i < self.actions.len()
            invariant
                i <= self.actions@.len(),
                count <= i,
                count == self.actions@.take(i as int).filter(
                    recent_action_of(id, *now, days as nat),
                ).len(),
            decreases self.actions@.len() - i,
        {
            proof {
                lemma_filter_step(self.actions@, recent_action_of(id, *now, days as nat), i as int);
            }
            if self.actions[i].vision_id == id && self.actions[i].timestamp.is_within_days(
                now,
                days,
            ) {
                count += 1;
            }
            i += 1;
        }
        assert(self.actions@.take(i as int) == self.actions@);
        count
    }

    /// How many assessments belong to the vision `id`.
    pub fn reality_count(&self, id: u128) -> (count: usize)
        ensures
            count == self.spec_reality_count(id),
    {
        let mut count: usize = 0;
        let mut i: usize = 0;
        while i < self.realities.len()
            invariant
                i <= self.realities@.len(),
                count <= i,
                count == self.realities@.take(i as int).filter(reality_of(id)).len(),
            decreases self.realities@.len() - i,
        {
            proof {
                lemma_filter_step(self.realities@, reality_of(id), i as int);
            }
            if self.realities[i].vision_id == id {
                count += 1;
            }
            i += 1;
        }
        assert(self.realities@.take(i as int) == self.realities@);
        count
    }
}

/// What one more element adds to the filtered part of a sequence's
/// beginning.
pub proof fn lemma_filter_step<T>(s: Seq<T>, keep: spec_fn(T) -> bool, i: int)
    requires
        0 <= i < s.len(),
    ensures
        s.take(0).filter(keep).len() == 0,
        s.take(i + 1).filter(keep) == if keep(s[i]) {
            s.take(i).filter(keep).push(s[i])
        } else {
            s.take(i).filter(keep)
        },
{
    reveal(Seq::filter);
    assert(s.take(i + 1) == s.take(i).push(s[i]));
    s.take(i).lemma_filter_push(s[i], keep);
}

} // verus!
