//! Assessments of current reality.

use crate::engine::ranking::Ranked;
use crate::models::ident::fresh_id;
use crate::models::time::{clock_reading, Timestamp};
use vstd::prelude::*;

verus! {

/// One recorded look at where things stand for a vision.
#[derive(Debug)]
pub struct RealityAssessment {
    pub id: u128,
    pub vision_id: u128,
    pub entry: String,
    pub timestamp: Timestamp,
}

impl RealityAssessment {
    /// A new assessment for `vision_id`, with a fresh identifier, stamped
    /// with the present time.
    pub fn new(vision_id: u128, entry: String) -> (assessment: RealityAssessment)
        ensures
            assessment.vision_id == vision_id,
            assessment.entry == entry,
    {
        RealityAssessment::recorded(fresh_id(), vision_id, entry, clock_reading())
    }

    /// The assessment with the given identifier and time.
    pub fn recorded(id: u128, vision_id: u128, entry: String, timestamp: Timestamp) -> (assessment:
        RealityAssessment)
        ensures
            assessment == (RealityAssessment { id, vision_id, entry, timestamp }),
    {
        RealityAssessment { id, vision_id, entry, timestamp }
    }
}

impl Clone for RealityAssessment {
    fn clone(&self) -> (copy: RealityAssessment)
        ensures
            copy == *self,
    {
        RealityAssessment {
            id: self.id,
            vision_id: self.vision_id,
            entry: self.entry.clone(),
            timestamp: self.timestamp,
        }
    }
}

/// Assessments rank by their time: the later, the higher.
impl Ranked for RealityAssessment {
    open spec fn outranks_or_ties(&self, other: &Self) -> bool {
        self.timestamp.instant() >= other.timestamp.instant()
    }

    fn at_least(&self, other: &Self) -> (holds: bool) {
        !other.timestamp.is_after(&self.timestamp)
    }

    proof fn lemma_total(a: &Self, b: &Self) {
    }

    proof fn lemma_transitive(a: &Self, b: &Self, c: &Self) {
    }
}

} // verus!
