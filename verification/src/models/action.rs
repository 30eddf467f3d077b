//! Actions taken toward a vision.

use crate::engine::ranking::Ranked;
use crate::models::ident::fresh_id;
use crate::models::time::{clock_reading, Timestamp};
use vstd::prelude::*;

verus! {

/// One logged step toward a vision, and whether it succeeded.
#[derive(Debug)]
pub struct ActionLog {
    pub id: u128,
    pub vision_id: u128,
    pub entry: String,
    pub timestamp: Timestamp,
    pub success: bool,
}

impl ActionLog {
    /// A new entry for `vision_id`, with a fresh identifier, stamped with the
    /// present time and counted as a success.
    pub fn new(vision_id: u128, entry: String) -> (log: ActionLog)
        ensures
            log.vision_id == vision_id,
            log.entry == entry,
            log.success,
    {
        ActionLog::recorded(fresh_id(), vision_id, entry, clock_reading())
    }

    /// The entry with the given identifier and time, counted as a success.
    pub fn recorded(id: u128, vision_id: u128, entry: String, timestamp: Timestamp) -> (log:
        ActionLog)
        ensures
            log == (ActionLog { id, vision_id, entry, timestamp, success: true }),
    {
        ActionLog { id, vision_id, entry, timestamp, success: true }
    }
}

impl Clone for ActionLog {
    fn clone(&self) -> (copy: ActionLog)
        ensures
            copy == *self,
    {
        ActionLog {
            id: self.id,
            vision_id: self.vision_id,
            entry: self.entry.clone(),
            timestamp: self.timestamp,
            success: self.success,
        }
    }
}

/// Actions rank by their time: the later, the higher.
impl Ranked for ActionLog {
    open spec fn outranks_or_ties(&self, other: &Self) -> bool {
        self.timestamp.instant() >= other.timestamp.instant()
    }

    fn at_least(&self, other: &Self) -> (holds: bool) {
        !other.timestamp.is_after(&self.timestamp)
    }

    proof fn lemma_total(a: &Self, b: &Self) {
    }

    proof fn lemma_transitive(a: &Self, b: &Self, c: &Self) {
    }
}

} // verus!
