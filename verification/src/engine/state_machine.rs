//! The legal moves between the states of a vision.

use crate::error::{TensileError, TensileResult};
use crate::models::VisionState;
use vstd::prelude::*;
use vstd::string::StringExecFns;

verus! {

pub struct StateMachine;

/// The moves that change the state: the edges of the life cycle.
pub open spec fn is_edge(from: VisionState, to: VisionState) -> bool {
    match (from, to) {
        (VisionState::Conceived, VisionState::InProgress) => true,
        (VisionState::Conceived, VisionState::Achieved) => true,
        (VisionState::InProgress, VisionState::Blocked) => true,
        (VisionState::InProgress, VisionState::Reassessed) => true,
        (VisionState::InProgress, VisionState::Achieved) => true,
        (VisionState::Blocked, VisionState::InProgress) => true,
        (VisionState::Blocked, VisionState::Reassessed) => true,
        (VisionState::Reassessed, VisionState::InProgress) => true,
        (VisionState::Reassessed, VisionState::Achieved) => true,
        _ => false,
    }
}

/// A transition is allowed when it follows an edge or stays where it is.
pub open spec fn is_allowed(from: VisionState, to: VisionState) -> bool {
    from == to || is_edge(from, to)
}

impl StateMachine {
    /// Accepts the allowed transitions and rejects every other one with an
    /// error that names both states.
    pub fn validate_transition(from: &VisionState, to: &VisionState) -> (outcome: TensileResult<()>)
        ensures
            outcome is Ok <==> is_allowed(*from, *to),
            outcome matches Err(e) ==> (e matches TensileError::InvalidStateTransition(a, b)
                && a@ == from.spec_name() && b@ == to.spec_name()),
    {
        let valid = match (from, to) {
            (VisionState::Conceived, VisionState::InProgress) => true,
            (VisionState::Conceived, VisionState::Achieved) => true,
            (VisionState::InProgress, VisionState::Blocked) => true,
            (VisionState::InProgress, VisionState::Reassessed) => true,
            (VisionState::InProgress, VisionState::Achieved) => true,
            (VisionState::Blocked, VisionState::InProgress) => true,
            (VisionState::Blocked, VisionState::Reassessed) => true,
            (VisionState::Reassessed, VisionState::InProgress) => true,
            (VisionState::Reassessed, VisionState::Achieved) => true,
            (a, b) => *a == *b,
        };
        if valid {
            Ok(())
        } else {
            Err(
                TensileError::InvalidStateTransition(
                    String::from_str(from.name()),
                    String::from_str(to.name()),
                ),
            )
        }
    }
}

/// Staying in a state is always allowed.
pub proof fn lemma_self_transition_allowed(state: VisionState)
    ensures
        is_allowed(state, state),
{
}

/// Nothing leads out of `Achieved`.
pub proof fn lemma_achieved_is_final(to: VisionState)
    ensures
        is_allowed(VisionState::Achieved, to) <==> to == VisionState::Achieved,
{
}

} // verus!
