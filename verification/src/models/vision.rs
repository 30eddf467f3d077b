//! Visions and the states of their life cycle.

use crate::models::ident::fresh_id;
use crate::text::{labelled, same_text, to_lowercase};
use crate::models::time::{clock_reading, Timestamp};
use vstd::prelude::*;

verus! {

/// Where a vision stands in its life cycle.
#[derive(Clone, Copy, Debug, PartialEq, Eq, Structural)]
pub enum VisionState {
    Conceived,
    InProgress,
    Blocked,
    Reassessed,
    Achieved,
}

impl VisionState {
    /// The state's name as it is displayed and stored.
    pub open spec fn spec_name(self) -> Seq<char> {
        match self {
            VisionState::Conceived => "Conceived"@,
            VisionState::InProgress => "InProgress"@,
            VisionState::Blocked => "Blocked"@,
            VisionState::Reassessed => "Reassessed"@,
            VisionState::Achieved => "Achieved"@,
        }
    }

    pub fn name(&self) -> (text: &'static str)
        ensures
            text@ == self.spec_name(),
    {
        match self {
            VisionState::Conceived => "Conceived",
            VisionState::InProgress => "InProgress",
            VisionState::Blocked => "Blocked",
            VisionState::Reassessed => "Reassessed",
            VisionState::Achieved => "Achieved",
        }
    }
}

impl VisionState {
    /// The state that a name in lower case stands for.
    pub open spec fn spec_named(name: Seq<char>) -> Option<VisionState> {
        if name == "conceived"@ {
            Some(VisionState::Conceived)
        } else if name == "inprogress"@ || name == "in_progress"@ {
            Some(VisionState::InProgress)
        } else if name == "blocked"@ {
            Some(VisionState::Blocked)
        } else if name == "reassessed"@ {
            Some(VisionState::Reassessed)
        } else if name == "achieved"@ {
            Some(VisionState::Achieved)
        } else {
            None
        }
    }

    /// The state that `name`, written in lower case, stands for.
    pub fn named(name: &str) -> (state: Option<VisionState>)
        ensures
            state == VisionState::spec_named(name@),
    {
        if same_text(name, "conceived") {
            Some(VisionState::Conceived)
        } else if same_text(name, "inprogress") || same_text(name, "in_progress") {
            Some(VisionState::InProgress)
        } else if same_text(name, "blocked") {
            Some(VisionState::Blocked)
        } else if same_text(name, "reassessed") {
            Some(VisionState::Reassessed)
        } else if same_text(name, "achieved") {
            Some(VisionState::Achieved)
        } else {
            None
        }
    }

    /// The state that a text names, in whatever case it is written.
    pub open spec fn spec_asked(text: Seq<char>) -> Option<VisionState> {
        VisionState::spec_named(crate::text::lowercase_of(text))
    }

    /// What reading a state from `text` comes to, given the state that the
    /// text names, if any: that state, or the text as it came, reported as
    /// the name of no state.
    pub open spec fn reads_state(
        asked: Option<VisionState>,
        text: Seq<char>,
        outcome: Result<VisionState, String>,
    ) -> bool {
        match asked {
            Some(state) => outcome == Ok::<VisionState, String>(state),
            None => outcome matches Err(message) && message@ == "Unknown state: "@ + text,
        }
    }

    /// The state that `text` names, in whatever case it is written.
    pub fn asked(text: &str) -> (state: Option<VisionState>)
        ensures
            state == VisionState::spec_asked(text@),
    {
        let lower = to_lowercase(text);
        VisionState::named(lower.as_str())
    }

    /// Turns the state that `text` names, if any, into a result.
    pub fn state_or_complaint(asked: Option<VisionState>, text: &str) -> (outcome: Result<
        VisionState,
        String,
    >)
        ensures
            VisionState::reads_state(asked, text@, outcome),
    {
        match asked {
            Some(state) => Ok(state),
            None => Err(labelled("Unknown state: ", text)),
        }
    }

    /// Reads a state from its name, in whatever case it is written. A name
    /// that stands for no state is reported as it came.
    pub fn parse(text: &str) -> (outcome: Result<VisionState, String>)
        ensures
            VisionState::reads_state(VisionState::spec_asked(text@), text@, outcome),
    {
        VisionState::state_or_complaint(VisionState::asked(text), text)
    }
}

impl std::str::FromStr for VisionState {
    type Err = String;

    /// Reads a state from its name, as `parse` does: the state that the text
    /// names in whatever case, or the text as it came, reported as the name
    /// of no state.
    fn from_str(s: &str) -> (outcome: Result<Self, Self::Err>)
        ensures
            VisionState::reads_state(VisionState::spec_asked(s@), s@, outcome),
    {
        VisionState::parse(s)
    }
}

/// A long-term goal, possibly nested under another.
#[derive(Clone, Debug)]
pub struct Vision {
    pub id: u128,
    pub title: String,
    pub description: Option<String>,
    pub parent: Option<u128>,
    pub children: Vec<u128>,
    pub created_at: Timestamp,
    pub completed: bool,
    pub state: VisionState,
}

impl Vision {
    /// This vision in another state.
    pub open spec fn with_state(self, state: VisionState) -> Vision {
        Vision { state, ..self }
    }

    /// This vision with another description.
    pub open spec fn with_description(self, description: Option<String>) -> Vision {
        Vision { description, ..self }
    }

    /// This vision under another parent.
    pub open spec fn with_parent(self, parent: Option<u128>) -> Vision {
        Vision { parent, ..self }
    }

    /// This vision with other children.
    pub open spec fn with_children(self, children: Vec<u128>) -> Vision {
        Vision { children, ..self }
    }

    /// This vision achieved: completed, and in the state `Achieved`.
    pub open spec fn achieved(self) -> Vision {
        Vision { completed: true, state: VisionState::Achieved, ..self }
    }

    /// A new vision with a fresh identifier, created at the present time:
    /// conceived, not completed, unlinked and without a description.
    pub fn new(title: String) -> (vision: Vision)
        ensures
            vision.title == title,
            vision.description is None,
            vision.parent is None,
            vision.children@.len() == 0,
            !vision.completed,
            vision.state == VisionState::Conceived,
    {
        Vision::conceived(fresh_id(), title, clock_reading())
    }

    /// The vision as it is when first conceived, with the given identifier
    /// and time of creation.
    pub fn conceived(id: u128, title: String, created_at: Timestamp) -> (vision: Vision)
        ensures
            vision.id == id,
            vision.title == title,
            vision.description is None,
            vision.parent is None,
            vision.children@.len() == 0,
            vision.created_at == created_at,
            !vision.completed,
            vision.state == VisionState::Conceived,
    {
        Vision {
            id,
            title,
            description: None,
            parent: None,
            children: Vec::new(),
            created_at,
            completed: false,
            state: VisionState::Conceived,
        }
    }
}

} // verus!
