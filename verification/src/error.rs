//! The errors that the library reports.

use crate::text::labelled;
use vstd::prelude::*;
use vstd::string::StringExecFns;

verus! {

/// Everything that can go wrong, each kind with its detail.
#[derive(Debug)]
pub enum TensileError {
    Io(String),
    Database(String),
    Serialization(String),
    Parse(String),
    Validation(String),
    NotFound(String),
    StateConflict(String),
    InvalidStateTransition(String, String),
    Unknown(String),
}

pub type TensileResult<T> = Result<T, TensileError>;

impl TensileError {
    /// The text of the error as it is shown to a user.
    pub open spec fn spec_message(self) -> Seq<char> {
        match self {
            TensileError::Io(detail) => "IO error: "@ + detail@,
            TensileError::Database(detail) => "Database error: "@ + detail@,
            TensileError::Serialization(detail) => "Serialization error: "@ + detail@,
            TensileError::Parse(detail) => "Parse error: "@ + detail@,
            TensileError::Validation(detail) => "Validation error: "@ + detail@,
            TensileError::NotFound(detail) => "Not found: "@ + detail@,
            TensileError::StateConflict(detail) => "State conflict: "@ + detail@,
            TensileError::InvalidStateTransition(from, to) => "Invalid state transition: "@ + from@
                + " -> "@ + to@,
            TensileError::Unknown(detail) => "Unknown error: "@ + detail@,
        }
    }

    /// Renders the error for display.
    pub fn message(&self) -> (text: String)
        ensures
            text@ == self.spec_message(),
    {
        match self {
            TensileError::Io(detail) => labelled("IO error: ", detail.as_str()),
            TensileError::Database(detail) => labelled("Database error: ", detail.as_str()),
            TensileError::Serialization(detail) => labelled(
                "Serialization error: ",
                detail.as_str(),
            ),
            TensileError::Parse(detail) => labelled("Parse error: ", detail.as_str()),
            TensileError::Validation(detail) => labelled("Validation error: ", detail.as_str()),
            TensileError::NotFound(detail) => labelled("Not found: ", detail.as_str()),
            TensileError::StateConflict(detail) => labelled("State conflict: ", detail.as_str()),
            TensileError::InvalidStateTransition(from, to) => {
                let mut text = labelled("Invalid state transition: ", from.as_str());
                text.append(" -> ");
                text.append(to.as_str());
                text
            },
            TensileError::Unknown(detail) => labelled("Unknown error: ", detail.as_str()),
        }
    }
}

} // verus!
