//! Showing and changing the state of a vision.

use crate::cli::parsers::{
    complaint_about, id_complaint, is_complaint, is_lookup_error, locate_parsed, lookup, read_id,
};
use crate::engine::state_machine::{is_allowed, StateMachine};
use crate::error::{TensileError, TensileResult};
use crate::models::ident::parsed_uuid;
use crate::models::{Database, Timestamp, VisionState};
use crate::text::labelled;
use vstd::prelude::*;

verus! {

#[derive(Debug)]
pub enum StateCommands {
    /// Show the current state of a vision.
    Show { vision_id: String },
    /// Move a vision to a new state.
    Transition { vision_id: String, state: String },
}

/// What a state command has to show.
#[derive(Debug)]
pub enum StateReport {
    /// Where a vision stands.
    Current { title: String, state: VisionState, created_at: Timestamp, completed: bool },
    /// The move that was made.
    Transitioned { from: VisionState, to: VisionState },
}

/// What showing the state comes to, given what was read from `vision_id`:
/// where the vision that is named stands, or the error that tells why none
/// is named.
pub open spec fn show_state_outcome(
    db: &Database,
    parsed: Option<u128>,
    vision_id: Seq<char>,
    outcome: TensileResult<StateReport>,
) -> bool {
    match outcome {
        Ok(report) => {
            &&& lookup(db, parsed) matches Some(id)
            &&& report == (StateReport::Current {
                title: db.vision_with_id(id).title,
                state: db.vision_with_id(id).state,
                created_at: db.vision_with_id(id).created_at,
                completed: db.vision_with_id(id).completed,
            })
        },
        Err(error) => lookup(db, parsed) is None && is_lookup_error(db, parsed, vision_id, error),
    }
}

/// `after` is `before` with the first vision of the identifier `id` in the
/// state `to`.
pub open spec fn moves_vision(before: Database, after: Database, id: u128, to: VisionState) -> bool {
    &&& after.visions@ == before.visions@.update(
        before.place_of(id),
        before.vision_with_id(id).with_state(to),
    )
    &&& after.realities == before.realities
    &&& after.actions == before.actions
    &&& after.user == before.user
}

/// Why a transition is refused, given what was read from the two texts:
/// the first of the identifier that could not be read, the state that has
/// no such name, the vision that is not there, and the move that the life
/// cycle does not allow.
pub open spec fn is_transition_error(
    db: &Database,
    parsed: Option<u128>,
    vision_id: Seq<char>,
    asked: Option<VisionState>,
    state: Seq<char>,
    error: TensileError,
) -> bool {
    match (parsed, asked) {
        (None, _) => error matches TensileError::Parse(m) && m@ == "Invalid UUID: "@ + vision_id,
        (Some(_), None) => error matches TensileError::Parse(m) && m@ == "Unknown state: "@ + state,
        (Some(id), Some(to)) => if !db.has_vision(id) {
            error matches TensileError::NotFound(m) && m@ == "Vision not found: "@ + vision_id
        } else {
            &&& !is_allowed(db.vision_with_id(id).state, to)
            &&& error matches TensileError::InvalidStateTransition(a, b)
            &&& a@ == db.vision_with_id(id).state.spec_name()
            &&& b@ == to.spec_name()
        },
    }
}

/// What a transition comes to, given what was read from the two texts: the
/// vision is moved where a vision is named and a state to which the life
/// cycle lets it go; else the snapshot stays as it is and the error tells
/// why.
pub open spec fn transition_outcome(
    before: Database,
    after: Database,
    parsed: Option<u128>,
    vision_id: Seq<char>,
    asked: Option<VisionState>,
    state: Seq<char>,
    outcome: TensileResult<StateReport>,
) -> bool {
    match outcome {
        Ok(report) => {
            &&& lookup(&before, parsed) matches Some(id)
            &&& asked matches Some(to)
            &&& is_allowed(before.vision_with_id(id).state, to)
            &&& report == (StateReport::Transitioned { from: before.vision_with_id(id).state, to })
            &&& moves_vision(before, after, id, to)
        },
        Err(error) => after == before && is_transition_error(
            &before,
            parsed,
            vision_id,
            asked,
            state,
            error,
        ),
    }
}

/// Tells where a vision stands.
pub fn show_state(db: &Database, vision_id: String) -> (outcome: TensileResult<StateReport>)
    ensures
        show_state_outcome(db, parsed_uuid(vision_id@), vision_id@, outcome),
{
    let parsed = read_id(vision_id.as_str());
    show_state_with(db, parsed, vision_id)
}

/// Tells where the vision stands whose identifier was read from
/// `vision_id`.
pub fn show_state_with(db: &Database, parsed: Option<u128>, vision_id: String) -> (outcome:
    TensileResult<StateReport>)
    ensures
        show_state_outcome(db, parsed, vision_id@, outcome),
{
    let (id, place) = match locate_parsed(db, parsed, vision_id.as_str()) {
        Ok(found) => found,
        Err(error) => {
            return Err(error);
        },
    };
    let vision = &db.visions[place];
    Ok(
        StateReport::Current {
            title: vision.title.clone(),
            state: vision.state,
            created_at: vision.created_at,
            completed: vision.completed,
        },
    )
}

/// Moves a vision to the state that `new_state` names.
pub fn transition_state(db: &mut Database, vision_id: String, new_state: String) -> (outcome:
    TensileResult<StateReport>)
    ensures
        transition_outcome(
            *old(db),
            *final(db),
            parsed_uuid(vision_id@),
            vision_id@,
            VisionState::spec_asked(new_state@),
            new_state@,
            outcome,
        ),
{
    let parsed = read_id(vision_id.as_str());
    let asked = VisionState::asked(new_state.as_str());
    transition_state_with(db, parsed, vision_id, asked, new_state)
}

/// Moves a vision to a new state, given the identifier that was read from
/// `vision_id` and the state that `new_state` names.
pub fn transition_state_with(
    db: &mut Database,
    parsed: Option<u128>,
    vision_id: String,
    asked: Option<VisionState>,
    new_state: String,
) -> (outcome: TensileResult<StateReport>)
    ensures
        transition_outcome(
            *old(db),
            *final(db),
            parsed,
            vision_id@,
            asked,
            new_state@,
            outcome,
        ),
{
    let id = match parsed {
        Some(id) => id,
        None => {
            return Err(TensileError::Parse(labelled("Invalid UUID: ", vision_id.as_str())));
        },
    };
    let to = match VisionState::state_or_complaint(asked, new_state.as_str()) {
        Ok(state) => state,
        Err(message) => {
            return Err(TensileError::Parse(message));
        },
    };
    let place = match db.find_vision(id) {
        Some(place) => place,
        None => {
            return Err(TensileError::NotFound(labelled("Vision not found: ", vision_id.as_str())));
        },
    };
    let from = db.visions[place].state;
    match StateMachine::validate_transition(&from, &to) {
        Ok(()) => {},
        Err(error) => {
            return Err(error);
        },
    }
    db.visions[place].state = to;
    proof {
        assert(db.visions@ =~= old(db).visions@.update(
            place as int,
            old(db).visions@[place as int].with_state(to),
        ));
    }
    Ok(StateReport::Transitioned { from, to })
}

impl StateCommands {
    /// The complaint that the command ends in whatever the snapshot holds:
    /// that about the first of its texts that cannot be read. A command that
    /// reads its texts only once the snapshot is there has none.
    pub open spec fn spec_unreadable(self) -> Option<Seq<char>> {
        match self {
            StateCommands::Show { vision_id } => id_complaint(
                parsed_uuid(vision_id@),
                vision_id@,
                "Invalid UUID: "@,
            ),
            StateCommands::Transition { vision_id, state } => if parsed_uuid(vision_id@) is None {
                Some("Invalid UUID: "@ + vision_id@)
            } else if VisionState::spec_asked(state@) is None {
                Some("Unknown state: "@ + state@)
            } else {
                None
            },
        }
    }

    /// The parse error that the command ends in whatever the snapshot holds,
    /// if there is one.
    pub fn unreadable(&self) -> (error: Option<TensileError>)
        ensures
            is_complaint(error, self.spec_unreadable()),
    {
        match self {
            StateCommands::Show { vision_id } => complaint_about(
                read_id(vision_id.as_str()),
                vision_id.as_str(),
                "Invalid UUID: ",
            ),
            StateCommands::Transition { vision_id, state } => {
                match complaint_about(
                    read_id(vision_id.as_str()),
                    vision_id.as_str(),
                    "Invalid UUID: ",
                ) {
                    Some(error) => Some(error),
                    None => match VisionState::parse(state.as_str()) {
                        Ok(_) => None,
                        Err(message) => Some(TensileError::Parse(message)),
                    },
                }
            },
        }
    }

    /// What the command comes to, from the snapshot `before` to the snapshot
    /// `after`.
    pub open spec fn outcome_of(
        self,
        before: Database,
        after: Database,
        outcome: TensileResult<StateReport>,
    ) -> bool {
        match self {
            StateCommands::Show { vision_id } => after == before && show_state_outcome(
                &before,
                parsed_uuid(vision_id@),
                vision_id@,
                outcome,
            ),
            StateCommands::Transition { vision_id, state } => transition_outcome(
                before,
                after,
                parsed_uuid(vision_id@),
                vision_id@,
                VisionState::spec_asked(state@),
                state@,
                outcome,
            ),
        }
    }

    /// Carries out the command on the snapshot.
    pub fn execute(self, db: &mut Database) -> (outcome: TensileResult<StateReport>)
        ensures
            self.outcome_of(*old(db), *final(db), outcome),
    {
        match self {
            StateCommands::Show { vision_id } => show_state(db, vision_id),
            StateCommands::Transition { vision_id, state } => transition_state(
                db,
                vision_id,
                state,
            ),
        }
    }
}

} // verus!
