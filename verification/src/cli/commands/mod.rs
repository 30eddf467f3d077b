//! The commands and what each has to show.

pub mod action;
pub mod metrics;
pub mod pattern;
pub mod reality;
pub mod state;
pub mod vision;

use crate::cli::commands::action::{ActionCommands, ActionReport};
use crate::cli::commands::metrics::{MetricsCommands, MetricsReport};
use crate::cli::commands::pattern::{PatternCommands, PatternReport};
use crate::cli::commands::reality::{RealityCommands, RealityReport};
use crate::cli::commands::state::{StateCommands, StateReport};
use crate::cli::commands::vision::{VisionCommands, VisionReport};
use crate::cli::parsers::is_complaint;
use crate::error::{TensileError, TensileResult};
use crate::models::time::clock_reading;
use crate::models::{Database, Timestamp};
use vstd::prelude::*;

verus! {

#[derive(Debug)]
pub enum Commands {
    /// Manage visions.
    Vision(VisionCommands),
    /// Manage reality assessments.
    Reality(RealityCommands),
    /// Log actions.
    Action(ActionCommands),
    /// Analyse patterns.
    Pattern(PatternCommands),
    /// Show metrics.
    Metrics(MetricsCommands),
    /// Manage vision states.
    State(StateCommands),
    /// Show a coaching prompt.
    Prompt,
}

/// What a command has to show.
#[derive(Debug)]
pub enum Report {
    Vision(VisionReport),
    Reality(RealityReport),
    Action(ActionReport),
    Pattern(PatternReport),
    Metrics(MetricsReport),
    State(StateReport),
    /// The question to put to the user.
    Prompt(String),
}

impl Report {
    /// Whether the report tells of a change to the snapshot, which is then
    /// to be stored.
    pub open spec fn spec_changes_snapshot(self) -> bool {
        match self {
            Report::Vision(VisionReport::Tree { .. }) => false,
            Report::Vision(_) => true,
            Report::Reality(RealityReport::Recorded) => true,
            Report::Action(ActionReport::Logged) => true,
            Report::State(StateReport::Transitioned { .. }) => true,
            _ => false,
        }
    }

    /// Whether the report tells of a change to the snapshot.
    pub fn changes_snapshot(&self) -> (changed: bool)
        ensures
            changed == self.spec_changes_snapshot(),
    {
        match self {
            Report::Vision(VisionReport::Tree { .. }) => false,
            Report::Vision(_) => true,
            Report::Reality(RealityReport::Recorded) => true,
            Report::Action(ActionReport::Logged) => true,
            Report::State(StateReport::Transitioned { .. }) => true,
            _ => false,
        }
    }
}

/// The coaching prompts, by their number.
pub open spec fn spec_prompt(number: int) -> Seq<char> {
    if number == 0 {
        "What would achieving this vision enable?"@
    } else if number == 1 {
        "What obstacles stand between current reality and vision?"@
    } else if number == 2 {
        "What is the next smallest step toward this vision?"@
    } else if number == 3 {
        "How do you know you're making progress?"@
    } else {
        "What assumptions are you holding about this vision?"@
    }
}

/// The prompt for the instant `now`: the prompts take turns by the second.
pub open spec fn prompt_at(now: Timestamp) -> Seq<char> {
    spec_prompt(now.secs as int % 5)
}

/// Picks the prompt for the instant `now`.
pub fn prompt_for(now: &Timestamp) -> (prompt: &'static str)
    ensures
        prompt@ == prompt_at(*now),
{
    let turn: i64 = now.secs % 5;
    let number: i64 = if turn < 0 {
        turn + 5
    } else {
        turn
    };
    if number == 0 {
        "What would achieving this vision enable?"
    } else if number == 1 {
        "What obstacles stand between current reality and vision?"
    } else if number == 2 {
        "What is the next smallest step toward this vision?"
    } else if number == 3 {
        "How do you know you're making progress?"
    } else {
        "What assumptions are you holding about this vision?"
    }
}

/// What asking for a prompt comes to: it never fails, and gives the prompt
/// of some instant.
pub open spec fn prompt_outcome(outcome: TensileResult<Report>) -> bool {
    outcome matches Ok(Report::Prompt(text)) && exists|now: Timestamp| text@ == prompt_at(now)
}

/// Picks the prompt for the present time.
pub fn prompt_command() -> (outcome: TensileResult<Report>)
    ensures
        prompt_outcome(outcome),
{
    let now = clock_reading();
    let text = prompt_for(&now).to_owned();
    proof {
        assert(text@ == prompt_at(now));
    }
    Ok(Report::Prompt(text))
}

impl Commands {
    /// The complaint that the command ends in whatever the snapshot holds:
    /// that about the first of its texts that cannot be read. A command that
    /// reads its texts only once the snapshot is there has none.
    pub open spec fn spec_unreadable(self) -> Option<Seq<char>> {
        match self {
            Commands::Vision(command) => command.spec_unreadable(),
            Commands::Reality(command) => command.spec_unreadable(),
            Commands::Action(command) => command.spec_unreadable(),
            Commands::Metrics(command) => command.spec_unreadable(),
            Commands::State(command) => command.spec_unreadable(),
            Commands::Pattern(_) => None,
            Commands::Prompt => None,
        }
    }

    /// The parse error that the command ends in whatever the snapshot holds,
    /// if there is one.
    pub fn unreadable(&self) -> (error: Option<TensileError>)
        ensures
            is_complaint(error, self.spec_unreadable()),
    {
        match self {
            Commands::Vision(command) => command.unreadable(),
            Commands::Reality(command) => command.unreadable(),
            Commands::Action(command) => command.unreadable(),
            Commands::Metrics(command) => command.unreadable(),
            Commands::State(command) => command.unreadable(),
            Commands::Pattern(_) => None,
            Commands::Prompt => None,
        }
    }

    /// What the command comes to, from the snapshot `before` to the snapshot
    /// `after`: what its group says of it, with the report of the group as
    /// the report.
    pub open spec fn outcome_of(
        self,
        before: Database,
        after: Database,
        outcome: TensileResult<Report>,
    ) -> bool {
        match self {
            Commands::Vision(command) => match outcome {
                Ok(Report::Vision(report)) => command.outcome_of(before, after, Ok(report)),
                Ok(_) => false,
                Err(error) => command.outcome_of(before, after, Err(error)),
            },
            Commands::Reality(command) => match outcome {
                Ok(Report::Reality(report)) => command.outcome_of(before, after, Ok(report)),
                Ok(_) => false,
                Err(error) => command.outcome_of(before, after, Err(error)),
            },
            Commands::Action(command) => match outcome {
                Ok(Report::Action(report)) => command.outcome_of(before, after, Ok(report)),
                Ok(_) => false,
                Err(error) => command.outcome_of(before, after, Err(error)),
            },
            Commands::Pattern(command) => match outcome {
                Ok(Report::Pattern(report)) => command.outcome_of(before, after, Ok(report)),
                Ok(_) => false,
                Err(error) => command.outcome_of(before, after, Err(error)),
            },
            Commands::Metrics(command) => match outcome {
                Ok(Report::Metrics(report)) => command.outcome_of(before, after, Ok(report)),
                Ok(_) => false,
                Err(error) => command.outcome_of(before, after, Err(error)),
            },
            Commands::State(command) => match outcome {
                Ok(Report::State(report)) => command.outcome_of(before, after, Ok(report)),
                Ok(_) => false,
                Err(error) => command.outcome_of(before, after, Err(error)),
            },
            Commands::Prompt => after == before && prompt_outcome(outcome),
        }
    }

    /// Carries out the command on the snapshot.
    pub fn execute(self, db: &mut Database) -> (outcome: TensileResult<Report>)
        ensures
            self.outcome_of(*old(db), *final(db), outcome),
    {
        match self {
            Commands::Vision(command) => match command.execute(db) {
                Ok(report) => Ok(Report::Vision(report)),
                Err(error) => Err(error),
            },
            Commands::Reality(command) => match command.execute(db) {
                Ok(report) => Ok(Report::Reality(report)),
                Err(error) => Err(error),
            },
            Commands::Action(command) => match command.execute(db) {
                Ok(report) => Ok(Report::Action(report)),
                Err(error) => Err(error),
            },
            Commands::Pattern(command) => match command.execute(db) {
                Ok(report) => Ok(Report::Pattern(report)),
                Err(error) => Err(error),
            },
            Commands::Metrics(command) => match command.execute(db) {
                Ok(report) => Ok(Report::Metrics(report)),
                Err(error) => Err(error),
            },
            Commands::State(command) => match command.execute(db) {
                Ok(report) => Ok(Report::State(report)),
                Err(error) => Err(error),
            },
            Commands::Prompt => prompt_command(),
        }
    }
}

/// A command whose report tells of no change has left the snapshot as it
/// was.
pub proof fn lemma_quiet_reports_change_nothing(
    command: Commands,
    before: Database,
    after: Database,
    report: Report,
)
    requires
        command.outcome_of(before, after, Ok(report)),
        !report.spec_changes_snapshot(),
    ensures
        after == before,
{
}

/// What a command cannot read of its own texts decides its outcome, whatever
/// the snapshot holds: the command fails with that complaint and leaves the
/// snapshot as it was.
pub proof fn lemma_unreadable_commands_fail(
    command: Commands,
    before: Database,
    after: Database,
    outcome: TensileResult<Report>,
)
    requires
        command.spec_unreadable() is Some,
        command.outcome_of(before, after, outcome),
    ensures
        after == before,
        outcome matches Err(TensileError::Parse(m)) && Some(m@) == command.spec_unreadable(),
{
}

/// A command that fails has left the snapshot as it was.
pub proof fn lemma_failed_commands_change_nothing(
    command: Commands,
    before: Database,
    after: Database,
    error: crate::error::TensileError,
)
    requires
        command.outcome_of(before, after, Err(error)),
    ensures
        after == before,
{
}

} // verus!
