//! Checking the pattern of progress.

use crate::cli::parsers::{is_lookup_error, locate_parsed, lookup, parsed_filter, read_filter};
use crate::engine::pattern::{pattern_of, success_rate_of, Pattern, PatternAnalyzer};
use crate::engine::ratio::Ratio;
use crate::error::TensileResult;
use crate::models::Database;
use vstd::prelude::*;

verus! {

#[derive(Debug)]
pub enum PatternCommands {
    /// Analyse the pattern of one vision, or of all.
    Check { vision: Option<String> },
}

/// The share of a vision's actions that succeeded, and their number.
#[derive(Debug)]
pub struct SuccessFigures {
    pub success_rate: Ratio,
    pub total_actions: usize,
}

/// What a pattern command has to show.
#[derive(Debug)]
pub enum PatternReport {
    /// The pattern of one vision, with its figures where it has actions.
    Single { title: String, pattern: Pattern, figures: Option<SuccessFigures> },
    /// The title and the pattern of each vision, in the order of the
    /// snapshot.
    All(Vec<(String, Pattern)>),
}

/// The figures of the vision `id`: none where it has no action.
pub open spec fn figures_of(db: &Database, id: u128) -> Option<SuccessFigures> {
    if db.spec_action_count(id) == 0 {
        None
    } else {
        Some(
            SuccessFigures {
                success_rate: success_rate_of(db, id),
                total_actions: db.spec_action_count(id) as usize,
            },
        )
    }
}

/// The title and the pattern that go with each vision of the snapshot: those
/// of the first vision that has its identifier.
pub open spec fn titled_patterns(db: &Database) -> Seq<(String, Pattern)> {
    Seq::new(
        db.visions@.len(),
        |i: int| (db.vision_with_id(db.visions@[i].id).title, pattern_of(db, db.visions@[i].id)),
    )
}

/// What checking the patterns comes to, given what was read from the text
/// of `vision`: the pattern of the vision asked for, or of every vision
/// where none is asked for; or the error that tells why the text names no
/// vision.
pub open spec fn check_outcome(
    db: &Database,
    vision: Option<String>,
    parsed: Option<u128>,
    outcome: TensileResult<PatternReport>,
) -> bool {
    match vision {
        None => outcome matches Ok(PatternReport::All(patterns)) && patterns@ == titled_patterns(
            db,
        ),
        Some(text) => match outcome {
            Ok(report) => {
                &&& lookup(db, parsed) matches Some(id)
                &&& report == (PatternReport::Single {
                    title: db.vision_with_id(id).title,
                    pattern: pattern_of(db, id),
                    figures: figures_of(db, id),
                })
            },
            Err(error) => lookup(db, parsed) is None && is_lookup_error(
                db,
                parsed,
                text@,
                error,
            ),
        },
    }
}

/// Checks the pattern of the vision that `vision` names, or of all.
pub fn check_patterns(db: &Database, vision: Option<String>) -> (outcome: TensileResult<
    PatternReport,
>)
    ensures
        check_outcome(db, vision, parsed_filter(vision), outcome),
{
    let parsed = read_filter(&vision);
    check_patterns_with(db, vision, parsed)
}

/// Checks the pattern of the vision whose identifier was read from the text
/// of `vision`, or of all where there is no text.
pub fn check_patterns_with(db: &Database, vision: Option<String>, parsed: Option<u128>) -> (outcome:
    TensileResult<PatternReport>)
    ensures
        check_outcome(db, vision, parsed, outcome),
{
    match &vision {
        Some(text) => {
            let (id, place) = match locate_parsed(db, parsed, text.as_str()) {
                Ok(found) => found,
                Err(error) => {
                    return Err(error);
                },
            };
            let pattern = PatternAnalyzer::analyze_vision_pattern(db, id);
            let total = db.action_count(id);
            let figures = if total == 0 {
                None
            } else {
                let successes = db.success_count(id);
                Some(
                    SuccessFigures {
                        success_rate: Ratio::new(successes as u128, total as u128).unwrap(),
                        total_actions: total,
                    },
                )
            };
            Ok(PatternReport::Single { title: db.visions[place].title.clone(), pattern, figures })
        },
        None => {
            let patterns = PatternAnalyzer::analyze_all_patterns(db);
            let mut titled: Vec<(String, Pattern)> = Vec::new();
            let mut i: usize = 0;
            while i < patterns.len()
                invariant
                    i <= patterns@.len(),
                    patterns@ == crate::engine::pattern::all_patterns(db),
                    titled@.len() == i,
                    forall|k: int| 0 <= k < i ==> titled@[k] == titled_patterns(db)[k],
                decreases patterns@.len() - i,
            {
                let (id, pattern) = patterns[i];
                assert(db.has_vision(id)) by {
                    assert(db.visions@[i as int].id == id);
                }
                match db.find_vision(id) {
                    Some(place) => {
                        titled.push((db.visions[place].title.clone(), pattern));
                    },
                    None => {},
                }
                i += 1;
            }
            assert(titled@ =~= titled_patterns(db));
            Ok(PatternReport::All(titled))
        },
    }
}

impl PatternCommands {
    /// What the command comes to, from the snapshot `before` to the snapshot
    /// `after`.
    pub open spec fn outcome_of(
        self,
        before: Database,
        after: Database,
        outcome: TensileResult<PatternReport>,
    ) -> bool {
        match self {
            PatternCommands::Check { vision } => after == before && check_outcome(
                &before,
                vision,
                parsed_filter(vision),
                outcome,
            ),
        }
    }

    /// Carries out the command on the snapshot, which it leaves as it is.
    pub fn execute(self, db: &mut Database) -> (outcome: TensileResult<PatternReport>)
        ensures
            self.outcome_of(*old(db), *final(db), outcome),
    {
        match self {
            PatternCommands::Check { vision } => check_patterns(db, vision),
        }
    }
}

} // verus!
