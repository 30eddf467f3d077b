//! Logging and reviewing actions.

use crate::cli::parsers::{
    complaint_about, filter_of, filter_or_complaint, id_complaint, is_complaint, is_filter_error,
    is_lookup_error, is_readable_filter, locate_parsed, lookup, parsed_filter, read_filter,
    read_id,
};
use crate::engine::ranking::{is_ranking_of, rank_descending};
use crate::error::{TensileError, TensileResult};
use crate::models::ident::parsed_uuid;
use crate::models::time::clock_reading;
use crate::models::{lemma_filter_step, ActionLog, Database, Timestamp};
use crate::text::{join_words, joined, same_text};
use vstd::prelude::*;

verus! {

#[derive(Debug)]
pub enum ActionCommands {
    /// Log an action toward a vision.
    Log { vision_id: String, entry: Vec<String> },
    /// Ask for today's action.
    Today { vision_id: String },
    /// Review the actions of a period.
    Review { period: String, vision: Option<String> },
}

/// The actions of a period, latest first, and how many of them succeeded.
#[derive(Debug)]
pub struct ActionReview {
    pub period: String,
    pub total: usize,
    pub successful: usize,
    pub actions: Vec<ActionLog>,
}

/// What an action command has to show.
#[derive(Debug)]
pub enum ActionReport {
    /// The action was added to the snapshot.
    Logged,
    /// The vision to act on today.
    Today { title: String, vision_id: String },
    Review(ActionReview),
}

/// The days that a period of review reaches back: one for `daily` and for
/// any name not known, seven for `weekly`, thirty for `monthly`.
pub open spec fn spec_period_days(period: Seq<char>) -> nat {
    if period == "daily"@ {
        1
    } else if period == "weekly"@ {
        7
    } else if period == "monthly"@ {
        30
    } else {
        1
    }
}

/// The actions under review: those logged within `days` days before `now`,
/// of the vision `only` where one is given.
pub open spec fn under_review(only: Option<u128>, now: Timestamp, days: nat) -> spec_fn(
    ActionLog,
) -> bool {
    |a: ActionLog|
        (only is None || only == Some(a.vision_id)) && a.timestamp.spec_is_within_days(now, days)
}

/// The actions that succeeded.
pub open spec fn succeeded() -> spec_fn(ActionLog) -> bool {
    |a: ActionLog| a.success
}

/// `review` is the review at `now` of the given period: the actions under
/// review, latest first, with their number and the number of successes.
pub open spec fn is_review_of(
    review: ActionReview,
    db: &Database,
    period: Seq<char>,
    only: Option<u128>,
    now: Timestamp,
) -> bool {
    let chosen = db.actions@.filter(under_review(only, now, spec_period_days(period)));
    &&& review.period@ == period
    &&& is_ranking_of(review.actions@, chosen)
    &&& review.total == chosen.len()
    &&& review.successful == chosen.filter(succeeded()).len()
}

/// `after` is `before` with one more action at the end: a successful one, of
/// the vision `id`, with the text `entry`.
pub open spec fn adds_action(before: Database, after: Database, id: u128, entry: Seq<char>) -> bool {
    &&& after.visions == before.visions
    &&& after.realities == before.realities
    &&& after.user == before.user
    &&& after.actions@.len() == before.actions@.len() + 1
    &&& after.actions@.drop_last() == before.actions@
    &&& after.actions@.last().vision_id == id
    &&& after.actions@.last().entry@ == entry
    &&& after.actions@.last().success
}

/// What logging an action comes to, given what was read from `vision_id`:
/// the action is added where a vision is named; else the snapshot stays as
/// it is and the error tells why.
pub open spec fn log_action_outcome(
    before: Database,
    after: Database,
    parsed: Option<u128>,
    vision_id: Seq<char>,
    entry: Seq<String>,
    outcome: TensileResult<ActionReport>,
) -> bool {
    match outcome {
        Ok(report) => {
            &&& report is Logged
            &&& lookup(&before, parsed) matches Some(id)
            &&& adds_action(before, after, id, joined(entry))
        },
        Err(error) => {
            &&& after == before
            &&& lookup(&before, parsed) is None
            &&& is_lookup_error(&before, parsed, vision_id, error)
        },
    }
}

/// What asking for today's action comes to, given what was read from
/// `vision_id`: the title of the vision that is named, or the error that
/// tells why none is.
pub open spec fn today_action_outcome(
    db: &Database,
    parsed: Option<u128>,
    vision_id: String,
    outcome: TensileResult<ActionReport>,
) -> bool {
    match outcome {
        Ok(report) => {
            &&& lookup(db, parsed) matches Some(id)
            &&& report == (ActionReport::Today { title: db.vision_with_id(id).title, vision_id })
        },
        Err(error) => lookup(db, parsed) is None && is_lookup_error(
            db,
            parsed,
            vision_id@,
            error,
        ),
    }
}

/// What a review at `now` comes to, given what was read of its filter: the
/// review, or a parse error where the filter could not be read.
pub open spec fn review_outcome(
    db: &Database,
    period: Seq<char>,
    vision: Option<String>,
    parsed: Option<u128>,
    now: Timestamp,
    outcome: TensileResult<ActionReport>,
) -> bool {
    match outcome {
        Ok(report) => {
            &&& is_readable_filter(vision, parsed)
            &&& report matches ActionReport::Review(review)
            &&& is_review_of(review, db, period, filter_of(vision, parsed), now)
        },
        Err(error) => !is_readable_filter(vision, parsed) && is_filter_error(vision, error),
    }
}

/// The days that a period of review reaches back.
pub fn period_days(period: &str) -> (days: u32)
    ensures
        days == spec_period_days(period@),
{
    if same_text(period, "daily") {
        1
    } else if same_text(period, "weekly") {
        7
    } else if same_text(period, "monthly") {
        30
    } else {
        1
    }
}

/// Adds to the snapshot an action toward the vision that `vision_id` names.
pub fn log_action(db: &mut Database, vision_id: String, entry: Vec<String>) -> (outcome:
    TensileResult<ActionReport>)
    ensures
        log_action_outcome(
            *old(db),
            *final(db),
            parsed_uuid(vision_id@),
            vision_id@,
            entry@,
            outcome,
        ),
{
    let parsed = read_id(vision_id.as_str());
    log_action_with(db, parsed, vision_id, entry)
}

/// Adds to the snapshot an action toward the vision whose identifier was
/// read from `vision_id`.
pub fn log_action_with(
    db: &mut Database,
    parsed: Option<u128>,
    vision_id: String,
    entry: Vec<String>,
) -> (outcome: TensileResult<ActionReport>)
    ensures
        log_action_outcome(*old(db), *final(db), parsed, vision_id@, entry@, outcome),
{
    let (id, place) = match locate_parsed(db, parsed, vision_id.as_str()) {
        Ok(found) => found,
        Err(error) => {
            return Err(error);
        },
    };
    let action = ActionLog::new(id, join_words(&entry));
    db.actions.push(action);
    proof {
        assert(db.actions@.drop_last() == old(db).actions@);
    }
    Ok(ActionReport::Logged)
}

/// Names the vision to act on today.
pub fn today_action(db: &Database, vision_id: String) -> (outcome: TensileResult<ActionReport>)
    ensures
        today_action_outcome(db, parsed_uuid(vision_id@), vision_id, outcome),
{
    let parsed = read_id(vision_id.as_str());
    today_action_with(db, parsed, vision_id)
}

/// Names the vision to act on today, by the identifier that was read from
/// `vision_id`.
pub fn today_action_with(db: &Database, parsed: Option<u128>, vision_id: String) -> (outcome:
    TensileResult<ActionReport>)
    ensures
        today_action_outcome(db, parsed, vision_id, outcome),
{
    let (id, place) = match locate_parsed(db, parsed, vision_id.as_str()) {
        Ok(found) => found,
        Err(error) => {
            return Err(error);
        },
    };
    Ok(ActionReport::Today { title: db.visions[place].title.clone(), vision_id })
}

/// Reviews the actions of a period that ends at the present time.
pub fn review_actions(db: &Database, period: String, vision: Option<String>) -> (outcome:
    TensileResult<ActionReport>)
    ensures
        exists|now: Timestamp|
            review_outcome(db, period@, vision, parsed_filter(vision), now, outcome),
{
    let now = clock_reading();
    let outcome = review_actions_at(db, period, vision, &now);
    proof {
        assert(review_outcome(db, period@, vision, parsed_filter(vision), now, outcome));
    }
    outcome
}

/// Reviews the actions of a period that ends at `now`.
pub fn review_actions_at(
    db: &Database,
    period: String,
    vision: Option<String>,
    now: &Timestamp,
) -> (outcome: TensileResult<ActionReport>)
    ensures
        review_outcome(db, period@, vision, parsed_filter(vision), *now, outcome),
{
    let parsed = read_filter(&vision);
    review_actions_with(db, period, vision, parsed, now)
}

/// Reviews the actions of a period that ends at `now`, given what was read
/// of the filter.
pub fn review_actions_with(
    db: &Database,
    period: String,
    vision: Option<String>,
    parsed: Option<u128>,
    now: &Timestamp,
) -> (outcome: TensileResult<ActionReport>)
    ensures
        review_outcome(db, period@, vision, parsed, *now, outcome),
{
    let only = match filter_or_complaint(&vision, parsed) {
        Ok(only) => only,
        Err(error) => {
            return Err(error);
        },
    };
    let days = period_days(period.as_str());
    let ghost keep = under_review(only, *now, days as nat);
    let mut chosen: Vec<ActionLog> = Vec::new();
    let mut successful: usize = 0;
    let mut i: usize = 0;
    while i < db.actions.len()
        invariant
            i <= db.actions@.len(),
            keep == under_review(only, *now, days as nat),
            chosen@ == db.actions@.take(i as int).filter(keep),
            chosen@.len() <= i,
            successful == chosen@.filter(succeeded()).len(),
            successful <= chosen@.len(),
        decreases db.actions@.len() - i,
    {
        proof {
            lemma_filter_step(db.actions@, keep, i as int);
        }
        let action = &db.actions[i];
        let wanted = match only {
            None => true,
            Some(id) => action.vision_id == id,
        };
        if wanted && action.timestamp.is_within_days(now, days) {
            proof {
                chosen@.lemma_filter_push(*action, succeeded());
            }
            if action.success {
                successful += 1;
            }
            chosen.push(action.clone());
        }
        i += 1;
    }
    proof {
        assert(db.actions@.take(i as int) == db.actions@);
    }
    let total = chosen.len();
    let actions = rank_descending(chosen);
    Ok(ActionReport::Review(ActionReview { period, total, successful, actions }))
}

impl ActionCommands {
    /// The complaint that the command ends in whatever the snapshot holds:
    /// that about the first of its texts that cannot be read. A command that
    /// reads its texts only once the snapshot is there has none.
    pub open spec fn spec_unreadable(self) -> Option<Seq<char>> {
        match self {
            ActionCommands::Log { vision_id, .. } => id_complaint(
                parsed_uuid(vision_id@),
                vision_id@,
                "Invalid UUID: "@,
            ),
            ActionCommands::Today { vision_id } => id_complaint(
                parsed_uuid(vision_id@),
                vision_id@,
                "Invalid UUID: "@,
            ),
            ActionCommands::Review { .. } => None,
        }
    }

    /// The parse error that the command ends in whatever the snapshot holds,
    /// if there is one.
    pub fn unreadable(&self) -> (error: Option<TensileError>)
        ensures
            is_complaint(error, self.spec_unreadable()),
    {
        match self {
            ActionCommands::Log { vision_id, .. } => complaint_about(
                read_id(vision_id.as_str()),
                vision_id.as_str(),
                "Invalid UUID: ",
            ),
            ActionCommands::Today { vision_id } => complaint_about(
                read_id(vision_id.as_str()),
                vision_id.as_str(),
                "Invalid UUID: ",
            ),
            ActionCommands::Review { .. } => None,
        }
    }

    /// What the command comes to, from the snapshot `before` to the snapshot
    /// `after`.
    pub open spec fn outcome_of(
        self,
        before: Database,
        after: Database,
        outcome: TensileResult<ActionReport>,
    ) -> bool {
        match self {
            ActionCommands::Log { vision_id, entry } => log_action_outcome(
                before,
                after,
                parsed_uuid(vision_id@),
                vision_id@,
                entry@,
                outcome,
            ),
            ActionCommands::Today { vision_id } => after == before && today_action_outcome(
                &before,
                parsed_uuid(vision_id@),
                vision_id,
                outcome,
            ),
            ActionCommands::Review { period, vision } => after == before && exists|now: Timestamp|
                review_outcome(&before, period@, vision, parsed_filter(vision), now, outcome),
        }
    }

    /// Carries out the command on the snapshot.
    pub fn execute(self, db: &mut Database) -> (outcome: TensileResult<ActionReport>)
        ensures
            self.outcome_of(*old(db), *final(db), outcome),
    {
        match self {
            ActionCommands::Log { vision_id, entry } => log_action(db, vision_id, entry),
            ActionCommands::Today { vision_id } => today_action(db, vision_id),
            ActionCommands::Review { period, vision } => review_actions(db, period, vision),
        }
    }
}

} // verus!
