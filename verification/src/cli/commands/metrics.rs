//! Priorities, details and the summary.

use crate::cli::parsers::{
    complaint_about, id_complaint, is_complaint, is_lookup_error, locate_parsed, lookup, read_id,
};
use crate::engine::pattern::{metrics_of, PatternAnalyzer, PatternMetrics};
use crate::engine::ranking::is_ranking_of;
use crate::engine::tension::{
    all_tensions, is_top_priority, tension_of, TensionCalculator, VisionTension,
};
use crate::error::{TensileError, TensileResult};
use crate::models::ident::parsed_uuid;
use crate::models::time::clock_reading;
use crate::models::{Database, Timestamp, VisionState};
use vstd::prelude::*;

verus! {

#[derive(Debug)]
pub enum MetricsCommands {
    /// Show the visions by priority.
    Priority,
    /// Show the metrics of one vision.
    Detail { vision_id: String },
    /// Show the summary.
    Summary,
}

/// The metrics of one vision.
#[derive(Debug)]
pub struct VisionDetail {
    pub title: String,
    pub state: VisionState,
    pub description: Option<String>,
    pub tension: VisionTension,
    pub metrics: PatternMetrics,
}

/// The figures of the whole snapshot.
#[derive(Debug)]
pub struct Summary {
    pub total_visions: usize,
    pub active_visions: usize,
    pub total_actions: usize,
    pub total_realities: usize,
    /// The tension of every vision, in the order of the snapshot.
    pub tensions: Vec<VisionTension>,
    /// The tension that ranks first, where there is a vision.
    pub top: Option<VisionTension>,
}

/// What a metrics command has to show.
#[derive(Debug)]
pub enum MetricsReport {
    /// The tensions, the highest first.
    Priorities(Vec<VisionTension>),
    Detail(VisionDetail),
    Summary(Summary),
}

/// `detail` holds the metrics at `now` of the vision `id`.
pub open spec fn is_detail_of(detail: VisionDetail, db: &Database, id: u128, now: Timestamp) -> bool {
    &&& detail.title == db.vision_with_id(id).title
    &&& detail.state == db.vision_with_id(id).state
    &&& detail.description == db.vision_with_id(id).description
    &&& detail.tension == tension_of(db, id, now)
    &&& detail.metrics == metrics_of(db, id, now)
}

/// `summary` holds the figures of `db` at `now`.
pub open spec fn is_summary_of(summary: Summary, db: &Database, now: Timestamp) -> bool {
    &&& summary.total_visions == db.visions@.len()
    &&& summary.active_visions == db.spec_active_vision_count()
    &&& summary.total_actions == db.actions@.len()
    &&& summary.total_realities == db.realities@.len()
    &&& summary.tensions@ == all_tensions(db, now)
    &&& match summary.top {
        None => db.visions@.len() == 0,
        Some(top) => is_top_priority(all_tensions(db, now), top),
    }
}

/// What showing the priorities at `now` comes to.
pub open spec fn priorities_outcome(
    db: &Database,
    now: Timestamp,
    outcome: TensileResult<MetricsReport>,
) -> bool {
    outcome matches Ok(MetricsReport::Priorities(ranked)) && is_ranking_of(
        ranked@,
        all_tensions(db, now),
    )
}

/// What showing the detail at `now` comes to, given what was read from
/// `vision_id`: the metrics of the vision that is named, or the error that
/// tells why none is named.
pub open spec fn detail_outcome(
    db: &Database,
    parsed: Option<u128>,
    vision_id: Seq<char>,
    now: Timestamp,
    outcome: TensileResult<MetricsReport>,
) -> bool {
    match outcome {
        Ok(report) => {
            &&& lookup(db, parsed) matches Some(id)
            &&& report matches MetricsReport::Detail(detail)
            &&& is_detail_of(detail, db, id, now)
        },
        Err(error) => lookup(db, parsed) is None && is_lookup_error(db, parsed, vision_id, error),
    }
}

/// What showing the summary at `now` comes to.
pub open spec fn summary_outcome(
    db: &Database,
    now: Timestamp,
    outcome: TensileResult<MetricsReport>,
) -> bool {
    outcome matches Ok(MetricsReport::Summary(summary)) && is_summary_of(summary, db, now)
}

/// Ranks the visions by their tension at `now`.
pub fn show_priorities(db: &Database, now: &Timestamp) -> (outcome: TensileResult<MetricsReport>)
    ensures
        priorities_outcome(db, *now, outcome),
{
    let tensions = TensionCalculator::calculate_all_tensions_at(db, now);
    Ok(MetricsReport::Priorities(TensionCalculator::sort_by_tension(tensions)))
}

/// Gathers the metrics at `now` of the vision that `vision_id` names.
pub fn show_detail(db: &Database, vision_id: String, now: &Timestamp) -> (outcome: TensileResult<
    MetricsReport,
>)
    ensures
        detail_outcome(db, parsed_uuid(vision_id@), vision_id@, *now, outcome),
{
    let parsed = read_id(vision_id.as_str());
    show_detail_with(db, parsed, vision_id, now)
}

/// Gathers the metrics at `now` of the vision whose identifier was read from
/// `vision_id`.
pub fn show_detail_with(
    db: &Database,
    parsed: Option<u128>,
    vision_id: String,
    now: &Timestamp,
) -> (outcome: TensileResult<MetricsReport>)
    ensures
        detail_outcome(db, parsed, vision_id@, *now, outcome),
{
    let (id, place) = match locate_parsed(db, parsed, vision_id.as_str()) {
        Ok(found) => found,
        Err(error) => {
            return Err(error);
        },
    };
    let vision = &db.visions[place];
    let tension = TensionCalculator::calculate_vision_tension_at(db, id, now).unwrap();
    let metrics = PatternAnalyzer::get_detailed_metrics_at(db, id, now).unwrap();
    let description = match &vision.description {
        Some(text) => Some(text.clone()),
        None => None,
    };
    Ok(
        MetricsReport::Detail(
            VisionDetail {
                title: vision.title.clone(),
                state: vision.state,
                description,
                tension,
                metrics,
            },
        ),
    )
}

/// Gathers the figures of the snapshot at `now`.
pub fn show_summary(db: &Database, now: &Timestamp) -> (outcome: TensileResult<MetricsReport>)
    ensures
        summary_outcome(db, *now, outcome),
{
    Ok(
        MetricsReport::Summary(
            Summary {
                total_visions: db.visions.len(),
                active_visions: db.active_vision_count(),
                total_actions: db.actions.len(),
                total_realities: db.realities.len(),
                tensions: TensionCalculator::calculate_all_tensions_at(db, now),
                top: TensionCalculator::get_priority_vision_at(db, now),
            },
        ),
    )
}

impl MetricsCommands {
    /// The complaint that the command ends in whatever the snapshot holds:
    /// that about the first of its texts that cannot be read. A command that
    /// reads its texts only once the snapshot is there has none.
    pub open spec fn spec_unreadable(self) -> Option<Seq<char>> {
        match self {
            MetricsCommands::Detail { vision_id } => id_complaint(
                parsed_uuid(vision_id@),
                vision_id@,
                "Invalid UUID: "@,
            ),
            _ => None,
        }
    }

    /// The parse error that the command ends in whatever the snapshot holds,
    /// if there is one.
    pub fn unreadable(&self) -> (error: Option<TensileError>)
        ensures
            is_complaint(error, self.spec_unreadable()),
    {
        match self {
            MetricsCommands::Detail { vision_id } => complaint_about(
                read_id(vision_id.as_str()),
                vision_id.as_str(),
                "Invalid UUID: ",
            ),
            _ => None,
        }
    }

    /// What the command comes to at `now`.
    pub open spec fn outcome_at(
        self,
        db: &Database,
        now: Timestamp,
        outcome: TensileResult<MetricsReport>,
    ) -> bool {
        match self {
            MetricsCommands::Priority => priorities_outcome(db, now, outcome),
            MetricsCommands::Detail { vision_id } => detail_outcome(
                db,
                parsed_uuid(vision_id@),
                vision_id@,
                now,
                outcome,
            ),
            MetricsCommands::Summary => summary_outcome(db, now, outcome),
        }
    }

    /// What the command comes to, from the snapshot `before` to the snapshot
    /// `after`: it leaves the snapshot as it is, and shows it as it is at some
    /// instant.
    pub open spec fn outcome_of(
        self,
        before: Database,
        after: Database,
        outcome: TensileResult<MetricsReport>,
    ) -> bool {
        after == before && exists|now: Timestamp| self.outcome_at(&before, now, outcome)
    }

    /// Carries out the command at the present time on the snapshot.
    pub fn execute(self, db: &mut Database) -> (outcome: TensileResult<MetricsReport>)
        ensures
            self.outcome_of(*old(db), *final(db), outcome),
    {
        let now = clock_reading();
        let outcome = self.execute_at(db, &now);
        proof {
            assert(self.outcome_at(&*old(db), now, outcome));
        }
        outcome
    }

    /// Carries out the command at `now`.
    pub fn execute_at(self, db: &Database, now: &Timestamp) -> (outcome: TensileResult<
        MetricsReport,
    >)
        ensures
            self.outcome_at(db, *now, outcome),
    {
        match self {
            MetricsCommands::Priority => show_priorities(db, now),
            MetricsCommands::Detail { vision_id } => show_detail(db, vision_id, now),
            MetricsCommands::Summary => show_summary(db, now),
        }
    }
}

} // verus!
