//! Recording and viewing assessments of reality.

use crate::cli::parsers::{
    complaint_about, filter_of, filter_or_complaint, id_complaint, is_complaint, is_filter_error,
    is_lookup_error, is_readable_filter, locate_parsed, lookup, parsed_filter, read_filter,
    read_id,
};
use crate::engine::ranking::{first_highest, is_first_highest};
use crate::error::{TensileError, TensileResult};
use crate::models::ident::parsed_uuid;
use crate::models::{lemma_filter_step, narrowed_to, Database, RealityAssessment};
use crate::text::{join_words, joined};
use vstd::prelude::*;

verus! {

#[derive(Debug)]
pub enum RealityCommands {
    /// Record an assessment of current reality.
    Update { vision_id: String, entry: Vec<String> },
    /// View the assessments.
    View { vision: Option<String> },
    /// Show the most recent assessment.
    Latest { vision: Option<String> },
}

/// What a reality command has to show.
#[derive(Debug)]
pub enum RealityReport {
    /// The assessment was added to the snapshot.
    Recorded,
    /// The assessments asked for, in the order of the snapshot.
    Listing(Vec<RealityAssessment>),
    /// The latest of the assessments asked for, if there is any.
    Latest(Option<RealityAssessment>),
}

/// `after` is `before` with one more assessment at the end: one of the
/// vision `id`, with the text `entry`.
pub open spec fn adds_reality(before: Database, after: Database, id: u128, entry: Seq<char>) -> bool {
    &&& after.visions == before.visions
    &&& after.actions == before.actions
    &&& after.user == before.user
    &&& after.realities@.len() == before.realities@.len() + 1
    &&& after.realities@.drop_last() == before.realities@
    &&& after.realities@.last().vision_id == id
    &&& after.realities@.last().entry@ == entry
}

/// What recording an assessment comes to, given what was read from
/// `vision_id`: the assessment is added where a vision is named; else the
/// snapshot stays as it is and the error tells why.
pub open spec fn update_reality_outcome(
    before: Database,
    after: Database,
    parsed: Option<u128>,
    vision_id: Seq<char>,
    entry: Seq<String>,
    outcome: TensileResult<RealityReport>,
) -> bool {
    match outcome {
        Ok(report) => {
            &&& report is Recorded
            &&& lookup(&before, parsed) matches Some(id)
            &&& adds_reality(before, after, id, joined(entry))
        },
        Err(error) => {
            &&& after == before
            &&& lookup(&before, parsed) is None
            &&& is_lookup_error(&before, parsed, vision_id, error)
        },
    }
}

/// What viewing the assessments comes to, given what was read of the
/// filter: those of the vision asked for, or all of them, in the order of
/// the snapshot; or a parse error where the filter could not be read.
pub open spec fn view_reality_outcome(
    db: &Database,
    vision: Option<String>,
    parsed: Option<u128>,
    outcome: TensileResult<RealityReport>,
) -> bool {
    match outcome {
        Ok(report) => {
            &&& is_readable_filter(vision, parsed)
            &&& report matches RealityReport::Listing(listing)
            &&& listing@ == db.realities@.filter(narrowed_to(filter_of(vision, parsed)))
        },
        Err(error) => !is_readable_filter(vision, parsed) && is_filter_error(vision, error),
    }
}

/// `latest` is the latest of `chosen`: none where there is none, else the
/// first of those with the latest time.
pub open spec fn is_latest_of(chosen: Seq<RealityAssessment>, latest: Option<RealityAssessment>) -> bool {
    match latest {
        None => chosen.len() == 0,
        Some(assessment) => exists|i: int|
            is_first_highest(chosen, i) && #[trigger] chosen[i] == assessment,
    }
}

/// What asking for the latest assessment comes to, given what was read of
/// the filter.
pub open spec fn latest_reality_outcome(
    db: &Database,
    vision: Option<String>,
    parsed: Option<u128>,
    outcome: TensileResult<RealityReport>,
) -> bool {
    match outcome {
        Ok(report) => {
            &&& is_readable_filter(vision, parsed)
            &&& report matches RealityReport::Latest(latest)
            &&& is_latest_of(db.realities@.filter(narrowed_to(filter_of(vision, parsed))), latest)
        },
        Err(error) => !is_readable_filter(vision, parsed) && is_filter_error(vision, error),
    }
}

/// The assessments of the vision `only`, or all of them where none is given,
/// in the order of the snapshot.
pub fn assessments_of(db: &Database, only: Option<u128>) -> (chosen: Vec<RealityAssessment>)
    ensures
        chosen@ == db.realities@.filter(narrowed_to(only)),
{
    let mut chosen: Vec<RealityAssessment> = Vec::new();
    let mut i: usize = 0;
    while i < db.realities.len()
        invariant
            i <= db.realities@.len(),
            chosen@ == db.realities@.take(i as int).filter(narrowed_to(only)),
        decreases db.realities@.len() - i,
    {
        proof {
            lemma_filter_step(db.realities@, narrowed_to(only), i as int);
        }
        let assessment = &db.realities[i];
        let wanted = match only {
            None => true,
            Some(id) => assessment.vision_id == id,
        };
        if wanted {
            chosen.push(assessment.clone());
        }
        i += 1;
    }
    proof {
        assert(db.realities@.take(i as int) == db.realities@);
    }
    chosen
}

/// Adds to the snapshot an assessment of the vision that `vision_id` names.
pub fn update_reality(db: &mut Database, vision_id: String, entry: Vec<String>) -> (outcome:
    TensileResult<RealityReport>)
    ensures
        update_reality_outcome(
            *old(db),
            *final(db),
            parsed_uuid(vision_id@),
            vision_id@,
            entry@,
            outcome,
        ),
{
    let parsed = read_id(vision_id.as_str());
    update_reality_with(db, parsed, vision_id, entry)
}

/// Adds to the snapshot an assessment of the vision whose identifier was
/// read from `vision_id`.
pub fn update_reality_with(
    db: &mut Database,
    parsed: Option<u128>,
    vision_id: String,
    entry: Vec<String>,
) -> (outcome: TensileResult<RealityReport>)
    ensures
        update_reality_outcome(*old(db), *final(db), parsed, vision_id@, entry@, outcome),
{
    let (id, place) = match locate_parsed(db, parsed, vision_id.as_str()) {
        Ok(found) => found,
        Err(error) => {
            return Err(error);
        },
    };
    let assessment = RealityAssessment::new(id, join_words(&entry));
    db.realities.push(assessment);
    proof {
        assert(db.realities@.drop_last() == old(db).realities@);
    }
    Ok(RealityReport::Recorded)
}

/// Lists the assessments.
pub fn view_reality(db: &Database, vision: Option<String>) -> (outcome: TensileResult<
    RealityReport,
>)
    ensures
        view_reality_outcome(db, vision, parsed_filter(vision), outcome),
{
    let parsed = read_filter(&vision);
    view_reality_with(db, vision, parsed)
}

/// Lists the assessments, given what was read of the filter.
pub fn view_reality_with(db: &Database, vision: Option<String>, parsed: Option<u128>) -> (outcome:
    TensileResult<RealityReport>)
    ensures
        view_reality_outcome(db, vision, parsed, outcome),
{
    match filter_or_complaint(&vision, parsed) {
        Ok(only) => Ok(RealityReport::Listing(assessments_of(db, only))),
        Err(error) => Err(error),
    }
}

/// Finds the latest assessment.
pub fn latest_reality(db: &Database, vision: Option<String>) -> (outcome: TensileResult<
    RealityReport,
>)
    ensures
        latest_reality_outcome(db, vision, parsed_filter(vision), outcome),
{
    let parsed = read_filter(&vision);
    latest_reality_with(db, vision, parsed)
}

/// Finds the latest assessment, given what was read of the filter.
pub fn latest_reality_with(db: &Database, vision: Option<String>, parsed: Option<u128>) -> (outcome:
    TensileResult<RealityReport>)
    ensures
        latest_reality_outcome(db, vision, parsed, outcome),
{
    let only = match filter_or_complaint(&vision, parsed) {
        Ok(only) => only,
        Err(error) => {
            return Err(error);
        },
    };
    let mut chosen = assessments_of(db, only);
    let latest = match first_highest(&chosen) {
        Some(place) => Some(chosen.remove(place)),
        None => None,
    };
    Ok(RealityReport::Latest(latest))
}

impl RealityCommands {
    /// The complaint that the command ends in whatever the snapshot holds:
    /// that about the first of its texts that cannot be read. A command that
    /// reads its texts only once the snapshot is there has none.
    pub open spec fn spec_unreadable(self) -> Option<Seq<char>> {
        match self {
            RealityCommands::Update { vision_id, .. } => id_complaint(
                parsed_uuid(vision_id@),
                vision_id@,
                "Invalid UUID: "@,
            ),
            _ => None,
        }
    }

    /// The parse error that the command ends in whatever the snapshot holds,
    /// if there is one.
    pub fn unreadable(&self) -> (error: Option<TensileError>)
        ensures
            is_complaint(error, self.spec_unreadable()),
    {
        match self {
            RealityCommands::Update { vision_id, .. } => complaint_about(
                read_id(vision_id.as_str()),
                vision_id.as_str(),
                "Invalid UUID: ",
            ),
            _ => None,
        }
    }

    /// What the command comes to, from the snapshot `before` to the snapshot
    /// `after`.
    pub open spec fn outcome_of(
        self,
        before: Database,
        after: Database,
        outcome: TensileResult<RealityReport>,
    ) -> bool {
        match self {
            RealityCommands::Update { vision_id, entry } => update_reality_outcome(
                before,
                after,
                parsed_uuid(vision_id@),
                vision_id@,
                entry@,
                outcome,
            ),
            RealityCommands::View { vision } => after == before && view_reality_outcome(
                &before,
                vision,
                parsed_filter(vision),
                outcome,
            ),
            RealityCommands::Latest { vision } => after == before && latest_reality_outcome(
                &before,
                vision,
                parsed_filter(vision),
                outcome,
            ),
        }
    }

    /// Carries out the command on the snapshot.
    pub fn execute(self, db: &mut Database) -> (outcome: TensileResult<RealityReport>)
        ensures
            self.outcome_of(*old(db), *final(db), outcome),
    {
        match self {
            RealityCommands::Update { vision_id, entry } => update_reality(db, vision_id, entry),
            RealityCommands::View { vision } => view_reality(db, vision),
            RealityCommands::Latest { vision } => latest_reality(db, vision),
        }
    }
}

} // verus!
