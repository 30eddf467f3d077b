//! The pattern of progress: how the actions taken toward a vision have gone.

use crate::engine::ratio::Ratio;
use crate::models::time::clock_reading;
use crate::models::{Database, Timestamp};
use vstd::prelude::*;

verus! {

pub struct PatternAnalyzer;

/// The trend of a vision's actions.
#[derive(Clone, Copy, Debug, PartialEq, Eq, Structural)]
pub enum Pattern {
    Advancing,
    Oscillating,
    Stagnant,
}

/// The figures behind a vision's pattern.
///
/// `success_rate` is the share of the vision's actions that succeeded, and
/// `velocity` the number of its actions per day of its life.
#[derive(Clone, Copy, Debug)]
pub struct PatternMetrics {
    pub vision_id: u128,
    pub pattern: Pattern,
    pub success_rate: Ratio,
    pub total_actions: usize,
    pub recent_actions: usize,
    pub velocity: Ratio,
}

/// The days that count as recent.
pub const RECENT_DAYS: u32 = 7;

impl Pattern {
    /// The pattern of a success rate: advancing above 7/10, oscillating above
    /// 3/10 and up to 7/10, stagnant at 3/10 and below.
    pub open spec fn spec_of_rate(rate: Ratio) -> Pattern {
        if rate.exceeds(7, 10) {
            Pattern::Advancing
        } else if rate.exceeds(3, 10) {
            Pattern::Oscillating
        } else {
            Pattern::Stagnant
        }
    }

    /// The pattern of `successes` successful actions out of `total`: stagnant
    /// where there is no action, else the pattern of the rate
    /// `successes / total`.
    pub open spec fn of_counts(successes: nat, total: nat) -> Pattern {
        if total == 0 {
            Pattern::Stagnant
        } else if successes * 10 > 7 * total {
            Pattern::Advancing
        } else if successes * 10 > 3 * total {
            Pattern::Oscillating
        } else {
            Pattern::Stagnant
        }
    }

    /// Classifies a success rate.
    pub fn of_rate(rate: &Ratio) -> (pattern: Pattern)
        ensures
            pattern == Pattern::spec_of_rate(*rate),
    {
        let upper = Ratio::new(7, 10).unwrap();
        let lower = Ratio::new(3, 10).unwrap();
        if rate.gt(&upper) {
            Pattern::Advancing
        } else if rate.gt(&lower) {
            Pattern::Oscillating
        } else {
            Pattern::Stagnant
        }
    }
}

/// The pattern of the vision `id` in `db`.
pub open spec fn pattern_of(db: &Database, id: u128) -> Pattern {
    Pattern::of_counts(db.spec_success_count(id), db.spec_action_count(id))
}

/// The success rate of the vision `id` in `db`: zero where it has no action.
pub open spec fn success_rate_of(db: &Database, id: u128) -> Ratio {
    if db.spec_action_count(id) == 0 {
        Ratio::of(0, 1)
    } else {
        Ratio::of(db.spec_success_count(id), db.spec_action_count(id))
    }
}

/// The metrics at `now` of the vision `id`, which `db` holds.
pub open spec fn metrics_of(db: &Database, id: u128, now: Timestamp) -> PatternMetrics {
    PatternMetrics {
        vision_id: id,
        pattern: pattern_of(db, id),
        success_rate: success_rate_of(db, id),
        total_actions: db.spec_action_count(id) as usize,
        recent_actions: db.spec_recent_action_count(id, now, 7) as usize,
        velocity: Ratio::of(
            db.spec_action_count(id),
            now.spec_days_active(db.vision_with_id(id).created_at) as nat,
        ),
    }
}

/// The identifier and the pattern of each vision, in the order of the
/// snapshot.
pub open spec fn all_patterns(db: &Database) -> Seq<(u128, Pattern)> {
    Seq::new(db.visions@.len(), |i: int| (db.visions@[i].id, pattern_of(db, db.visions@[i].id)))
}

impl PatternAnalyzer {
    /// Classifies the actions logged against the vision `vision_id`.
    pub fn analyze_vision_pattern(db: &Database, vision_id: u128) -> (pattern: Pattern)
        ensures
            pattern == pattern_of(db, vision_id),
    {
        let total = db.action_count(vision_id);
        if total == 0 {
            return Pattern::Stagnant;
        }
        let successes = db.success_count(vision_id);
        let rate = Ratio::new(successes as u128, total as u128).unwrap();
        Pattern::of_rate(&rate)
    }

    /// Classifies every vision of the snapshot.
    pub fn analyze_all_patterns(db: &Database) -> (patterns: Vec<(u128, Pattern)>)
        ensures
            patterns@ == all_patterns(db),
    {
        let mut patterns: Vec<(u128, Pattern)> = Vec::new();
        let mut i: usize = 0;
        while i < db.visions.len()
            invariant
                i <= db.visions@.len(),
                patterns@.len() == i,
                forall|k: int| 0 <= k < i ==> patterns@[k] == all_patterns(db)[k],
            decreases db.visions@.len() - i,
        {
            let id = db.visions[i].id;
            patterns.push((id, PatternAnalyzer::analyze_vision_pattern(db, id)));
            i += 1;
        }
        assert(patterns@ =~= all_patterns(db));
        patterns
    }

    /// The metrics of the vision `vision_id` at the present time, or `None`
    /// where the snapshot holds no such vision.
    pub fn get_detailed_metrics(db: &Database, vision_id: u128) -> (metrics: Option<PatternMetrics>)
        ensures
            metrics is Some <==> db.has_vision(vision_id),
            metrics matches Some(m) ==> exists|now: Timestamp| m == metrics_of(db, vision_id, now),
    {
        let now = clock_reading();
        PatternAnalyzer::get_detailed_metrics_at(db, vision_id, &now)
    }

    /// The metrics of the vision `vision_id` at `now`, or `None` where the
    /// snapshot holds no such vision.
    pub fn get_detailed_metrics_at(db: &Database, vision_id: u128, now: &Timestamp) -> (metrics:
        Option<PatternMetrics>)
        ensures
            metrics is Some <==> db.has_vision(vision_id),
            metrics matches Some(m) ==> m == metrics_of(db, vision_id, *now),
    {
        let place = match db.find_vision(vision_id) {
            Some(place) => place,
            None => {
                return None;
            },
        };
        let total = db.action_count(vision_id);
        let successes = db.success_count(vision_id);
        let recent = db.recent_action_count(vision_id, now, RECENT_DAYS);
        let days = now.days_active(&db.visions[place].created_at);
        let success_rate = if total == 0 {
            Ratio::zero()
        } else {
            Ratio::new(successes as u128, total as u128).unwrap()
        };
        let velocity = Ratio::new(total as u128, days as u128).unwrap();
        Some(
            PatternMetrics {
                vision_id,
                pattern: PatternAnalyzer::analyze_vision_pattern(db, vision_id),
                success_rate,
                total_actions: total,
                recent_actions: recent,
                velocity,
            },
        )
    }
}

/// A vision without actions is stagnant: its success rate is zero and so is
/// its velocity.
pub proof fn lemma_no_actions_is_stagnant(db: &Database, id: u128, now: Timestamp)
    requires
        db.spec_action_count(id) == 0,
    ensures
        pattern_of(db, id) == Pattern::Stagnant,
        metrics_of(db, id, now).pattern == Pattern::Stagnant,
        metrics_of(db, id, now).total_actions == 0,
        metrics_of(db, id, now).success_rate.numer() == 0,
        metrics_of(db, id, now).velocity.numer() == 0,
{
    Ratio::lemma_of(0, 1);
    let days = now.spec_days_active(db.vision_with_id(id).created_at);
    lemma_days_active_bounds(now, db.vision_with_id(id).created_at);
    Ratio::lemma_of(0, days as nat);
}

/// The days active are at least one and fit in 64 bits.
pub proof fn lemma_days_active_bounds(now: Timestamp, since: Timestamp)
    ensures
        1 <= now.spec_days_active(since) <= u64::MAX,
{
}

/// The thresholds of the classification: a rate above 7/10 is advancing; one
/// above 3/10 and not above 7/10 is oscillating; one not above 3/10 is
/// stagnant. The rate 7/10 itself is oscillating and 3/10 itself stagnant.
pub proof fn lemma_pattern_thresholds(rate: Ratio)
    ensures
        rate.exceeds(7, 10) ==> Pattern::spec_of_rate(rate) == Pattern::Advancing,
        rate.exceeds(3, 10) && !rate.exceeds(7, 10) ==> Pattern::spec_of_rate(rate)
            == Pattern::Oscillating,
        !rate.exceeds(3, 10) ==> Pattern::spec_of_rate(rate) == Pattern::Stagnant,
        rate.is_quotient(7, 10) ==> Pattern::spec_of_rate(rate) == Pattern::Oscillating,
        rate.is_quotient(3, 10) ==> Pattern::spec_of_rate(rate) == Pattern::Stagnant,
{
    rate.lemma_denom_positive();
}

/// The pattern of a vision with actions is the pattern of its success rate.
pub proof fn lemma_pattern_is_of_success_rate(db: &Database, id: u128)
    requires
        db.spec_action_count(id) > 0,
    ensures
        pattern_of(db, id) == Pattern::spec_of_rate(success_rate_of(db, id)),
{
    lemma_counts_fit(db, id);
    Ratio::lemma_of(db.spec_success_count(id), db.spec_action_count(id));
}

/// The counts of a vision's entries are no more than the snapshot holds.
pub proof fn lemma_counts_fit(db: &Database, id: u128)
    ensures
        db.spec_success_count(id) <= db.spec_action_count(id) <= db.actions@.len() <= usize::MAX,
        db.spec_reality_count(id) <= db.realities@.len() <= usize::MAX,
{
    assert(db.actions.len() == db.actions@.len());
    assert(db.realities.len() == db.realities@.len());
    db.actions@.lemma_filter_len(crate::models::action_of(id));
    db.realities@.lemma_filter_len(crate::models::reality_of(id));
    lemma_successes_among_actions(db.actions@, id);
}

/// No more actions of a vision succeeded than it has.
pub proof fn lemma_successes_among_actions(actions: Seq<crate::models::ActionLog>, id: u128)
    ensures
        actions.filter(crate::models::success_of(id)).len() <= actions.filter(
            crate::models::action_of(id),
        ).len(),
    decreases actions.len(),
{
    reveal(Seq::filter);
    if actions.len() > 0 {
        lemma_successes_among_actions(actions.drop_last(), id);
    }
}

} // verus!
