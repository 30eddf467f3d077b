//! Structural tension: how far a vision's actions lag behind what is known
//! of its reality.

use crate::engine::ranking::{
    first_highest, is_first_highest, is_ranking_of, lemma_head_of_ranking, lemma_ranking_length,
    rank_descending, Ranked,
};
use crate::engine::ratio::{lemma_ratio_order_total, lemma_ratio_order_transitive, Ratio};
use crate::models::time::clock_reading;
use crate::models::{Database, Timestamp, VisionState};
use vstd::prelude::*;

verus! {

pub struct TensionCalculator;

/// The tension of one vision, with the figures it was computed from.
///
/// `tension_score` lies between 0 and 100.
#[derive(Debug)]
pub struct VisionTension {
    pub vision_id: u128,
    pub vision_title: String,
    pub tension_score: Ratio,
    pub action_count: usize,
    pub reality_count: usize,
    pub state: VisionState,
    pub days_active: u64,
}

impl Clone for VisionTension {
    fn clone(&self) -> (copy: VisionTension)
        ensures
            copy == *self,
    {
        VisionTension {
            vision_id: self.vision_id,
            vision_title: self.vision_title.clone(),
            tension_score: self.tension_score,
            action_count: self.action_count,
            reality_count: self.reality_count,
            state: self.state,
            days_active: self.days_active,
        }
    }
}

/// Tensions rank by their score.
impl Ranked for VisionTension {
    open spec fn outranks_or_ties(&self, other: &Self) -> bool {
        self.tension_score.spec_ge(other.tension_score)
    }

    fn at_least(&self, other: &Self) -> (holds: bool) {
        self.tension_score.ge(&other.tension_score)
    }

    proof fn lemma_total(a: &Self, b: &Self) {
        lemma_ratio_order_total(a.tension_score, b.tension_score);
    }

    proof fn lemma_transitive(a: &Self, b: &Self, c: &Self) {
        lemma_ratio_order_transitive(a.tension_score, b.tension_score, c.tension_score);
    }
}

/// The score of a vision with `actions` actions and `realities` assessments:
/// nothing once the vision is completed; else a hundred times the share of
/// `realities + 1` in `actions + realities + 1`, which is a hundred less the
/// hundredfold share of the actions.
pub open spec fn score_for(actions: nat, realities: nat, completed: bool) -> Ratio {
    if completed {
        Ratio::of(0, 1)
    } else {
        Ratio::of(100 * (realities + 1), actions + realities + 1)
    }
}

/// The tension at `now` of the vision `id`, which `db` holds.
pub open spec fn tension_of(db: &Database, id: u128, now: Timestamp) -> VisionTension {
    let vision = db.vision_with_id(id);
    VisionTension {
        vision_id: id,
        vision_title: vision.title,
        tension_score: score_for(
            db.spec_action_count(id),
            db.spec_reality_count(id),
            vision.completed,
        ),
        action_count: db.spec_action_count(id) as usize,
        reality_count: db.spec_reality_count(id) as usize,
        state: vision.state,
        days_active: now.spec_days_active(vision.created_at) as u64,
    }
}

/// The tension at `now` of each vision, in the order of the snapshot.
pub open spec fn all_tensions(db: &Database, now: Timestamp) -> Seq<VisionTension> {
    Seq::new(db.visions@.len(), |i: int| tension_of(db, db.visions@[i].id, now))
}

/// `top` is what `tensions` puts first: the first of its highest scores.
pub open spec fn is_top_priority(tensions: Seq<VisionTension>, top: VisionTension) -> bool {
    exists|i: int| is_first_highest(tensions, i) && tensions[i] == top
}

/// Computes a score from the counts it depends on.
pub fn tension_score(actions: usize, realities: usize, completed: bool) -> (score: Ratio)
    ensures
        score == score_for(actions as nat, realities as nat, completed),
        completed ==> score.numer() == 0 && score.denom() == 1,
        !completed ==> score.numer() == 100 * (realities + 1) && score.denom() == actions
            + realities + 1,
{
    if completed {
        Ratio::zero()
    } else {
        let weight: u128 = 100 * (realities as u128 + 1);
        let whole: u128 = actions as u128 + realities as u128 + 1;
        Ratio::new(weight, whole).unwrap()
    }
}

impl TensionCalculator {
    /// The tension of the vision `vision_id` at the present time, or `None`
    /// where the snapshot holds no such vision.
    pub fn calculate_vision_tension(db: &Database, vision_id: u128) -> (tension: Option<
        VisionTension,
    >)
        ensures
            tension is Some <==> db.has_vision(vision_id),
            tension matches Some(t) ==> exists|now: Timestamp| t == tension_of(db, vision_id, now),
    {
        let now = clock_reading();
        TensionCalculator::calculate_vision_tension_at(db, vision_id, &now)
    }

    /// The tension of the vision `vision_id` at `now`, or `None` where the
    /// snapshot holds no such vision.
    pub fn calculate_vision_tension_at(db: &Database, vision_id: u128, now: &Timestamp) -> (tension:
        Option<VisionTension>)
        ensures
            tension is Some <==> db.has_vision(vision_id),
            tension matches Some(t) ==> t == tension_of(db, vision_id, *now),
    {
        let place = match db.find_vision(vision_id) {
            Some(place) => place,
            None => {
                return None;
            },
        };
        let vision = &db.visions[place];
        let action_count = db.action_count(vision_id);
        let reality_count = db.reality_count(vision_id);
        Some(
            VisionTension {
                vision_id,
                vision_title: vision.title.clone(),
                tension_score: tension_score(action_count, reality_count, vision.completed),
                action_count,
                reality_count,
                state: vision.state,
                days_active: now.days_active(&vision.created_at),
            },
        )
    }

    /// The tension of every vision at the present time, in the order of the
    /// snapshot.
    pub fn calculate_all_tensions(db: &Database) -> (tensions: Vec<VisionTension>)
        ensures
            exists|now: Timestamp| tensions@ == all_tensions(db, now),
    {
        let now = clock_reading();
        TensionCalculator::calculate_all_tensions_at(db, &now)
    }

    /// The tension of every vision at `now`, in the order of the snapshot.
    pub fn calculate_all_tensions_at(db: &Database, now: &Timestamp) -> (tensions: Vec<
        VisionTension,
    >)
        ensures
            tensions@ == all_tensions(db, *now),
    {
        let mut tensions: Vec<VisionTension> = Vec::new();
        let mut i: usize = 0;
        while i < db.visions.len()
            invariant
                i <= db.visions@.len(),
                tensions@.len() == i,
                forall|k: int| 0 <= k < i ==> tensions@[k] == all_tensions(db, *now)[k],
            decreases db.visions@.len() - i,
        {
            let id = db.visions[i].id;
            assert(db.has_vision(id));
            match TensionCalculator::calculate_vision_tension_at(db, id, now) {
                Some(tension) => {
                    tensions.push(tension);
                },
                None => {},
            }
            i += 1;
        }
        assert(tensions@ =~= all_tensions(db, *now));
        tensions
    }

    /// Ranks tensions, the highest score first. Equal scores keep the order
    /// in which they came.
    pub fn sort_by_tension(tensions: Vec<VisionTension>) -> (ranked: Vec<VisionTension>)
        ensures
            is_ranking_of(ranked@, tensions@),
    {
        rank_descending(tensions)
    }

    /// The tension that ranks first at the present time, or `None` where the
    /// snapshot holds no vision.
    pub fn get_priority_vision(db: &Database) -> (top: Option<VisionTension>)
        ensures
            top is None <==> db.visions@.len() == 0,
            top matches Some(t) ==> exists|now: Timestamp|
                is_top_priority(all_tensions(db, now), t),
    {
        let now = clock_reading();
        TensionCalculator::get_priority_vision_at(db, &now)
    }

    /// The tension that ranks first at `now`: the first of the highest
    /// scores, or `None` where the snapshot holds no vision.
    pub fn get_priority_vision_at(db: &Database, now: &Timestamp) -> (top: Option<VisionTension>)
        ensures
            top is None <==> db.visions@.len() == 0,
            top matches Some(t) ==> is_top_priority(all_tensions(db, *now), t),
    {
        let mut tensions = TensionCalculator::calculate_all_tensions_at(db, now);
        match first_highest(&tensions) {
            Some(place) => Some(tensions.remove(place)),
            None => None,
        }
    }
}

/// What ranks first is the head of the ranking.
pub proof fn lemma_top_priority_heads_ranking(
    ranked: Seq<VisionTension>,
    tensions: Seq<VisionTension>,
)
    requires
        is_ranking_of(ranked, tensions),
        tensions.len() > 0,
    ensures
        ranked.len() == tensions.len(),
        is_top_priority(tensions, ranked[0]),
{
    let i = lemma_head_of_ranking(ranked, tensions);
}

/// A ranking never puts a lower score before a higher one, whatever it
/// ranks; and it is as long as what it ranks, so that of nothing it is
/// nothing.
pub proof fn lemma_ranking_is_sorted(
    ranked: Seq<VisionTension>,
    tensions: Seq<VisionTension>,
    i: int,
    j: int,
)
    requires
        is_ranking_of(ranked, tensions),
        0 <= i <= j < ranked.len(),
    ensures
        ranked.len() == tensions.len(),
        ranked[i].tension_score.spec_ge(ranked[j].tension_score),
{
    lemma_ranking_length(ranked, tensions);
    if i == j {
        lemma_ratio_order_total(ranked[i].tension_score, ranked[i].tension_score);
    }
}

/// A completed vision has no tension, whatever was logged against it.
pub proof fn lemma_completed_has_no_tension(db: &Database, id: u128, now: Timestamp)
    requires
        db.has_vision(id),
        db.vision_with_id(id).completed,
    ensures
        tension_of(db, id, now).tension_score.numer() == 0,
{
    Ratio::lemma_of(0, 1);
}

/// A vision left to itself, with nothing logged against it, has the full
/// tension of 100.
pub proof fn lemma_untouched_has_full_tension(db: &Database, id: u128, now: Timestamp)
    requires
        db.has_vision(id),
        !db.vision_with_id(id).completed,
        db.spec_action_count(id) == 0,
        db.spec_reality_count(id) == 0,
    ensures
        tension_of(db, id, now).tension_score.numer() == 100,
        tension_of(db, id, now).tension_score.denom() == 1,
        tension_of(db, id, now).tension_score.is_quotient(100, 1),
{
    Ratio::lemma_of(100, 1);
}

/// The score of a vision that is not completed is above 0 and at most 100,
/// and it is 100 exactly where the vision has no action.
pub proof fn lemma_score_range(actions: nat, realities: nat)
    requires
        actions <= usize::MAX,
        realities <= usize::MAX,
    ensures
        score_for(actions, realities, false).numer() == 100 * (realities + 1),
        score_for(actions, realities, false).denom() == actions + realities + 1,
        score_for(actions, realities, false).exceeds(0, 1),
        !score_for(actions, realities, false).exceeds(100, 1),
        score_for(actions, realities, false).is_quotient(100, 1) <==> actions == 0,
{
    Ratio::lemma_of(100 * (realities + 1), actions + realities + 1);
}

} // verus!
