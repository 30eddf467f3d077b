//! From stored rows to the entries of a snapshot.

use crate::models::ident::{parsed_uuid, uuid_from_text};
use crate::models::{
    has_unique_ids, lemma_filter_step, links_agree, ActionLog, RealityAssessment, Timestamp,
    Vision, VisionState,
};
use crate::text::same_text;
use std::collections::HashMap;
use vstd::prelude::*;

verus! {

/// The seconds and nanoseconds since the epoch of the instant that
/// `chrono::DateTime::parse_from_rfc3339` reads from `text`, or `None` where
/// it reads none.
pub uninterp spec fn parsed_rfc3339(text: Seq<char>) -> Option<(int, int)>;

/// Calls `chrono::DateTime::parse_from_rfc3339` on `text`. The parser is a
/// function of the text alone: it succeeds exactly where `parsed_rfc3339` has
/// a value, and the instant it returns has those seconds and nanoseconds.
#[verifier::external_body]
pub(crate) fn timestamp_from_rfc3339(text: &str) -> (parsed: Option<Timestamp>)
    ensures
        parsed is Some <==> parsed_rfc3339(text@) is Some,
        parsed matches Some(t) ==> parsed_rfc3339(text@) == Some((t.secs as int, t.nanos as int)),
{
    match chrono::DateTime::parse_from_rfc3339(text) {
        Ok(instant) => Some(
            Timestamp { secs: instant.timestamp(), nanos: instant.timestamp_subsec_nanos() },
        ),
        Err(_) => None,
    }
}

/// The instant that a stored text holds.
pub open spec fn stored_instant(text: Seq<char>) -> Option<Timestamp> {
    match parsed_rfc3339(text) {
        Some((secs, nanos)) => Some(Timestamp { secs: secs as i64, nanos: nanos as u32 }),
        None => None,
    }
}

/// The state that a stored name stands for: the state of that very name, and
/// `Conceived` for any other text.
pub open spec fn spec_stored_state(name: Seq<char>) -> VisionState {
    if name == "InProgress"@ {
        VisionState::InProgress
    } else if name == "Blocked"@ {
        VisionState::Blocked
    } else if name == "Reassessed"@ {
        VisionState::Reassessed
    } else if name == "Achieved"@ {
        VisionState::Achieved
    } else {
        VisionState::Conceived
    }
}

/// Reads a state as it was stored.
pub fn stored_state(name: &str) -> (state: VisionState)
    ensures
        state == spec_stored_state(name@),
{
    if same_text(name, "InProgress") {
        VisionState::InProgress
    } else if same_text(name, "Blocked") {
        VisionState::Blocked
    } else if same_text(name, "Reassessed") {
        VisionState::Reassessed
    } else if same_text(name, "Achieved") {
        VisionState::Achieved
    } else {
        VisionState::Conceived
    }
}

/// Reads a stored instant.
pub fn read_instant(text: &str) -> (instant: Option<Timestamp>)
    ensures
        instant == stored_instant(text@),
{
    timestamp_from_rfc3339(text)
}

/// The parent that a stored text names: none where no text is stored or the
/// text holds no identifier.
pub open spec fn stored_parent(text: Option<String>) -> Option<u128> {
    match text {
        Some(t) => parsed_uuid(t@),
        None => None,
    }
}

/// A stored vision, column by column.
#[derive(Debug)]
pub struct VisionRow {
    pub id: String,
    pub title: String,
    pub description: Option<String>,
    pub parent_id: Option<String>,
    pub created_at: String,
    pub completed: bool,
    pub state: String,
}

/// A stored assessment, column by column.
#[derive(Debug)]
pub struct RealityRow {
    pub id: String,
    pub vision_id: String,
    pub entry: String,
    pub timestamp: String,
}

/// A stored action, column by column.
#[derive(Debug)]
pub struct ActionRow {
    pub id: String,
    pub vision_id: String,
    pub entry: String,
    pub timestamp: String,
    pub success: bool,
}

/// What a row of visions holds, given what was read from its identifier,
/// its parent and its time: a vision without children, where an identifier
/// and a time were read, and nothing otherwise. A parent that could not be
/// read is no parent.
pub open spec fn vision_read(
    row: VisionRow,
    id: Option<u128>,
    parent: Option<u128>,
    created_at: Option<Timestamp>,
    vision: Option<Vision>,
) -> bool {
    match (id, created_at) {
        (Some(id), Some(created_at)) => {
            &&& vision matches Some(v)
            &&& v.id == id
            &&& v.title == row.title
            &&& v.description == row.description
            &&& v.parent == parent
            &&& v.children@.len() == 0
            &&& v.created_at == created_at
            &&& v.completed == row.completed
            &&& v.state == spec_stored_state(row.state@)
        },
        _ => vision is None,
    }
}

/// Reads the parent of a stored vision, if one is stored and can be read.
pub fn read_parent(text: &Option<String>) -> (parent: Option<u128>)
    ensures
        parent == stored_parent(*text),
{
    match text {
        Some(t) => uuid_from_text(t.as_str()).ok(),
        None => None,
    }
}

/// Reads a vision from its row.
pub fn vision_from_row(row: VisionRow) -> (vision: Option<Vision>)
    ensures
        vision_read(
            row,
            parsed_uuid(row.id@),
            stored_parent(row.parent_id),
            stored_instant(row.created_at@),
            vision,
        ),
{
    let id = uuid_from_text(row.id.as_str()).ok();
    let parent = read_parent(&row.parent_id);
    let created_at = read_instant(row.created_at.as_str());
    vision_from_parts(row, id, parent, created_at)
}

/// Makes a vision of its row and of what was read from the row's
/// identifier, parent and time.
pub fn vision_from_parts(
    row: VisionRow,
    id: Option<u128>,
    parent: Option<u128>,
    created_at: Option<Timestamp>,
) -> (vision: Option<Vision>)
    ensures
        vision_read(row, id, parent, created_at, vision),
{
    match (id, created_at) {
        (Some(id), Some(created_at)) => {
            let state = stored_state(row.state.as_str());
            Some(
                Vision {
                    id,
                    title: row.title,
                    description: row.description,
                    parent,
                    children: Vec::new(),
                    created_at,
                    completed: row.completed,
                    state,
                },
            )
        },
        _ => None,
    }
}

/// What a row of assessments holds, given what was read from its
/// identifiers and its time: an assessment, where all three were read, and
/// nothing otherwise.
pub open spec fn reality_read(
    row: RealityRow,
    id: Option<u128>,
    vision_id: Option<u128>,
    timestamp: Option<Timestamp>,
) -> Option<RealityAssessment> {
    match (id, vision_id, timestamp) {
        (Some(id), Some(vision_id), Some(timestamp)) => Some(
            RealityAssessment { id, vision_id, entry: row.entry, timestamp },
        ),
        _ => None,
    }
}

/// Reads an assessment from its row.
pub fn reality_from_row(row: RealityRow) -> (assessment: Option<RealityAssessment>)
    ensures
        assessment == reality_read(
            row,
            parsed_uuid(row.id@),
            parsed_uuid(row.vision_id@),
            stored_instant(row.timestamp@),
        ),
{
    let id = uuid_from_text(row.id.as_str()).ok();
    let vision_id = uuid_from_text(row.vision_id.as_str()).ok();
    let timestamp = read_instant(row.timestamp.as_str());
    reality_from_parts(row, id, vision_id, timestamp)
}

/// Makes an assessment of its row and of what was read from the row's
/// identifiers and time.
pub fn reality_from_parts(
    row: RealityRow,
    id: Option<u128>,
    vision_id: Option<u128>,
    timestamp: Option<Timestamp>,
) -> (assessment: Option<RealityAssessment>)
    ensures
        assessment == reality_read(row, id, vision_id, timestamp),
{
    match (id, vision_id, timestamp) {
        (Some(id), Some(vision_id), Some(timestamp)) => Some(
            RealityAssessment { id, vision_id, entry: row.entry, timestamp },
        ),
        _ => None,
    }
}

/// What a row of actions holds, given what was read from its identifiers
/// and its time: an action, where all three were read, and nothing
/// otherwise.
pub open spec fn action_read(
    row: ActionRow,
    id: Option<u128>,
    vision_id: Option<u128>,
    timestamp: Option<Timestamp>,
) -> Option<ActionLog> {
    match (id, vision_id, timestamp) {
        (Some(id), Some(vision_id), Some(timestamp)) => Some(
            ActionLog { id, vision_id, entry: row.entry, timestamp, success: row.success },
        ),
        _ => None,
    }
}

/// Reads an action from its row.
pub fn action_from_row(row: ActionRow) -> (action: Option<ActionLog>)
    ensures
        action == action_read(
            row,
            parsed_uuid(row.id@),
            parsed_uuid(row.vision_id@),
            stored_instant(row.timestamp@),
        ),
{
    let id = uuid_from_text(row.id.as_str()).ok();
    let vision_id = uuid_from_text(row.vision_id.as_str()).ok();
    let timestamp = read_instant(row.timestamp.as_str());
    action_from_parts(row, id, vision_id, timestamp)
}

/// Makes an action of its row and of what was read from the row's
/// identifiers and time.
pub fn action_from_parts(
    row: ActionRow,
    id: Option<u128>,
    vision_id: Option<u128>,
    timestamp: Option<Timestamp>,
) -> (action: Option<ActionLog>)
    ensures
        action == action_read(row, id, vision_id, timestamp),
{
    match (id, vision_id, timestamp) {
        (Some(id), Some(vision_id), Some(timestamp)) => Some(
            ActionLog { id, vision_id, entry: row.entry, timestamp, success: row.success },
        ),
        _ => None,
    }
}

/// The visions whose parent is `id`.
pub open spec fn child_of(id: u128) -> spec_fn(Vision) -> bool {
    |v: Vision| v.parent == Some(id)
}

/// The identifiers of the visions whose parent is `id`, in their order.
pub open spec fn offspring(visions: Seq<Vision>, id: u128) -> Seq<u128> {
    visions.filter(child_of(id)).map_values(|v: Vision| v.id)
}

/// Whether `k` is the place of the first vision that has its identifier.
pub open spec fn is_first_of_its_id(visions: Seq<Vision>, k: int) -> bool {
    forall|j: int| 0 <= j < k ==> visions[j].id != visions[k].id
}

/// The children that linking adds to the vision in the place `k`, given the
/// visions `seen`: the offspring among them of the vision's identifier, where
/// the vision is the first with that identifier, and none otherwise.
pub open spec fn children_added(visions: Seq<Vision>, seen: Seq<Vision>, k: int) -> Seq<u128> {
    if is_first_of_its_id(visions, k) {
        offspring(seen, visions[k].id)
    } else {
        Seq::empty()
    }
}

/// `after` is `before` with every child entered with its parent: each vision
/// that is the first with its identifier has, after the children it had, the
/// identifiers of the visions that name it as their parent, in their order.
/// Nothing else differs.
pub open spec fn links_children(before: Seq<Vision>, after: Seq<Vision>) -> bool {
    &&& after.len() == before.len()
    &&& forall|k: int|
        0 <= k < before.len() ==> {
            &&& (#[trigger] after[k]).with_children(before[k].children) == before[k]
            &&& after[k].children@ == before[k].children@ + children_added(before, before, k)
        }
}

/// Whether one of the visions has the identifier `id`.
pub open spec fn has_id(visions: Seq<Vision>, id: u128) -> bool {
    exists|k: int| 0 <= k < visions.len() && visions[k].id == id
}

/// `places` tells of each identifier that a vision has, and of no other, the
/// place of the first vision that has it.
pub open spec fn is_index_of(places: Map<u128, usize>, visions: Seq<Vision>) -> bool {
    forall|id: u128|
        {
            &&& #[trigger] places.contains_key(id) <==> has_id(visions, id)
            &&& places.contains_key(id) ==> {
                &&& places[id] < visions.len()
                &&& visions[places[id] as int].id == id
                &&& forall|i: int| 0 <= i < places[id] ==> visions[i].id != id
            }
        }
}

/// Maps each identifier to the place of the first vision that has it.
pub fn first_places(visions: &Vec<Vision>) -> (places: HashMap<u128, usize>)
    ensures
        is_index_of(places@, visions@),
{
    broadcast use vstd::std_specs::hash::group_hash_axioms;

    let mut places: HashMap<u128, usize> = HashMap::new();
    let mut i: usize = 0;
    while i < visions.len()
        invariant
            i <= visions@.len(),
            is_index_of(places@, visions@.take(i as int)),
        decreases visions@.len() - i,
    {
        let id = visions[i].id;
        let ghost seen = visions@.take(i as int);
        let ghost known = places@;
        if !places.contains_key(&id) {
            places.insert(id, i);
        }
        proof {
            let more = visions@.take(i + 1);
            assert(more =~= seen.push(visions@[i as int]));
            assert forall|other: u128|
                {
                    &&& #[trigger] places@.contains_key(other) <==> has_id(more, other)
                    &&& places@.contains_key(other) ==> {
                        &&& places@[other] < more.len()
                        &&& more[places@[other] as int].id == other
                        &&& forall|k: int| 0 <= k < places@[other] ==> more[k].id != other
                    }
                } by {
                assert(known.contains_key(other) <==> has_id(seen, other));
                if has_id(seen, other) {
                    let k = choose|k: int| 0 <= k < seen.len() && seen[k].id == other;
                    assert(more[k].id == other);
                }
                if has_id(more, other) {
                    let k = choose|k: int| 0 <= k < more.len() && more[k].id == other;
                    if k < i {
                        assert(seen[k].id == other);
                    }
                }
                if places@.contains_key(other) {
                    if known.contains_key(other) {
                        assert(more[known[other] as int] == seen[known[other] as int]);
                        assert forall|k: int| 0 <= k < places@[other] implies more[k].id
                            != other by {
                            assert(more[k] == seen[k]);
                        }
                    } else {
                        assert(other == id);
                        assert forall|k: int| 0 <= k < i implies more[k].id != other by {
                            if more[k].id == other {
                                assert(seen[k].id == other);
                                assert(has_id(seen, other));
                            }
                        }
                    }
                }
            }
        }
        i += 1;
    }
    proof {
        assert(visions@.take(i as int) =~= visions@);
    }
    places
}

/// Enters every child with its parent.
pub fn link_children(visions: &mut Vec<Vision>)
    ensures
        links_children(old(visions)@, final(visions)@),
{
    let ghost before = visions@;
    let places = first_places(visions);
    let mut j: usize = 0;
    while j < visions.len()
        invariant
            j <= visions@.len(),
            visions@.len() == before.len(),
            is_index_of(places@, before),
            forall|k: int|
                0 <= k < before.len() ==> {
                    &&& (#[trigger] visions@[k]).with_children(before[k].children) == before[k]
                    &&& visions@[k].children@ == before[k].children@ + children_added(
                        before,
                        before.take(j as int),
                        k,
                    )
                },
        decreases visions@.len() - j,
    {
        let child = visions[j].id;
        let parent = visions[j].parent;
        let ghost previous = visions@;
        let found: Option<usize> = match parent {
            Some(parent_id) => {
                broadcast use vstd::std_specs::hash::group_hash_axioms;

                match places.get(&parent_id) {
                    Some(place) => Some(*place),
                    None => None,
                }
            },
            None => None,
        };
        proof {
            assert forall|i: int| 0 <= i < before.len() implies previous[i].id
                == before[i].id by {
                assert(previous[i].with_children(before[i].children) == before[i]);
            }
            if let Some(parent_id) = parent {
                if found is None {
                    assert forall|i: int| 0 <= i < before.len() implies before[i].id
                        != parent_id by {
                        if before[i].id == parent_id {
                            assert(has_id(before, parent_id));
                        }
                    }
                }
            }
        }
        match found {
            Some(p) => {
                visions[p].children.push(child);
            },
            None => {},
        }
        proof {
            assert forall|k: int| 0 <= k < before.len() implies {
                &&& (#[trigger] visions@[k]).with_children(before[k].children) == before[k]
                &&& visions@[k].children@ == before[k].children@ + children_added(
                    before,
                    before.take(j + 1),
                    k,
                )
            } by {
                assert(previous[k].with_children(before[k].children) == before[k]);
                assert(previous[k].id == before[k].id);
                assert(previous[j as int].with_children(before[j as int].children)
                    == before[j as int]);
                lemma_offspring_step(before, before[k].id, j as int);
                assert forall|i: int| 0 <= i < before.len() implies previous[i].id
                    == before[i].id by {
                    assert(previous[i].with_children(before[i].children) == before[i]);
                }
                if found == Some(k as usize) {
                    assert(is_first_of_its_id(before, k));
                } else if parent == Some(before[k].id) && is_first_of_its_id(before, k) {
                    assert(false);
                }
            }
        }
        j += 1;
    }
    proof {
        assert(before.take(j as int) == before);
    }
}

/// Where no two visions share an identifier and none has children yet,
/// entering every child with its parent makes parents and children agree.
pub proof fn lemma_linking_makes_links_agree(before: Seq<Vision>, after: Seq<Vision>)
    requires
        links_children(before, after),
        has_unique_ids(before),
        forall|k: int| 0 <= k < before.len() ==> (#[trigger] before[k]).children@.len() == 0,
    ensures
        has_unique_ids(after),
        links_agree(after),
{
    assert forall|k: int| 0 <= k < before.len() implies (#[trigger] after[k]).id == before[k].id
        && after[k].parent == before[k].parent && after[k].children@ == offspring(
        before,
        before[k].id,
    ) by {
        assert(after[k].with_children(before[k].children) == before[k]);
        assert(is_first_of_its_id(before, k)) by {
            assert forall|j: int| 0 <= j < k implies before[j].id != before[k].id by {
                assert(before[j].id != before[k].id);
            }
        }
        assert(before[k].children@ + offspring(before, before[k].id) =~= offspring(
            before,
            before[k].id,
        ));
    }
    assert forall|i: int, j: int|
        #![trigger after[i], after[j]]
        0 <= i < j < after.len() implies after[i].id != after[j].id by {
        assert(before[i].id != before[j].id);
    }
    assert forall|p: int, c: int|
        #![trigger after[p], after[c]]
        0 <= p < after.len() && 0 <= c < after.len() implies (after[p].children@.contains(
        after[c].id,
    ) <==> after[c].parent == Some(after[p].id)) by {
        let id = before[p].id;
        let kept = before.filter(child_of(id));
        if before[c].parent == Some(id) {
            before.lemma_filter_contains(child_of(id), c);
            let m = choose|m: int| 0 <= m < kept.len() && kept[m] == before[c];
            assert(offspring(before, id)[m] == before[c].id);
        }
        if offspring(before, id).contains(before[c].id) {
            let m = choose|m: int|
                0 <= m < offspring(before, id).len() && offspring(before, id)[m] == before[c].id;
            assert(kept[m].id == before[c].id);
            before.lemma_filter_pred(child_of(id), m);
            assert(kept.contains(kept[m]));
            before.lemma_filter_contains_rev(child_of(id), kept[m]);
            let x = choose|x: int| 0 <= x < before.len() && before[x] == kept[m];
            if x < c {
                assert(before[x].id != before[c].id);
            } else if c < x {
                assert(before[c].id != before[x].id);
            }
        }
    }
}

/// What one more vision adds to the offspring of `id`.
pub proof fn lemma_offspring_step(visions: Seq<Vision>, id: u128, j: int)
    requires
        0 <= j < visions.len(),
    ensures
        offspring(visions.take(0), id) == Seq::<u128>::empty(),
        offspring(visions.take(j + 1), id) == if visions[j].parent == Some(id) {
            offspring(visions.take(j), id).push(visions[j].id)
        } else {
            offspring(visions.take(j), id)
        },
{
    lemma_filter_step(visions, child_of(id), j);
    assert(visions.take(0).filter(child_of(id)).len() == 0);
    assert(offspring(visions.take(0), id) =~= Seq::<u128>::empty());
    if visions[j].parent == Some(id) {
        assert(offspring(visions.take(j + 1), id) =~= offspring(visions.take(j), id).push(
            visions[j].id,
        ));
    }
}

} // verus!
