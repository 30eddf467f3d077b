//! Creating, describing, linking and completing visions.

use crate::cli::parsers::{
    complaint_about, id_complaint, id_or_complaint, is_complaint, is_lookup_error, locate_parsed,
    lookup, read_id,
};
use crate::error::{TensileError, TensileResult};
use crate::models::ident::parsed_uuid;
use crate::models::links::{
    enter_once, lemma_with_child_membership, lemma_without_membership, with_child, without,
    without_id,
};
use crate::models::{has_unique_ids, links_agree, Database, Vision, VisionState};
use crate::text::{join_words, joined, same_text};
use vstd::prelude::*;
use vstd::string::StringExecFns;

verus! {

#[derive(Debug)]
pub enum VisionCommands {
    /// Create a new vision.
    New { title: String },
    /// View the visions.
    Tree { format: Option<String> },
    /// Add or replace the description of a vision.
    Describe { id: String, text: Vec<String> },
    /// Link a child vision to its parent.
    Link { parent: String, child: String },
    /// Mark a vision as achieved.
    Complete { id: String },
}

/// What a vision command has to show.
#[derive(Debug)]
pub enum VisionReport {
    /// The vision that was created.
    Created { title: String, id: u128 },
    /// The visions of the snapshot are to be shown, as JSON or as a list.
    Tree { as_json: bool },
    /// The vision whose description was set.
    Described { title: String },
    /// The two visions are linked.
    Linked,
    /// The vision that was achieved.
    Completed { title: String },
}

/// `after` is `before` with one more vision at the end: a newly conceived
/// one, with the given title and identifier.
pub open spec fn adds_vision(before: Database, after: Database, title: String, id: u128) -> bool {
    let created = after.visions@.last();
    &&& after.realities == before.realities
    &&& after.actions == before.actions
    &&& after.user == before.user
    &&& after.visions@.len() == before.visions@.len() + 1
    &&& after.visions@.drop_last() == before.visions@
    &&& created.id == id
    &&& created.title == title
    &&& created.description is None
    &&& created.parent is None
    &&& created.children@.len() == 0
    &&& !created.completed
    &&& created.state == VisionState::Conceived
}

/// `after` is `before` with `vision` in the place `place`.
pub open spec fn replaces_vision(before: Database, after: Database, place: int, vision: Vision) -> bool {
    &&& after.visions@ == before.visions@.update(place, vision)
    &&& after.realities == before.realities
    &&& after.actions == before.actions
    &&& after.user == before.user
}

/// Whether the visions are asked for as JSON.
pub open spec fn asks_for_json(format: Option<String>) -> bool {
    format matches Some(f) && f@ == "json"@
}

/// What describing a vision comes to, given what was read from `id`: the
/// vision that is named has the words of `text` for its description; else
/// the snapshot stays as it is and the error tells why.
pub open spec fn describe_outcome(
    before: Database,
    after: Database,
    parsed: Option<u128>,
    id: Seq<char>,
    text: Seq<String>,
    outcome: TensileResult<VisionReport>,
) -> bool {
    match outcome {
        Ok(report) => {
            &&& lookup(&before, parsed) matches Some(found)
            &&& report == (VisionReport::Described { title: before.vision_with_id(found).title })
            &&& after.vision_with_id(found).description matches Some(d)
            &&& d@ == joined(text)
            &&& replaces_vision(
                before,
                after,
                before.place_of(found),
                before.vision_with_id(found).with_description(
                    after.visions@[before.place_of(found)].description,
                ),
            )
        },
        Err(error) => {
            &&& after == before
            &&& lookup(&before, parsed) is None
            &&& is_lookup_error(&before, parsed, id, error)
        },
    }
}

/// What completing a vision comes to, given what was read from `id`: the
/// vision that is named is achieved; else the snapshot stays as it is and
/// the error tells why.
pub open spec fn complete_outcome(
    before: Database,
    after: Database,
    parsed: Option<u128>,
    id: Seq<char>,
    outcome: TensileResult<VisionReport>,
) -> bool {
    match outcome {
        Ok(report) => {
            &&& lookup(&before, parsed) matches Some(found)
            &&& report == (VisionReport::Completed { title: before.vision_with_id(found).title })
            &&& replaces_vision(
                before,
                after,
                before.place_of(found),
                before.vision_with_id(found).achieved(),
            )
        },
        Err(error) => {
            &&& after == before
            &&& lookup(&before, parsed) is None
            &&& is_lookup_error(&before, parsed, id, error)
        },
    }
}

/// `after` is `before` with the visions `child` and `parent` linked: the
/// first vision of the identifier `child` has `parent` for its parent; the
/// first vision of the identifier `parent` has `child` among its children,
/// once; and no other vision has `child` among its children any more.
/// Nothing else differs.
pub open spec fn links_visions(before: Database, after: Database, parent: u128, child: u128) -> bool {
    let c = before.place_of(child);
    let p = before.place_of(parent);
    let adopted = before.visions@.update(c, before.visions@[c].with_parent(Some(parent)));
    &&& after.realities == before.realities
    &&& after.actions == before.actions
    &&& after.user == before.user
    &&& after.visions@.len() == before.visions@.len()
    &&& forall|i: int|
        0 <= i < adopted.len() ==> {
            &&& (#[trigger] after.visions@[i]).with_children(adopted[i].children) == adopted[i]
            &&& after.visions@[i].children@ == if i == p {
                with_child(adopted[i].children@, child)
            } else {
                without(adopted[i].children@, child)
            }
        }
}

/// Why two visions are not linked, given what was read from the two texts:
/// the first of the parent's identifier that could not be read, the child's
/// that could not be read, and the vision of either that is not there.
pub open spec fn is_link_error(
    db: &Database,
    parsed_parent: Option<u128>,
    parent: Seq<char>,
    parsed_child: Option<u128>,
    child: Seq<char>,
    error: TensileError,
) -> bool {
    match (parsed_parent, parsed_child) {
        (None, _) => error matches TensileError::Parse(m) && m@ == "Invalid parent UUID: "@
            + parent,
        (Some(_), None) => error matches TensileError::Parse(m) && m@ == "Invalid child UUID: "@
            + child,
        (Some(p), Some(c)) => {
            &&& !db.has_vision(c) || !db.has_vision(p)
            &&& error matches TensileError::NotFound(m)
            &&& m@ == "Parent or child vision not found"@
        },
    }
}

/// What linking comes to, given what was read from the two texts: the two
/// visions are linked where both are named and there; else the snapshot
/// stays as it is and the error tells why.
pub open spec fn link_outcome(
    before: Database,
    after: Database,
    parsed_parent: Option<u128>,
    parent: Seq<char>,
    parsed_child: Option<u128>,
    child: Seq<char>,
    outcome: TensileResult<VisionReport>,
) -> bool {
    match outcome {
        Ok(report) => {
            &&& report is Linked
            &&& parsed_parent matches Some(p)
            &&& parsed_child matches Some(c)
            &&& before.has_vision(p)
            &&& before.has_vision(c)
            &&& links_visions(before, after, p, c)
        },
        Err(error) => after == before && is_link_error(
            &before,
            parsed_parent,
            parent,
            parsed_child,
            child,
            error,
        ),
    }
}

/// What creating a vision comes to: it never fails, and the snapshot has the
/// new vision at its end.
pub open spec fn new_vision_outcome(
    before: Database,
    after: Database,
    title: String,
    outcome: TensileResult<VisionReport>,
) -> bool {
    outcome matches Ok(VisionReport::Created { title: shown, id }) && shown == title
        && adds_vision(before, after, title, id)
}

/// What asking for the visions comes to: it never fails, and tells whether
/// they are wanted as JSON.
pub open spec fn tree_outcome(format: Option<String>, outcome: TensileResult<VisionReport>) -> bool {
    outcome matches Ok(VisionReport::Tree { as_json }) && as_json == asks_for_json(format)
}

/// Adds a newly conceived vision to the snapshot.
pub fn new_vision(db: &mut Database, title: String) -> (outcome: TensileResult<VisionReport>)
    ensures
        new_vision_outcome(*old(db), *final(db), title, outcome),
{
    let vision = Vision::new(title.clone());
    let id = vision.id;
    db.visions.push(vision);
    proof {
        assert(db.visions@.drop_last() == old(db).visions@);
    }
    Ok(VisionReport::Created { title, id })
}

/// Tells how the visions are to be shown.
pub fn view_tree(format: Option<String>) -> (outcome: TensileResult<VisionReport>)
    ensures
        tree_outcome(format, outcome),
{
    let as_json = match &format {
        Some(f) => same_text(f.as_str(), "json"),
        None => false,
    };
    Ok(VisionReport::Tree { as_json })
}

/// Sets the description of the vision that `id` names to the words of `text`.
pub fn describe_vision(db: &mut Database, id: String, text: Vec<String>) -> (outcome:
    TensileResult<VisionReport>)
    ensures
        describe_outcome(*old(db), *final(db), parsed_uuid(id@), id@, text@, outcome),
{
    let parsed = read_id(id.as_str());
    describe_vision_with(db, parsed, id, text)
}

/// Sets the description of the vision whose identifier was read from `id`
/// to the words of `text`.
pub fn describe_vision_with(
    db: &mut Database,
    parsed: Option<u128>,
    id: String,
    text: Vec<String>,
) -> (outcome: TensileResult<VisionReport>)
    ensures
        describe_outcome(*old(db), *final(db), parsed, id@, text@, outcome),
{
    let (found, place) = match locate_parsed(db, parsed, id.as_str()) {
        Ok(found) => found,
        Err(error) => {
            return Err(error);
        },
    };
    db.visions[place].description = Some(join_words(&text));
    let title = db.visions[place].title.clone();
    proof {
        assert(db.visions@ =~= old(db).visions@.update(
            place as int,
            old(db).visions@[place as int].with_description(db.visions@[place as int].description),
        ));
        assert(db.is_first_with_id(found, place as int));
        db.lemma_first_is_unique(found, place as int);
    }
    Ok(VisionReport::Described { title })
}

/// Links the vision that `child_id` names to the one that `parent_id` names.
pub fn link_visions(db: &mut Database, parent_id: String, child_id: String) -> (outcome:
    TensileResult<VisionReport>)
    ensures
        link_outcome(
            *old(db),
            *final(db),
            parsed_uuid(parent_id@),
            parent_id@,
            parsed_uuid(child_id@),
            child_id@,
            outcome,
        ),
{
    let parsed_parent = read_id(parent_id.as_str());
    let parsed_child = read_id(child_id.as_str());
    link_visions_with(db, parsed_parent, parent_id, parsed_child, child_id)
}

/// Links two visions, given the identifiers that were read from `parent_id`
/// and `child_id`.
pub fn link_visions_with(
    db: &mut Database,
    parsed_parent: Option<u128>,
    parent_id: String,
    parsed_child: Option<u128>,
    child_id: String,
) -> (outcome: TensileResult<VisionReport>)
    ensures
        link_outcome(
            *old(db),
            *final(db),
            parsed_parent,
            parent_id@,
            parsed_child,
            child_id@,
            outcome,
        ),
{
    let parent = match id_or_complaint(parsed_parent, parent_id.as_str(), "Invalid parent UUID: ") {
        Ok(id) => id,
        Err(error) => {
            return Err(error);
        },
    };
    let child = match id_or_complaint(parsed_child, child_id.as_str(), "Invalid child UUID: ") {
        Ok(id) => id,
        Err(error) => {
            return Err(error);
        },
    };
    let (c, p) = match (db.find_vision(child), db.find_vision(parent)) {
        (Some(c), Some(p)) => (c, p),
        _ => {
            return Err(
                TensileError::NotFound(String::from_str("Parent or child vision not found")),
            );
        },
    };
    db.visions[c].parent = Some(parent);
    let ghost adopted = db.visions@;
    proof {
        assert(adopted =~= old(db).visions@.update(
            c as int,
            old(db).visions@[c as int].with_parent(Some(parent)),
        ));
    }
    let mut i: usize = 0;
    while i < db.visions.len()
        invariant
            i <= db.visions@.len(),
            p < db.visions@.len(),
            db.visions@.len() == adopted.len(),
            db.realities == old(db).realities,
            db.actions == old(db).actions,
            db.user == old(db).user,
            forall|k: int| i <= k < adopted.len() ==> db.visions@[k] == adopted[k],
            forall|k: int|
                0 <= k < i ==> {
                    &&& (#[trigger] db.visions@[k]).with_children(adopted[k].children)
                        == adopted[k]
                    &&& db.visions@[k].children@ == if k == p {
                        with_child(adopted[k].children@, child)
                    } else {
                        without(adopted[k].children@, child)
                    }
                },
        decreases db.visions@.len() - i,
    {
        let children = if i == p {
            enter_once(&db.visions[i].children, child)
        } else {
            without_id(&db.visions[i].children, child)
        };
        db.visions[i].children = children;
        i += 1;
    }
    Ok(VisionReport::Linked)
}

/// Marks the vision that `id` names as achieved.
pub fn complete_vision(db: &mut Database, id: String) -> (outcome: TensileResult<VisionReport>)
    ensures
        complete_outcome(*old(db), *final(db), parsed_uuid(id@), id@, outcome),
{
    let parsed = read_id(id.as_str());
    complete_vision_with(db, parsed, id)
}

/// Marks as achieved the vision whose identifier was read from `id`.
pub fn complete_vision_with(db: &mut Database, parsed: Option<u128>, id: String) -> (outcome:
    TensileResult<VisionReport>)
    ensures
        complete_outcome(*old(db), *final(db), parsed, id@, outcome),
{
    let (found, place) = match locate_parsed(db, parsed, id.as_str()) {
        Ok(found) => found,
        Err(error) => {
            return Err(error);
        },
    };
    db.visions[place].completed = true;
    db.visions[place].state = VisionState::Achieved;
    let title = db.visions[place].title.clone();
    proof {
        assert(db.visions@ =~= old(db).visions@.update(
            place as int,
            old(db).visions@[place as int].achieved(),
        ));
    }
    Ok(VisionReport::Completed { title })
}

/// Linking keeps parents and children in agreement. Where no two visions
/// share an identifier and parents and children agree, they do so again once
/// a child is linked to a parent: the parent counts the child among its
/// children exactly once, and no other vision counts it any more.
pub proof fn lemma_linking_keeps_links_agree(
    before: Database,
    after: Database,
    parent: u128,
    child: u128,
)
    requires
        before.has_vision(parent),
        before.has_vision(child),
        has_unique_ids(before.visions@),
        links_agree(before.visions@),
        links_visions(before, after, parent, child),
    ensures
        has_unique_ids(after.visions@),
        links_agree(after.visions@),
        after.vision_with_id(child).parent == Some(parent),
        after.vision_with_id(parent).children@.contains(child),
        forall|i: int, j: int|
            #![trigger after.vision_with_id(parent).children@[i], after.vision_with_id(parent).children@[j]]
            0 <= i < j < after.vision_with_id(parent).children@.len() ==> !(after.vision_with_id(
                parent,
            ).children@[i] == child && after.vision_with_id(parent).children@[j] == child),
        forall|k: int|
            0 <= k < after.visions@.len() && (#[trigger] after.visions@[k]).id != parent
                ==> !after.visions@[k].children@.contains(child),
{
    let c = before.place_of(child);
    let p = before.place_of(parent);
    before.lemma_place_of(child);
    before.lemma_place_of(parent);
    let old_visions = before.visions@;
    let new_visions = after.visions@;
    let adopted = old_visions.update(c, old_visions[c].with_parent(Some(parent)));
    assert forall|k: int| 0 <= k < old_visions.len() implies (#[trigger] new_visions[k]).id
        == old_visions[k].id && new_visions[k].parent == adopted[k].parent
        && adopted[k].children == old_visions[k].children by {
        assert(new_visions[k].with_children(adopted[k].children) == adopted[k]);
    }
    assert forall|i: int, j: int|
        #![trigger new_visions[i], new_visions[j]]
        0 <= i < j < new_visions.len() implies new_visions[i].id != new_visions[j].id by {
        assert(old_visions[i].id != old_visions[j].id);
    }
    assert forall|k: int| 0 <= k < old_visions.len() && k != c implies (
    #[trigger] old_visions[k]).id != child by {
        if k < c {
            assert(old_visions[k].id != old_visions[c].id);
        } else {
            assert(old_visions[c].id != old_visions[k].id);
        }
    }
    assert forall|k: int| 0 <= k < old_visions.len() && k != p implies (
    #[trigger] old_visions[k]).id != parent by {
        if k < p {
            assert(old_visions[k].id != old_visions[p].id);
        } else {
            assert(old_visions[p].id != old_visions[k].id);
        }
    }
    assert forall|a: int, b: int|
        #![trigger new_visions[a], new_visions[b]]
        0 <= a < new_visions.len() && 0 <= b < new_visions.len() implies (
    new_visions[a].children@.contains(new_visions[b].id) <==> new_visions[b].parent == Some(
        new_visions[a].id,
    )) by {
        let x = old_visions[b].id;
        let children = old_visions[a].children@;
        assert(new_visions[a].id == old_visions[a].id);
        assert(new_visions[b].id == x);
        assert(children.contains(x) <==> old_visions[b].parent == Some(old_visions[a].id)) by {
            assert(old_visions[a].id == old_visions[a].id && old_visions[b].id == x);
        }
        lemma_with_child_membership(children, child, x);
        lemma_without_membership(children, child, x);
        if b == c {
            assert(x == child);
        } else {
            assert(x != child);
            assert(new_visions[b].parent == old_visions[b].parent);
        }
    }
    after.lemma_first_is_unique(child, c);
    after.lemma_first_is_unique(parent, p);
    lemma_with_child_membership(old_visions[p].children@, child, child);
    assert forall|k: int|
        0 <= k < new_visions.len() && (#[trigger] new_visions[k]).id != parent implies !new_visions[k].children@.contains(
        child,
    ) by {
        lemma_without_membership(old_visions[k].children@, child, child);
    }
}

impl VisionCommands {
    /// The complaint that the command ends in whatever the snapshot holds:
    /// that about the first of its texts that cannot be read. A command that
    /// reads its texts only once the snapshot is there has none.
    pub open spec fn spec_unreadable(self) -> Option<Seq<char>> {
        match self {
            VisionCommands::Describe { id, .. } => id_complaint(
                parsed_uuid(id@),
                id@,
                "Invalid UUID: "@,
            ),
            VisionCommands::Complete { id } => id_complaint(
                parsed_uuid(id@),
                id@,
                "Invalid UUID: "@,
            ),
            VisionCommands::Link { parent, child } => if parsed_uuid(parent@) is None {
                Some("Invalid parent UUID: "@ + parent@)
            } else {
                id_complaint(parsed_uuid(child@), child@, "Invalid child UUID: "@)
            },
            _ => None,
        }
    }

    /// The parse error that the command ends in whatever the snapshot holds,
    /// if there is one.
    pub fn unreadable(&self) -> (error: Option<TensileError>)
        ensures
            is_complaint(error, self.spec_unreadable()),
    {
        match self {
            VisionCommands::Describe { id, .. } => complaint_about(
                read_id(id.as_str()),
                id.as_str(),
                "Invalid UUID: ",
            ),
            VisionCommands::Complete { id } => complaint_about(
                read_id(id.as_str()),
                id.as_str(),
                "Invalid UUID: ",
            ),
            VisionCommands::Link { parent, child } => {
                match complaint_about(
                    read_id(parent.as_str()),
                    parent.as_str(),
                    "Invalid parent UUID: ",
                ) {
                    Some(error) => Some(error),
                    None => complaint_about(
                        read_id(child.as_str()),
                        child.as_str(),
                        "Invalid child UUID: ",
                    ),
                }
            },
            _ => None,
        }
    }

    /// What the command comes to, from the snapshot `before` to the snapshot
    /// `after`.
    pub open spec fn outcome_of(
        self,
        before: Database,
        after: Database,
        outcome: TensileResult<VisionReport>,
    ) -> bool {
        match self {
            VisionCommands::New { title } => new_vision_outcome(before, after, title, outcome),
            VisionCommands::Tree { format } => after == before && tree_outcome(format, outcome),
            VisionCommands::Describe { id, text } => describe_outcome(
                before,
                after,
                parsed_uuid(id@),
                id@,
                text@,
                outcome,
            ),
            VisionCommands::Link { parent, child } => link_outcome(
                before,
                after,
                parsed_uuid(parent@),
                parent@,
                parsed_uuid(child@),
                child@,
                outcome,
            ),
            VisionCommands::Complete { id } => complete_outcome(
                before,
                after,
                parsed_uuid(id@),
                id@,
                outcome,
            ),
        }
    }

    /// Carries out the command on the snapshot.
    pub fn execute(self, db: &mut Database) -> (outcome: TensileResult<VisionReport>)
        ensures
            self.outcome_of(*old(db), *final(db), outcome),
    {
        match self {
            VisionCommands::New { title } => new_vision(db, title),
            VisionCommands::Tree { format } => view_tree(format),
            VisionCommands::Describe { id, text } => describe_vision(db, id, text),
            VisionCommands::Link { parent, child } => link_visions(db, parent, child),
            VisionCommands::Complete { id } => complete_vision(db, id),
        }
    }
}

} // verus!
