use tensile::cli::commands::action::{
    period_days, review_actions_at, ActionCommands, ActionReport,
};
use tensile::cli::commands::metrics::{MetricsCommands, MetricsReport};
use tensile::cli::commands::pattern::{PatternCommands, PatternReport};
use tensile::cli::commands::reality::{RealityCommands, RealityReport};
use tensile::cli::commands::state::{StateCommands, StateReport};
use tensile::cli::commands::vision::{VisionCommands, VisionReport};
use tensile::cli::commands::{prompt_command, prompt_for, Commands, Report};
use tensile::cli::parsers::{locate_vision, parse_filter, parse_uuid, parse_vision_id};
use tensile::cli::Cli;
use tensile::engine::Pattern;
use tensile::error::TensileError;
use tensile::models::{
    ActionLog, Database, RealityAssessment, Timestamp, Vision, VisionState,
};
use tensile::cli::commands::action::{log_action_with, review_actions_with, today_action_with};
use tensile::cli::commands::metrics::show_detail_with;
use tensile::cli::commands::pattern::check_patterns_with;
use tensile::cli::commands::reality::{
    latest_reality_with, update_reality_with, view_reality_with,
};
use tensile::cli::commands::state::{show_state_with, transition_state_with};
use tensile::cli::commands::vision::{
    complete_vision_with, describe_vision_with, link_visions_with,
};
use tensile::cli::parsers::{
    filter_or_complaint, id_or_complaint, locate_parsed, read_filter, read_id,
};

const DAY: i64 = 86_400;
const A: &str = "550e8400-e29b-41d4-a716-446655440000";
const A_ID: u128 = 0x550e8400_e29b_41d4_a716_446655440000;
const B: &str = "00000000-0000-0000-0000-00000000000b";
const B_ID: u128 = 0xb;
const MISSING: &str = "00000000-0000-0000-0000-0000000000ff";

fn at(secs: i64) -> Timestamp {
    Timestamp { secs, nanos: 0 }
}

fn s(text: &str) -> String {
    text.to_string()
}

fn words(text: &[&str]) -> Vec<String> {
    text.iter().map(|w| w.to_string()).collect()
}

fn two_visions() -> Database {
    let mut db = Database::default();
    db.visions.push(Vision::conceived(A_ID, s("Write the book"), at(0)));
    db.visions.push(Vision::conceived(B_ID, s("Learn to sail"), at(0)));
    db
}

fn parse_message(error: TensileError) -> String {
    match error {
        TensileError::Parse(message) => message,
        other => panic!("not a parse error: {:?}", other),
    }
}

fn not_found_message(error: TensileError) -> String {
    match error {
        TensileError::NotFound(message) => message,
        other => panic!("not a not-found error: {:?}", other),
    }
}

#[test]
fn identifiers_are_read_as_uuids() {
    assert_eq!(parse_uuid(A).unwrap(), A_ID);
    assert_eq!(parse_uuid("550E8400E29B41D4A716446655440000").unwrap(), A_ID);
    assert_eq!(
        parse_uuid("urn:uuid:550e8400-e29b-41d4-a716-446655440000").unwrap(),
        A_ID
    );
    assert_eq!(parse_uuid(B).unwrap(), 11);
    let message = parse_message(parse_uuid("not an id").unwrap_err());
    assert!(!message.is_empty());
    assert_eq!(
        message,
        uuid::Uuid::parse_str("not an id").unwrap_err().to_string()
    );
    assert_eq!(
        uuid::Uuid::from_u128(parse_uuid(A).unwrap()).to_string(),
        A
    );
}

#[test]
fn an_unreadable_identifier_is_reported_with_its_text() {
    assert_eq!(parse_vision_id(A, "Invalid UUID: ").unwrap(), A_ID);
    assert_eq!(
        parse_message(parse_vision_id("xyz", "Invalid UUID: ").unwrap_err()),
        "Invalid UUID: xyz"
    );
    assert_eq!(
        parse_message(parse_vision_id("", "Invalid child UUID: ").unwrap_err()),
        "Invalid child UUID: "
    );
    assert_eq!(parse_filter(&None).unwrap(), None);
    assert_eq!(parse_filter(&Some(s(B))).unwrap(), Some(B_ID));
    assert_eq!(
        parse_message(parse_filter(&Some(s("b"))).unwrap_err()),
        "Invalid UUID: b"
    );
}

#[test]
fn a_vision_is_located_by_its_identifier() {
    let mut db = two_visions();
    db.visions.push(Vision::conceived(A_ID, s("A again"), at(0)));
    assert_eq!(locate_vision(&db, A).unwrap(), (A_ID, 0));
    assert_eq!(locate_vision(&db, B).unwrap(), (B_ID, 1));
    assert_eq!(
        not_found_message(locate_vision(&db, MISSING).unwrap_err()),
        format!("Vision not found: {}", MISSING)
    );
    assert_eq!(
        parse_message(locate_vision(&db, "??").unwrap_err()),
        "Invalid UUID: ??"
    );
}

#[test]
fn logging_an_action_appends_it() {
    let mut db = two_visions();
    let before = chrono::Utc::now().timestamp();
    let report = ActionCommands::Log { vision_id: s(B), entry: words(&["bought", "a", "boat"]) }
        .execute(&mut db)
        .unwrap();
    let after = chrono::Utc::now().timestamp();
    assert!(matches!(report, ActionReport::Logged));
    assert_eq!(db.actions.len(), 1);
    assert_eq!(db.actions[0].vision_id, B_ID);
    assert_eq!(db.actions[0].entry, "bought a boat");
    assert!(db.actions[0].success);
    assert!(before <= db.actions[0].timestamp.secs && db.actions[0].timestamp.secs <= after);
    assert!(db.actions[0].timestamp.nanos < 1_000_000_000);
    assert_eq!(db.visions.len(), 2);
    assert!(db.realities.is_empty());

    ActionCommands::Log { vision_id: s(B), entry: Vec::new() }
        .execute(&mut db)
        .unwrap();
    assert_eq!(db.actions.len(), 2);
    assert_eq!(db.actions[1].entry, "");
    assert_ne!(db.actions[0].id, db.actions[1].id);
}

#[test]
fn logging_against_no_vision_changes_nothing() {
    let mut db = two_visions();
    let error = ActionCommands::Log { vision_id: s(MISSING), entry: words(&["x"]) }
        .execute(&mut db)
        .unwrap_err();
    assert_eq!(
        not_found_message(error),
        format!("Vision not found: {}", MISSING)
    );
    let error = ActionCommands::Log { vision_id: s("nope"), entry: words(&["x"]) }
        .execute(&mut db)
        .unwrap_err();
    assert_eq!(parse_message(error), "Invalid UUID: nope");
    assert!(db.actions.is_empty());
    let error = RealityCommands::Update { vision_id: s(MISSING), entry: words(&["x"]) }
        .execute(&mut db)
        .unwrap_err();
    assert_eq!(
        not_found_message(error),
        format!("Vision not found: {}", MISSING)
    );
    assert!(db.realities.is_empty());
}

#[test]
fn today_names_the_vision() {
    let mut db = two_visions();
    match (ActionCommands::Today { vision_id: s(A) }).execute(&mut db).unwrap() {
        ActionReport::Today { title, vision_id } => {
            assert_eq!(title, "Write the book");
            assert_eq!(vision_id, A);
        }
        other => panic!("unexpected report: {:?}", other),
    }
    assert!(ActionCommands::Today { vision_id: s(MISSING) }
        .execute(&mut db)
        .is_err());
}

#[test]
fn periods_reach_back_one_seven_or_thirty_days() {
    assert_eq!(period_days("daily"), 1);
    assert_eq!(period_days("weekly"), 7);
    assert_eq!(period_days("monthly"), 30);
    assert_eq!(period_days("yearly"), 1);
    assert_eq!(period_days("Weekly"), 1);
    assert_eq!(period_days(""), 1);
}

fn logged(db: &mut Database, vision_id: u128, entry: &str, secs: i64, success: bool) {
    let mut action = ActionLog::recorded(db.actions.len() as u128, vision_id, s(entry), at(secs));
    action.success = success;
    db.actions.push(action);
}

fn review(db: &Database, period: &str, vision: Option<&str>, now: i64) -> (usize, usize, Vec<String>) {
    match review_actions_at(db, s(period), vision.map(s), &at(now)).unwrap() {
        ActionReport::Review(review) => {
            assert_eq!(review.period, period);
            assert_eq!(review.total, review.actions.len());
            (
                review.total,
                review.successful,
                review.actions.iter().map(|a| a.entry.clone()).collect(),
            )
        }
        other => panic!("unexpected report: {:?}", other),
    }
}

#[test]
fn a_review_lists_the_actions_of_the_period_latest_first() {
    let mut db = two_visions();
    logged(&mut db, A_ID, "long ago", 0, true);
    logged(&mut db, A_ID, "last month", 75 * DAY, true);
    logged(&mut db, B_ID, "last week", 95 * DAY, false);
    logged(&mut db, A_ID, "today", 100 * DAY - 60, true);
    logged(&mut db, B_ID, "yesterday noon", 99 * DAY + DAY / 2, false);
    logged(&mut db, A_ID, "a day ago to the second", 99 * DAY, true);
    let now = 100 * DAY;
    assert_eq!(
        review(&db, "daily", None, now),
        (2, 1, vec![s("today"), s("yesterday noon")])
    );
    assert_eq!(
        review(&db, "weekly", None, now),
        (
            4,
            2,
            vec![
                s("today"),
                s("yesterday noon"),
                s("a day ago to the second"),
                s("last week")
            ]
        )
    );
    assert_eq!(review(&db, "monthly", None, now).0, 5);
    assert_eq!(review(&db, "whenever", None, now).0, 2);
    assert_eq!(
        review(&db, "weekly", Some(B), now),
        (2, 0, vec![s("yesterday noon"), s("last week")])
    );
    assert_eq!(review(&db, "monthly", Some(MISSING), now), (0, 0, vec![]));
    let error = review_actions_at(&db, s("daily"), Some(s("zz")), &at(now)).unwrap_err();
    assert_eq!(parse_message(error), "Invalid UUID: zz");
}

#[test]
fn actions_of_the_same_instant_stay_in_their_order() {
    let mut db = two_visions();
    logged(&mut db, A_ID, "one", 50, true);
    logged(&mut db, A_ID, "two", 70, true);
    logged(&mut db, A_ID, "three", 50, true);
    logged(&mut db, A_ID, "four", 70, true);
    assert_eq!(
        review(&db, "daily", None, 100).2,
        vec![s("two"), s("four"), s("one"), s("three")]
    );
}

#[test]
fn a_review_through_the_command_reads_the_clock() {
    let mut db = two_visions();
    ActionCommands::Log { vision_id: s(A), entry: words(&["now"]) }
        .execute(&mut db)
        .unwrap();
    logged(&mut db, A_ID, "in 1970", 0, true);
    match (ActionCommands::Review { period: s("daily"), vision: None })
        .execute(&mut db)
        .unwrap()
    {
        ActionReport::Review(review) => {
            assert_eq!(review.total, 1);
            assert_eq!(review.actions[0].entry, "now");
        }
        other => panic!("unexpected report: {:?}", other),
    }
    assert_eq!(db.actions.len(), 2);
}

#[test]
fn assessments_are_recorded_listed_and_the_latest_found() {
    let mut db = two_visions();
    let report = RealityCommands::Update { vision_id: s(A), entry: words(&["ten", "pages"]) }
        .execute(&mut db)
        .unwrap();
    assert!(matches!(report, RealityReport::Recorded));
    assert_eq!(db.realities.len(), 1);
    assert_eq!(db.realities[0].entry, "ten pages");
    assert_eq!(db.realities[0].vision_id, A_ID);
    db.realities.clear();
    db.realities.push(RealityAssessment::recorded(1, A_ID, s("a1"), at(10)));
    db.realities.push(RealityAssessment::recorded(2, B_ID, s("b1"), at(30)));
    db.realities.push(RealityAssessment::recorded(3, A_ID, s("a2"), at(20)));
    db.realities.push(RealityAssessment::recorded(4, B_ID, s("b2"), at(30)));
    let listing = |db: &mut Database, vision: Option<&str>| -> Vec<String> {
        match (RealityCommands::View { vision: vision.map(s) }).execute(db).unwrap() {
            RealityReport::Listing(found) => found.iter().map(|r| r.entry.clone()).collect(),
            other => panic!("unexpected report: {:?}", other),
        }
    };
    assert_eq!(listing(&mut db, None), vec!["a1", "b1", "a2", "b2"]);
    assert_eq!(listing(&mut db, Some(A)), vec!["a1", "a2"]);
    assert!(listing(&mut db, Some(MISSING)).is_empty());
    let latest = |db: &mut Database, vision: Option<&str>| -> Option<String> {
        match (RealityCommands::Latest { vision: vision.map(s) }).execute(db).unwrap() {
            RealityReport::Latest(found) => found.map(|r| r.entry),
            other => panic!("unexpected report: {:?}", other),
        }
    };
    assert_eq!(latest(&mut db, None), Some(s("b1")));
    assert_eq!(latest(&mut db, Some(A)), Some(s("a2")));
    assert_eq!(latest(&mut db, Some(MISSING)), None);
    assert_eq!(db.realities.len(), 4);
    let error = RealityCommands::Latest { vision: Some(s("?")) }
        .execute(&mut db)
        .unwrap_err();
    assert_eq!(parse_message(error), "Invalid UUID: ?");
    let error = RealityCommands::View { vision: Some(s("?")) }
        .execute(&mut db)
        .unwrap_err();
    assert_eq!(parse_message(error), "Invalid UUID: ?");
}

#[test]
fn the_state_is_shown() {
    let mut db = two_visions();
    db.visions[1].state = VisionState::Blocked;
    db.visions[1].created_at = at(77);
    match (StateCommands::Show { vision_id: s(B) }).execute(&mut db).unwrap() {
        StateReport::Current { title, state, created_at, completed } => {
            assert_eq!(title, "Learn to sail");
            assert_eq!(state, VisionState::Blocked);
            assert_eq!(created_at, at(77));
            assert!(!completed);
        }
        other => panic!("unexpected report: {:?}", other),
    }
    assert!(StateCommands::Show { vision_id: s(MISSING) }
        .execute(&mut db)
        .is_err());
}

#[test]
fn a_transition_follows_the_life_cycle() {
    let mut db = two_visions();
    let go = |db: &mut Database, to: &str| {
        StateCommands::Transition { vision_id: s(A), state: s(to) }.execute(db)
    };
    match go(&mut db, "in_progress").unwrap() {
        StateReport::Transitioned { from, to } => {
            assert_eq!(from, VisionState::Conceived);
            assert_eq!(to, VisionState::InProgress);
        }
        other => panic!("unexpected report: {:?}", other),
    }
    assert_eq!(db.visions[0].state, VisionState::InProgress);
    assert_eq!(db.visions[1].state, VisionState::Conceived);
    go(&mut db, "BLOCKED").unwrap();
    assert_eq!(db.visions[0].state, VisionState::Blocked);
    match go(&mut db, "achieved").unwrap_err() {
        TensileError::InvalidStateTransition(from, to) => {
            assert_eq!(from, "Blocked");
            assert_eq!(to, "Achieved");
        }
        other => panic!("unexpected error: {:?}", other),
    }
    assert_eq!(db.visions[0].state, VisionState::Blocked);
    go(&mut db, "Blocked").unwrap();
    go(&mut db, "Reassessed").unwrap();
    go(&mut db, "Achieved").unwrap();
    assert_eq!(db.visions[0].state, VisionState::Achieved);
    assert!(!db.visions[0].completed);
    assert!(go(&mut db, "InProgress").is_err());
    assert_eq!(db.visions[0].title, "Write the book");
}

#[test]
fn a_transition_reports_the_first_thing_that_is_wrong() {
    let mut db = two_visions();
    let go = |db: &mut Database, id: &str, to: &str| {
        StateCommands::Transition { vision_id: s(id), state: s(to) }
            .execute(db)
            .unwrap_err()
    };
    assert_eq!(parse_message(go(&mut db, "x", "nowhere")), "Invalid UUID: x");
    assert_eq!(
        parse_message(go(&mut db, MISSING, "Nowhere")),
        "Unknown state: Nowhere"
    );
    assert_eq!(
        not_found_message(go(&mut db, MISSING, "blocked")),
        format!("Vision not found: {}", MISSING)
    );
    assert!(matches!(
        go(&mut db, A, "blocked"),
        TensileError::InvalidStateTransition(_, _)
    ));
    assert_eq!(db.visions[0].state, VisionState::Conceived);
}

#[test]
fn a_new_vision_is_conceived() {
    let mut db = two_visions();
    let before = chrono::Utc::now().timestamp();
    let report = VisionCommands::New { title: s("Plant a tree") }
        .execute(&mut db)
        .unwrap();
    let id = match report {
        VisionReport::Created { title, id } => {
            assert_eq!(title, "Plant a tree");
            id
        }
        other => panic!("unexpected report: {:?}", other),
    };
    assert_eq!(db.visions.len(), 3);
    let created = &db.visions[2];
    assert_eq!(created.id, id);
    assert_eq!(created.title, "Plant a tree");
    assert_eq!(created.description, None);
    assert_eq!(created.parent, None);
    assert!(created.children.is_empty());
    assert!(!created.completed);
    assert_eq!(created.state, VisionState::Conceived);
    assert!(created.created_at.secs >= before && created.created_at.secs <= before + 60);
    assert_eq!(uuid::Uuid::from_u128(id).get_version_num(), 4);
    VisionCommands::New { title: s("") }.execute(&mut db).unwrap();
    assert_ne!(db.visions[3].id, id);
}

#[test]
fn the_tree_is_asked_for_as_json_or_not() {
    let mut db = two_visions();
    let asks = |db: &mut Database, format: Option<&str>| match (VisionCommands::Tree {
        format: format.map(s),
    })
    .execute(db)
    .unwrap()
    {
        VisionReport::Tree { as_json } => as_json,
        other => panic!("unexpected report: {:?}", other),
    };
    assert!(asks(&mut db, Some("json")));
    assert!(!asks(&mut db, Some("JSON")));
    assert!(!asks(&mut db, Some("text")));
    assert!(!asks(&mut db, None));
}

#[test]
fn a_vision_is_described_and_completed() {
    let mut db = two_visions();
    match (VisionCommands::Describe { id: s(B), text: words(&["around", "the", "world"]) })
        .execute(&mut db)
        .unwrap()
    {
        VisionReport::Described { title } => assert_eq!(title, "Learn to sail"),
        other => panic!("unexpected report: {:?}", other),
    }
    assert_eq!(db.visions[1].description, Some(s("around the world")));
    assert_eq!(db.visions[0].description, None);
    match (VisionCommands::Complete { id: s(B) }).execute(&mut db).unwrap() {
        VisionReport::Completed { title } => assert_eq!(title, "Learn to sail"),
        other => panic!("unexpected report: {:?}", other),
    }
    assert!(db.visions[1].completed);
    assert_eq!(db.visions[1].state, VisionState::Achieved);
    assert_eq!(db.visions[1].description, Some(s("around the world")));
    assert!(!db.visions[0].completed);
    assert!(VisionCommands::Complete { id: s(MISSING) }.execute(&mut db).is_err());
    assert!(VisionCommands::Describe { id: s("bad"), text: Vec::new() }
        .execute(&mut db)
        .is_err());
}

#[test]
fn visions_are_linked_once() {
    let mut db = two_visions();
    let link = |db: &mut Database, parent: &str, child: &str| {
        VisionCommands::Link { parent: s(parent), child: s(child) }.execute(db)
    };
    assert!(matches!(link(&mut db, A, B).unwrap(), VisionReport::Linked));
    assert_eq!(db.visions[1].parent, Some(A_ID));
    assert_eq!(db.visions[0].children, vec![B_ID]);
    assert_eq!(db.visions[0].parent, None);
    assert!(db.visions[1].children.is_empty());
    link(&mut db, A, B).unwrap();
    assert_eq!(db.visions[0].children, vec![B_ID]);
    link(&mut db, A, A).unwrap();
    assert_eq!(db.visions[0].children, vec![B_ID, A_ID]);
    assert_eq!(db.visions[0].parent, Some(A_ID));
    assert_eq!(
        parse_message(link(&mut db, "p", "c").unwrap_err()),
        "Invalid parent UUID: p"
    );
    assert_eq!(
        parse_message(link(&mut db, A, "c").unwrap_err()),
        "Invalid child UUID: c"
    );
    assert_eq!(
        not_found_message(link(&mut db, A, MISSING).unwrap_err()),
        "Parent or child vision not found"
    );
    assert_eq!(
        not_found_message(link(&mut db, MISSING, B).unwrap_err()),
        "Parent or child vision not found"
    );
    assert_eq!(db.visions[1].parent, Some(A_ID));
}

#[test]
fn a_child_linked_anew_leaves_its_former_parent() {
    let mut db = two_visions();
    db.visions.push(Vision::conceived(3, s("Third"), at(0)));
    db.visions.push(Vision::conceived(4, s("Fourth"), at(0)));
    let third = "00000000-0000-0000-0000-000000000003";
    let fourth = "00000000-0000-0000-0000-000000000004";
    let link = |db: &mut Database, parent: &str, child: &str| {
        VisionCommands::Link { parent: s(parent), child: s(child) }
            .execute(db)
            .unwrap()
    };
    link(&mut db, A, third);
    link(&mut db, A, fourth);
    link(&mut db, B, A);
    assert_eq!(db.visions[0].children, vec![3, 4]);
    assert_eq!(db.visions[1].children, vec![A_ID]);
    // The third vision moves from A to B: A loses it, B counts it once.
    link(&mut db, B, third);
    assert_eq!(db.visions[2].parent, Some(B_ID));
    assert_eq!(db.visions[0].children, vec![4]);
    assert_eq!(db.visions[1].children, vec![A_ID, 3]);
    assert_eq!(db.visions[0].parent, Some(B_ID));
    assert_eq!(db.visions[3].parent, Some(A_ID));
    assert!(db.visions[2].children.is_empty() && db.visions[3].children.is_empty());
    // Parents and children agree.
    for parent in &db.visions {
        for child in &db.visions {
            assert_eq!(
                parent.children.contains(&child.id),
                child.parent == Some(parent.id)
            );
        }
    }
    // Entries that came double are made one, wherever they stand.
    db.visions[1].children = vec![3, A_ID, 3, 3];
    db.visions[0].children = vec![4, 3];
    link(&mut db, B, third);
    assert_eq!(db.visions[1].children, vec![3, A_ID]);
    assert_eq!(db.visions[0].children, vec![4]);
    let titles: Vec<&str> = db.visions.iter().map(|v| v.title.as_str()).collect();
    assert_eq!(titles, vec!["Write the book", "Learn to sail", "Third", "Fourth"]);
}

#[test]
fn what_a_command_cannot_read_is_told_without_a_snapshot() {
    let told = |command: Commands| command.unreadable().map(|e| e.message());
    let bad = || s("bad");
    assert_eq!(
        told(Commands::Action(ActionCommands::Log { vision_id: bad(), entry: Vec::new() })),
        Some(s("Parse error: Invalid UUID: bad"))
    );
    assert_eq!(
        told(Commands::Action(ActionCommands::Today { vision_id: bad() })),
        Some(s("Parse error: Invalid UUID: bad"))
    );
    assert_eq!(
        told(Commands::Action(ActionCommands::Review { period: s("daily"), vision: Some(bad()) })),
        None
    );
    assert_eq!(
        told(Commands::Reality(RealityCommands::Update { vision_id: bad(), entry: Vec::new() })),
        Some(s("Parse error: Invalid UUID: bad"))
    );
    assert_eq!(
        told(Commands::Reality(RealityCommands::View { vision: Some(bad()) })),
        None
    );
    assert_eq!(
        told(Commands::State(StateCommands::Show { vision_id: bad() })),
        Some(s("Parse error: Invalid UUID: bad"))
    );
    assert_eq!(
        told(Commands::State(StateCommands::Transition { vision_id: bad(), state: s("x") })),
        Some(s("Parse error: Invalid UUID: bad"))
    );
    assert_eq!(
        told(Commands::State(StateCommands::Transition { vision_id: s(A), state: s("Limbo") })),
        Some(s("Parse error: Unknown state: Limbo"))
    );
    assert_eq!(
        told(Commands::State(StateCommands::Transition { vision_id: s(A), state: s("blocked") })),
        None
    );
    assert_eq!(
        told(Commands::Vision(VisionCommands::Link { parent: bad(), child: bad() })),
        Some(s("Parse error: Invalid parent UUID: bad"))
    );
    assert_eq!(
        told(Commands::Vision(VisionCommands::Link { parent: s(A), child: bad() })),
        Some(s("Parse error: Invalid child UUID: bad"))
    );
    assert_eq!(
        told(Commands::Vision(VisionCommands::Link { parent: s(A), child: s(MISSING) })),
        None
    );
    assert_eq!(
        told(Commands::Vision(VisionCommands::Describe { id: bad(), text: Vec::new() })),
        Some(s("Parse error: Invalid UUID: bad"))
    );
    assert_eq!(
        told(Commands::Vision(VisionCommands::Complete { id: bad() })),
        Some(s("Parse error: Invalid UUID: bad"))
    );
    assert_eq!(told(Commands::Vision(VisionCommands::New { title: bad() })), None);
    assert_eq!(
        told(Commands::Metrics(MetricsCommands::Detail { vision_id: bad() })),
        Some(s("Parse error: Invalid UUID: bad"))
    );
    assert_eq!(told(Commands::Metrics(MetricsCommands::Summary)), None);
    assert_eq!(
        told(Commands::Pattern(PatternCommands::Check { vision: Some(bad()) })),
        None
    );
    assert_eq!(told(Commands::Prompt), None);
    // What is told is what carrying the command out would come to.
    let mut db = two_visions();
    let error = Commands::State(StateCommands::Transition { vision_id: s(A), state: s("Limbo") })
        .execute(&mut db)
        .unwrap_err();
    assert_eq!(error.message(), "Parse error: Unknown state: Limbo");
}

#[test]
fn patterns_are_checked_for_one_vision_or_for_all() {
    let mut db = two_visions();
    for i in 0..10 {
        logged(&mut db, A_ID, "step", i, i < 7);
    }
    match (PatternCommands::Check { vision: Some(s(A)) }).execute(&mut db).unwrap() {
        PatternReport::Single { title, pattern, figures } => {
            assert_eq!(title, "Write the book");
            assert_eq!(pattern, Pattern::Oscillating);
            let figures = figures.unwrap();
            assert_eq!(figures.total_actions, 10);
            assert_eq!(
                (figures.success_rate.numerator(), figures.success_rate.denominator()),
                (7, 10)
            );
        }
        other => panic!("unexpected report: {:?}", other),
    }
    match (PatternCommands::Check { vision: Some(s(B)) }).execute(&mut db).unwrap() {
        PatternReport::Single { title, pattern, figures } => {
            assert_eq!(title, "Learn to sail");
            assert_eq!(pattern, Pattern::Stagnant);
            assert!(figures.is_none());
        }
        other => panic!("unexpected report: {:?}", other),
    }
    match (PatternCommands::Check { vision: None }).execute(&mut db).unwrap() {
        PatternReport::All(patterns) => assert_eq!(
            patterns,
            vec![
                (s("Write the book"), Pattern::Oscillating),
                (s("Learn to sail"), Pattern::Stagnant)
            ]
        ),
        other => panic!("unexpected report: {:?}", other),
    }
    assert!(PatternCommands::Check { vision: Some(s(MISSING)) }
        .execute(&mut db)
        .is_err());
    assert!(PatternCommands::Check { vision: Some(s("bad")) }
        .execute(&mut db)
        .is_err());
}

#[test]
fn metrics_show_priorities_detail_and_summary() {
    let mut db = two_visions();
    db.visions[0].state = VisionState::InProgress;
    db.visions[0].description = Some(s("a novel"));
    db.visions.push(Vision::conceived(3, s("Done"), at(0)));
    db.visions[2].state = VisionState::InProgress;
    db.visions[2].completed = true;
    logged(&mut db, A_ID, "wrote", 5 * DAY, true);
    db.realities.push(RealityAssessment::recorded(1, B_ID, s("no boat"), at(0)));
    let now = at(6 * DAY);
    match MetricsCommands::Priority.execute_at(&db, &now).unwrap() {
        MetricsReport::Priorities(ranked) => {
            let titles: Vec<&str> = ranked.iter().map(|t| t.vision_title.as_str()).collect();
            assert_eq!(titles, vec!["Learn to sail", "Write the book", "Done"]);
        }
        other => panic!("unexpected report: {:?}", other),
    }
    match (MetricsCommands::Detail { vision_id: s(A) }).execute_at(&db, &now).unwrap() {
        MetricsReport::Detail(detail) => {
            assert_eq!(detail.title, "Write the book");
            assert_eq!(detail.state, VisionState::InProgress);
            assert_eq!(detail.description, Some(s("a novel")));
            assert_eq!(detail.tension.days_active, 6);
            assert_eq!(
                (
                    detail.tension.tension_score.numerator(),
                    detail.tension.tension_score.denominator()
                ),
                (100, 2)
            );
            assert_eq!(detail.metrics.total_actions, 1);
            assert_eq!(detail.metrics.recent_actions, 1);
            assert_eq!(detail.metrics.pattern, Pattern::Advancing);
            assert_eq!(detail.metrics.velocity.denominator(), 6);
        }
        other => panic!("unexpected report: {:?}", other),
    }
    assert!(MetricsCommands::Detail { vision_id: s(MISSING) }
        .execute_at(&db, &now)
        .is_err());
    match MetricsCommands::Summary.execute_at(&db, &now).unwrap() {
        MetricsReport::Summary(summary) => {
            assert_eq!(summary.total_visions, 3);
            assert_eq!(summary.active_visions, 1);
            assert_eq!(summary.total_actions, 1);
            assert_eq!(summary.total_realities, 1);
            assert_eq!(summary.tensions.len(), 3);
            assert_eq!(summary.top.unwrap().vision_title, "Learn to sail");
        }
        other => panic!("unexpected report: {:?}", other),
    }
    match MetricsCommands::Summary.execute(&mut Database::default()).unwrap() {
        MetricsReport::Summary(summary) => {
            assert_eq!(summary.total_visions, 0);
            assert!(summary.top.is_none());
        }
        other => panic!("unexpected report: {:?}", other),
    }
    assert!(matches!(
        MetricsCommands::Priority.execute(&mut db).unwrap(),
        MetricsReport::Priorities(_)
    ));
}

#[test]
fn prompts_take_turns_by_the_second() {
    let prompts = [
        "What would achieving this vision enable?",
        "What obstacles stand between current reality and vision?",
        "What is the next smallest step toward this vision?",
        "How do you know you're making progress?",
        "What assumptions are you holding about this vision?",
    ];
    for secs in 0..12i64 {
        assert_eq!(prompt_for(&at(secs)), prompts[(secs % 5) as usize]);
    }
    assert_eq!(prompt_for(&at(1_700_000_003)), prompts[3]);
    assert_eq!(prompt_for(&at(-1)), prompts[4]);
    assert_eq!(prompt_for(&at(-5)), prompts[0]);
    match prompt_command().unwrap() {
        Report::Prompt(text) => assert!(prompts.contains(&text.as_str())),
        other => panic!("unexpected report: {:?}", other),
    }
}

#[test]
fn a_command_hands_on_the_report_of_its_group() {
    let mut db = two_visions();
    let report = Commands::Vision(VisionCommands::New { title: s("Third") })
        .execute(&mut db)
        .unwrap();
    assert!(matches!(report, Report::Vision(VisionReport::Created { .. })));
    assert_eq!(db.visions.len(), 3);
    let report = Cli {
        command: Commands::Action(ActionCommands::Log { vision_id: s(A), entry: words(&["x"]) }),
    }
    .run(&mut db)
    .unwrap();
    assert!(matches!(report, Report::Action(ActionReport::Logged)));
    let report = Commands::Reality(RealityCommands::View { vision: None })
        .execute(&mut db)
        .unwrap();
    assert!(matches!(report, Report::Reality(RealityReport::Listing(_))));
    let report = Commands::Pattern(PatternCommands::Check { vision: None })
        .execute(&mut db)
        .unwrap();
    assert!(matches!(report, Report::Pattern(PatternReport::All(_))));
    let report = Commands::State(StateCommands::Show { vision_id: s(A) })
        .execute(&mut db)
        .unwrap();
    assert!(matches!(report, Report::State(StateReport::Current { .. })));
    let report = Commands::Metrics(MetricsCommands::Summary)
        .execute(&mut db)
        .unwrap();
    assert!(matches!(report, Report::Metrics(MetricsReport::Summary(_))));
    assert!(matches!(
        Commands::Prompt.execute(&mut db).unwrap(),
        Report::Prompt(_)
    ));
    let error = Commands::State(StateCommands::Show { vision_id: s("bad") })
        .execute(&mut db)
        .unwrap_err();
    assert_eq!(error.message(), "Parse error: Invalid UUID: bad");
}

#[test]
fn a_report_tells_whether_the_snapshot_changed() {
    let mut db = two_visions();
    let mut run = |command: Commands| {
        let before = (db.visions.len(), db.actions.len(), db.realities.len());
        let states: Vec<VisionState> = db.visions.iter().map(|v| v.state).collect();
        let report = command.execute(&mut db).unwrap();
        let after = (db.visions.len(), db.actions.len(), db.realities.len());
        let moved = states
            .iter()
            .zip(db.visions.iter())
            .any(|(state, vision)| *state != vision.state);
        (report.changes_snapshot(), before != after || moved)
    };
    assert_eq!(
        run(Commands::Vision(VisionCommands::New { title: s("x") })),
        (true, true)
    );
    assert_eq!(
        run(Commands::Vision(VisionCommands::Tree { format: None })),
        (false, false)
    );
    assert_eq!(
        run(Commands::Action(ActionCommands::Log { vision_id: s(A), entry: words(&["x"]) })),
        (true, true)
    );
    assert_eq!(
        run(Commands::Action(ActionCommands::Today { vision_id: s(A) })),
        (false, false)
    );
    assert_eq!(
        run(Commands::Action(ActionCommands::Review { period: s("daily"), vision: None })),
        (false, false)
    );
    assert_eq!(
        run(Commands::Reality(RealityCommands::Update { vision_id: s(A), entry: Vec::new() })),
        (true, true)
    );
    assert_eq!(
        run(Commands::Reality(RealityCommands::Latest { vision: None })),
        (false, false)
    );
    assert_eq!(
        run(Commands::State(StateCommands::Transition { vision_id: s(A), state: s("achieved") })),
        (true, true)
    );
    assert_eq!(
        run(Commands::State(StateCommands::Show { vision_id: s(A) })),
        (false, false)
    );
    assert_eq!(
        run(Commands::Pattern(PatternCommands::Check { vision: None })),
        (false, false)
    );
    assert_eq!(
        run(Commands::Metrics(MetricsCommands::Priority)),
        (false, false)
    );
    assert_eq!(run(Commands::Prompt), (false, false));
    assert!(run(Commands::Vision(VisionCommands::Complete { id: s(B) })).0);
    assert!(run(Commands::Vision(VisionCommands::Describe { id: s(B), text: Vec::new() })).0);
    assert!(run(Commands::Vision(VisionCommands::Link { parent: s(A), child: s(B) })).0);
}

#[test]
fn commands_can_be_given_what_was_read_of_their_texts() {

    let mut db = two_visions();
    assert_eq!(read_id(A), Some(A_ID));
    assert_eq!(read_id("a"), None);
    assert_eq!(read_filter(&None), None);
    assert_eq!(read_filter(&Some(s(B))), Some(B_ID));
    assert_eq!(id_or_complaint(Some(4), "four", "Bad: ").unwrap(), 4);
    assert_eq!(
        parse_message(id_or_complaint(None, "four", "Bad: ").unwrap_err()),
        "Bad: four"
    );
    assert_eq!(filter_or_complaint(&None, Some(3)).unwrap(), None);
    assert_eq!(filter_or_complaint(&Some(s("x")), Some(3)).unwrap(), Some(3));
    assert!(filter_or_complaint(&Some(s("x")), None).is_err());
    assert_eq!(locate_parsed(&db, Some(B_ID), "b").unwrap(), (B_ID, 1));
    assert_eq!(
        not_found_message(locate_parsed(&db, Some(77), "seventy-seven").unwrap_err()),
        "Vision not found: seventy-seven"
    );
    assert_eq!(
        parse_message(locate_parsed(&db, None, "none").unwrap_err()),
        "Invalid UUID: none"
    );

    log_action_with(&mut db, Some(B_ID), s("b"), words(&["go"])).unwrap();
    assert_eq!(db.actions.len(), 1);
    assert!(log_action_with(&mut db, None, s("b"), words(&["go"])).is_err());
    assert!(matches!(
        today_action_with(&db, Some(A_ID), s("the book")).unwrap(),
        ActionReport::Today { .. }
    ));
    match review_actions_with(&db, s("daily"), Some(s("b")), Some(B_ID), &db.actions[0].timestamp)
        .unwrap()
    {
        ActionReport::Review(review) => assert_eq!(review.total, 1),
        other => panic!("unexpected report: {:?}", other),
    }
    update_reality_with(&mut db, Some(A_ID), s("a"), words(&["so", "far"])).unwrap();
    assert_eq!(db.realities[0].entry, "so far");
    match view_reality_with(&db, Some(s("a")), Some(A_ID)).unwrap() {
        RealityReport::Listing(found) => assert_eq!(found.len(), 1),
        other => panic!("unexpected report: {:?}", other),
    }
    match latest_reality_with(&db, Some(s("b")), Some(B_ID)).unwrap() {
        RealityReport::Latest(found) => assert!(found.is_none()),
        other => panic!("unexpected report: {:?}", other),
    }
    assert!(matches!(
        show_state_with(&db, Some(A_ID), s("a")).unwrap(),
        StateReport::Current { .. }
    ));
    transition_state_with(&mut db, Some(A_ID), s("a"), Some(VisionState::Achieved), s("done"))
        .unwrap();
    assert_eq!(db.visions[0].state, VisionState::Achieved);
    let error = transition_state_with(&mut db, Some(A_ID), s("a"), None, s("Limbo")).unwrap_err();
    assert_eq!(parse_message(error), "Unknown state: Limbo");
    let error = transition_state_with(
        &mut db,
        Some(A_ID),
        s("a"),
        Some(VisionState::Blocked),
        s("blocked"),
    )
    .unwrap_err();
    assert_eq!(error.message(), "Invalid state transition: Achieved -> Blocked");
    describe_vision_with(&mut db, Some(B_ID), s("b"), words(&["by", "sea"])).unwrap();
    assert_eq!(db.visions[1].description, Some(s("by sea")));
    link_visions_with(&mut db, Some(A_ID), s("a"), Some(B_ID), s("b")).unwrap();
    assert_eq!(db.visions[0].children, vec![B_ID]);
    assert_eq!(
        parse_message(
            link_visions_with(&mut db, Some(A_ID), s("a"), None, s("b")).unwrap_err()
        ),
        "Invalid child UUID: b"
    );
    complete_vision_with(&mut db, Some(B_ID), s("b")).unwrap();
    assert!(db.visions[1].completed);
    assert!(matches!(
        check_patterns_with(&db, Some(s("b")), Some(B_ID)).unwrap(),
        PatternReport::Single { .. }
    ));
    assert!(matches!(
        check_patterns_with(&db, None, None).unwrap(),
        PatternReport::All(_)
    ));
    assert!(matches!(
        show_detail_with(&db, Some(B_ID), s("b"), &at(0)).unwrap(),
        MetricsReport::Detail(_)
    ));
    assert!(show_detail_with(&db, None, s("b"), &at(0)).is_err());
    assert_eq!(VisionState::asked("BLOCKED"), Some(VisionState::Blocked));
    assert_eq!(VisionState::asked("stuck"), None);
    assert_eq!(
        VisionState::state_or_complaint(None, "Stuck"),
        Err(s("Unknown state: Stuck"))
    );
    assert_eq!(
        VisionState::state_or_complaint(Some(VisionState::Blocked), "x"),
        Ok(VisionState::Blocked)
    );
}
