use tensile::cloud::{CloudConfig, CloudSync};
use tensile::error::TensileError;
use tensile::models::{
    ActionLog, Database, RealityAssessment, Timestamp, User, Vision, VisionState,
};
use tensile::persistence::rows::{
    action_from_row, first_places, link_children, read_instant, reality_from_row, stored_state,
    vision_from_row, ActionRow, RealityRow, VisionRow,
};
use tensile::models::links::{enter_once, without_id};
use tensile::text::{byte_len, fits_or_cuts, join_words, labelled, same_text, truncate};
use tensile::persistence::rows::{
    action_from_parts, read_parent, reality_from_parts, vision_from_parts,
};

fn s(text: &str) -> String {
    text.to_string()
}

#[test]
fn every_error_shows_its_kind_and_detail() {
    let shown = |e: TensileError| e.message();
    assert_eq!(shown(TensileError::Io(s("disk"))), "IO error: disk");
    assert_eq!(shown(TensileError::Database(s("locked"))), "Database error: locked");
    assert_eq!(
        shown(TensileError::Serialization(s("bad ron"))),
        "Serialization error: bad ron"
    );
    assert_eq!(shown(TensileError::Parse(s("x"))), "Parse error: x");
    assert_eq!(shown(TensileError::Validation(s("v"))), "Validation error: v");
    assert_eq!(shown(TensileError::NotFound(s("nf"))), "Not found: nf");
    assert_eq!(shown(TensileError::StateConflict(s("c"))), "State conflict: c");
    assert_eq!(
        shown(TensileError::InvalidStateTransition(s("A"), s("B"))),
        "Invalid state transition: A -> B"
    );
    assert_eq!(shown(TensileError::Unknown(s(""))), "Unknown error: ");
}

#[test]
fn text_is_joined_compared_and_cut() {
    assert_eq!(join_words(&[s("a"), s("b c"), s(""), s("d")].to_vec()), "a b c  d");
    assert_eq!(join_words(&vec![s("alone")]), "alone");
    assert_eq!(join_words(&Vec::new()), "");
    assert_eq!(labelled("key: ", "value"), "key: value");
    assert!(same_text("abc", "abc"));
    assert!(!same_text("abc", "abd"));
    assert!(!same_text("abc", "ABC"));
    assert_eq!(truncate("short", 25), "short");
    assert_eq!(truncate("exactly twenty-five chars", 25), "exactly twenty-five chars");
    assert_eq!(
        truncate("a title of more than twenty-five characters", 25),
        "a title of more than t..."
    );
    assert_eq!(truncate("abcd", 3), "...");
    assert_eq!(truncate("ab", 2), "ab");
    assert_eq!(truncate("", 0), "");
    // Widths are counted in bytes: thirteen letters of two bytes each are
    // more than twenty-five, and the cut after twenty-two leaves eleven.
    assert_eq!(truncate("äääääääääääää", 25), "äääääääääää...");
    assert_eq!(truncate("ääääääääääää", 25), "ääääääääääää");
    assert_eq!(truncate("aäöü", 6), "aä...");
    assert!(fits_or_cuts("äääääääääääää", 25));
    assert!(!fits_or_cuts("äääääääääääää", 24));
    assert!(fits_or_cuts("ab", 2));
    assert!(!fits_or_cuts("abc", 2));
    assert!(fits_or_cuts("abcd", 3));
    assert!(!fits_or_cuts("äöüß", 4));
    assert_eq!(byte_len("äöüß€"), 11);
    assert_eq!(byte_len(""), 0);
}

#[test]
fn children_lists_lose_and_gain_identifiers() {
    assert_eq!(without_id(&vec![1, 2, 1, 3, 1], 1), vec![2, 3]);
    assert_eq!(without_id(&vec![1, 2, 3], 4), vec![1, 2, 3]);
    assert_eq!(without_id(&vec![], 4), Vec::<u128>::new());
    assert_eq!(enter_once(&vec![1, 2, 3], 4), vec![1, 2, 3, 4]);
    assert_eq!(enter_once(&vec![1, 2, 3], 2), vec![1, 2, 3]);
    assert_eq!(enter_once(&vec![2, 1, 2, 3, 2], 2), vec![2, 1, 3]);
    assert_eq!(enter_once(&vec![1, 2, 2], 2), vec![1, 2]);
    assert_eq!(enter_once(&vec![], 2), vec![2]);
}

#[test]
fn new_entries_get_an_identifier_and_the_present_time() {
    let before = chrono::Utc::now();
    let action = ActionLog::new(9, s("did"));
    let assessment = RealityAssessment::new(9, s("is"));
    let vision = Vision::new(s("be"));
    let after = chrono::Utc::now();
    for stamp in [action.timestamp, assessment.timestamp, vision.created_at] {
        let instant = chrono::DateTime::from_timestamp(stamp.secs, stamp.nanos).unwrap();
        assert!(before <= instant && instant <= after);
    }
    assert_ne!(action.id, assessment.id);
    assert_ne!(action.id, vision.id);
    assert_eq!(uuid::Uuid::from_u128(action.id).get_version_num(), 4);
    assert_eq!((action.vision_id, action.entry.as_str(), action.success), (9, "did", true));
    assert_eq!((assessment.vision_id, assessment.entry.as_str()), (9, "is"));
    let copy = action.clone();
    assert_eq!((copy.id, copy.entry, copy.timestamp), (action.id, s("did"), action.timestamp));
    let copy = assessment.clone();
    assert_eq!((copy.id, copy.entry), (assessment.id, s("is")));
    let at = Timestamp { secs: 5, nanos: 6 };
    let recorded = ActionLog::recorded(1, 2, s("e"), at);
    assert_eq!(
        (recorded.id, recorded.vision_id, recorded.timestamp, recorded.success),
        (1, 2, at, true)
    );
    let recorded = RealityAssessment::recorded(1, 2, s("e"), at);
    assert_eq!((recorded.id, recorded.vision_id, recorded.timestamp), (1, 2, at));
    let conceived = Vision::conceived(3, s("t"), at);
    assert_eq!((conceived.id, conceived.created_at), (3, at));
}

#[test]
fn an_empty_snapshot_and_a_new_user_hold_nothing() {
    let db = Database::default();
    assert!(db.visions.is_empty() && db.realities.is_empty() && db.actions.is_empty());
    assert!(db.user.is_none());
    assert_eq!(db.find_vision(1), None);
    assert_eq!(db.action_count(1), 0);
    assert_eq!(db.success_count(1), 0);
    assert_eq!(db.reality_count(1), 0);
    assert_eq!(db.active_vision_count(), 0);
    let user = User::new();
    assert!(user.current_focus.is_none() && user.last_reviewed.is_none());
    let user = User::default();
    assert!(user.current_focus.is_none() && user.last_reviewed.is_none());
}

#[test]
fn the_snapshot_counts_the_entries_of_a_vision() {
    let mut db = Database::default();
    let at = |secs: i64| Timestamp { secs, nanos: 0 };
    db.visions.push(Vision::conceived(1, s("a"), at(0)));
    db.visions.push(Vision::conceived(2, s("b"), at(0)));
    db.visions.push(Vision::conceived(1, s("c"), at(0)));
    for (vision, secs, success) in [(1, 0, true), (2, 10, true), (1, 20, false), (1, 30, true)] {
        let mut action = ActionLog::recorded(0, vision, s("x"), at(secs * 86_400));
        action.success = success;
        db.actions.push(action);
    }
    db.realities.push(RealityAssessment::recorded(0, 2, s("y"), at(0)));
    assert_eq!(db.find_vision(1), Some(0));
    assert_eq!(db.find_vision(2), Some(1));
    assert_eq!(db.find_vision(3), None);
    assert_eq!(db.action_count(1), 3);
    assert_eq!(db.success_count(1), 2);
    assert_eq!(db.action_count(2), 1);
    assert_eq!(db.action_count(3), 0);
    assert_eq!(db.reality_count(2), 1);
    assert_eq!(db.reality_count(1), 0);
    assert_eq!(db.recent_action_count(1, &at(31 * 86_400), 7), 1);
    assert_eq!(db.recent_action_count(1, &at(31 * 86_400), 11), 1);
    assert_eq!(db.recent_action_count(1, &at(31 * 86_400), 12), 2);
    assert_eq!(db.recent_action_count(1, &at(31 * 86_400), 32), 3);
    assert_eq!(db.recent_action_count(2, &at(31 * 86_400), 7), 0);
}

#[test]
fn the_cloud_configuration_needs_a_token_and_a_user() {
    let config =
        CloudConfig::from_settings(None, Some(s("secret")), Some(s("me"))).unwrap();
    assert_eq!(config.api_url, "https://api.tensile.dev");
    assert_eq!(config.api_token, "secret");
    assert_eq!(config.user_id, "me");
    let config = CloudConfig::from_settings(
        Some(s("http://localhost:8080")),
        Some(s("t")),
        Some(s("u")),
    )
    .unwrap();
    assert_eq!(config.api_url, "http://localhost:8080");
    let error = CloudConfig::from_settings(None, None, None).unwrap_err();
    assert_eq!(error.message(), "Validation error: TENSILE_CLOUD_TOKEN not set");
    let error = CloudConfig::from_settings(Some(s("u")), None, Some(s("me"))).unwrap_err();
    assert_eq!(error.message(), "Validation error: TENSILE_CLOUD_TOKEN not set");
    let error = CloudConfig::from_settings(None, Some(s("t")), None).unwrap_err();
    assert_eq!(error.message(), "Validation error: TENSILE_USER_ID not set");
}

#[test]
fn the_cloud_is_asked_at_two_addresses() {
    let sync = CloudSync::new(CloudConfig {
        api_url: s("https://example.org/api"),
        api_token: s("t"),
        user_id: s("u"),
    });
    assert_eq!(sync.push_url(), "https://example.org/api/sync/push");
    assert_eq!(sync.pull_url(), "https://example.org/api/sync/pull");
    assert_eq!(sync.config().api_token, "t");
    assert_eq!(sync.config().user_id, "u");
    assert!(CloudSync::check_status(true, "200 OK").is_ok());
    assert_eq!(
        CloudSync::check_status(false, "503 Service Unavailable")
            .unwrap_err()
            .message(),
        "Unknown error: Cloud sync failed: 503 Service Unavailable"
    );
}

#[test]
fn stored_states_and_instants_are_read_back() {
    assert_eq!(stored_state("Conceived"), VisionState::Conceived);
    assert_eq!(stored_state("InProgress"), VisionState::InProgress);
    assert_eq!(stored_state("Blocked"), VisionState::Blocked);
    assert_eq!(stored_state("Reassessed"), VisionState::Reassessed);
    assert_eq!(stored_state("Achieved"), VisionState::Achieved);
    assert_eq!(stored_state("achieved"), VisionState::Conceived);
    assert_eq!(stored_state(""), VisionState::Conceived);
    assert_eq!(
        read_instant("1970-01-02T00:00:00Z"),
        Some(Timestamp { secs: 86_400, nanos: 0 })
    );
    assert_eq!(
        read_instant("2001-09-09T03:46:40.000000555+02:00"),
        Some(Timestamp { secs: 1_000_000_000, nanos: 555 })
    );
    assert_eq!(
        read_instant("1969-12-31T23:59:59.5Z"),
        Some(Timestamp { secs: -1, nanos: 500_000_000 })
    );
    assert_eq!(read_instant("yesterday"), None);
    assert_eq!(read_instant("1970-01-02"), None);
    let now = chrono::Utc::now();
    assert_eq!(
        read_instant(&now.to_rfc3339()),
        Some(Timestamp { secs: now.timestamp(), nanos: now.timestamp_subsec_nanos() })
    );
}

fn vision_row(id: &str, parent: Option<&str>, created_at: &str, state: &str) -> VisionRow {
    VisionRow {
        id: s(id),
        title: s("title"),
        description: Some(s("words")),
        parent_id: parent.map(s),
        created_at: s(created_at),
        completed: true,
        state: s(state),
    }
}

#[test]
fn rows_are_read_into_entries() {
    let id = "00000000-0000-0000-0000-000000000001";
    let other = "00000000-0000-0000-0000-000000000002";
    let when = "1970-01-01T00:01:40Z";
    let vision = vision_from_row(vision_row(id, Some(other), when, "Blocked")).unwrap();
    assert_eq!(vision.id, 1);
    assert_eq!(vision.title, "title");
    assert_eq!(vision.description, Some(s("words")));
    assert_eq!(vision.parent, Some(2));
    assert!(vision.children.is_empty());
    assert_eq!(vision.created_at, Timestamp { secs: 100, nanos: 0 });
    assert!(vision.completed);
    assert_eq!(vision.state, VisionState::Blocked);
    let vision = vision_from_row(vision_row(id, Some("garbled"), when, "?")).unwrap();
    assert_eq!(vision.parent, None);
    assert_eq!(vision.state, VisionState::Conceived);
    assert_eq!(vision_from_row(vision_row(id, None, when, "?")).unwrap().parent, None);
    assert!(vision_from_row(vision_row("garbled", None, when, "Blocked")).is_none());
    assert!(vision_from_row(vision_row(id, None, "garbled", "Blocked")).is_none());

    let row = |id: &str, vision_id: &str, timestamp: &str| ActionRow {
        id: s(id),
        vision_id: s(vision_id),
        entry: s("e"),
        timestamp: s(timestamp),
        success: false,
    };
    let action = action_from_row(row(id, other, when)).unwrap();
    assert_eq!(
        (action.id, action.vision_id, action.entry.as_str(), action.timestamp.secs, action.success),
        (1, 2, "e", 100, false)
    );
    assert!(action_from_row(row("x", other, when)).is_none());
    assert!(action_from_row(row(id, "x", when)).is_none());
    assert!(action_from_row(row(id, other, "x")).is_none());

    let row = |id: &str, vision_id: &str, timestamp: &str| RealityRow {
        id: s(id),
        vision_id: s(vision_id),
        entry: s("r"),
        timestamp: s(timestamp),
    };
    let assessment = reality_from_row(row(other, id, when)).unwrap();
    assert_eq!(
        (assessment.id, assessment.vision_id, assessment.entry.as_str(), assessment.timestamp.secs),
        (2, 1, "r", 100)
    );
    assert!(reality_from_row(row("x", id, when)).is_none());
    assert!(reality_from_row(row(other, "x", when)).is_none());
    assert!(reality_from_row(row(other, id, "x")).is_none());
}

#[test]
fn children_are_entered_with_their_parents() {
    let at = Timestamp { secs: 0, nanos: 0 };
    let vision = |id: u128, parent: Option<u128>| {
        let mut v = Vision::conceived(id, s("v"), at);
        v.parent = parent;
        v
    };
    let mut visions = vec![
        vision(1, None),
        vision(2, Some(1)),
        vision(3, Some(2)),
        vision(4, Some(1)),
        vision(5, Some(99)),
        vision(1, Some(4)),
        vision(6, Some(6)),
    ];
    link_children(&mut visions);
    let children: Vec<Vec<u128>> = visions.iter().map(|v| v.children.clone()).collect();
    assert_eq!(
        children,
        vec![vec![2, 4], vec![3], vec![], vec![1], vec![], vec![], vec![6]]
    );
    let parents: Vec<Option<u128>> = visions.iter().map(|v| v.parent).collect();
    assert_eq!(
        parents,
        vec![None, Some(1), Some(2), Some(1), Some(99), Some(4), Some(6)]
    );
    let mut none: Vec<Vision> = Vec::new();
    link_children(&mut none);
    assert!(none.is_empty());
    let places = first_places(&visions);
    assert_eq!(places.len(), 6);
    assert_eq!(places.get(&1), Some(&0));
    assert_eq!(places.get(&4), Some(&3));
    assert_eq!(places.get(&6), Some(&6));
    assert_eq!(places.get(&99), None);
}

#[test]
fn entries_are_made_of_their_rows_and_what_was_read_of_them() {
    let when = Timestamp { secs: 9, nanos: 1 };
    let vision =
        vision_from_parts(vision_row("i", Some("p"), "w", "Achieved"), Some(1), Some(2), Some(when))
            .unwrap();
    assert_eq!(
        (vision.id, vision.parent, vision.created_at, vision.state),
        (1, Some(2), when, VisionState::Achieved)
    );
    assert!(vision_from_parts(vision_row("i", None, "w", "x"), None, None, Some(when)).is_none());
    assert!(vision_from_parts(vision_row("i", None, "w", "x"), Some(1), None, None).is_none());
    assert_eq!(read_parent(&None), None);
    assert_eq!(read_parent(&Some(s("nobody"))), None);
    assert_eq!(
        read_parent(&Some(s("00000000-0000-0000-0000-000000000010"))),
        Some(16)
    );
    let row = || ActionRow {
        id: s("i"),
        vision_id: s("v"),
        entry: s("e"),
        timestamp: s("t"),
        success: true,
    };
    let action = action_from_parts(row(), Some(1), Some(2), Some(when)).unwrap();
    assert_eq!(
        (action.id, action.vision_id, action.timestamp, action.success),
        (1, 2, when, true)
    );
    assert!(action_from_parts(row(), None, Some(2), Some(when)).is_none());
    assert!(action_from_parts(row(), Some(1), None, Some(when)).is_none());
    assert!(action_from_parts(row(), Some(1), Some(2), None).is_none());
    let row = || RealityRow { id: s("i"), vision_id: s("v"), entry: s("e"), timestamp: s("t") };
    let assessment = reality_from_parts(row(), Some(1), Some(2), Some(when)).unwrap();
    assert_eq!(
        (assessment.id, assessment.vision_id, assessment.timestamp),
        (1, 2, when)
    );
    assert!(reality_from_parts(row(), None, Some(2), Some(when)).is_none());
}
