use stella_record::datetime::reformat_timestamp;
use stella_record::friendship::{FriendStatus, FriendshipTracker};
use stella_record::import::{DbAction, ImportState, LOG_TIME_FORMAT};
use stella_record::parser::{is_collectible_notification, parse_access_type, parse_location};
use stella_record::patterns::LogPatterns;

#[test]
fn friend_status_values() {
    assert_eq!(FriendStatus::from_log_value("0"), Some(FriendStatus::NonFriend));
    assert_eq!(FriendStatus::from_log_value("1"), Some(FriendStatus::Friend));
    assert_eq!(FriendStatus::from_log_value("2"), None);
    assert_eq!(FriendStatus::Friend.db_value(), 1);
}

#[test]
fn unpack_pairs_with_a_single_download() {
    let mut t = FriendshipTracker::new();
    t.on_player_join("Alice", "usr_a");
    t.on_avatar_switch("Alice", "Cat");
    t.on_avatar_download(Some(FriendStatus::Friend), 10);
    assert_eq!(
        t.on_avatar_unpack("Cat by Someone", 12),
        Some(("usr_a".to_string(), 1))
    );
    // The pending download was consumed.
    assert_eq!(t.on_avatar_unpack("Cat by Someone", 13), None);
}

#[test]
fn two_downloads_are_ambiguous_and_far_unpacks_are_ignored() {
    let mut t = FriendshipTracker::new();
    t.on_player_join("Alice", "usr_a");
    t.on_avatar_switch("Alice", "Cat");
    t.on_avatar_download(Some(FriendStatus::Friend), 10);
    t.on_avatar_download(Some(FriendStatus::Friend), 11);
    assert_eq!(t.on_avatar_unpack("Cat by X", 12), None);
    t.on_avatar_download(Some(FriendStatus::Friend), 20);
    assert_eq!(t.on_avatar_unpack("Cat by X", 24), None);
}

#[test]
fn conflicting_evidence_becomes_undetermined() {
    let mut t = FriendshipTracker::new();
    t.on_player_join("Alice", "usr_a");
    t.on_avatar_switch("Alice", "Cat");
    t.on_avatar_download(Some(FriendStatus::Friend), 1);
    assert_eq!(t.on_avatar_unpack("Cat by X", 2), Some(("usr_a".to_string(), 1)));
    t.on_avatar_download(Some(FriendStatus::NonFriend), 3);
    assert_eq!(t.on_avatar_unpack("Cat by X", 4), Some(("usr_a".to_string(), 2)));
    t.on_avatar_download(Some(FriendStatus::Friend), 5);
    assert_eq!(t.on_avatar_unpack("Cat by X", 6), Some(("usr_a".to_string(), 2)));
}

#[test]
fn departure_and_reset_forget_avatars() {
    let mut t = FriendshipTracker::new();
    t.on_player_join("Alice", "usr_a");
    t.on_avatar_switch("Alice", "Cat");
    t.on_player_left("Alice", "usr_a");
    t.on_avatar_download(Some(FriendStatus::Friend), 1);
    assert_eq!(t.on_avatar_unpack("Cat by X", 2), None);
    t.on_player_join("Bob", "usr_b");
    t.on_avatar_switch("Bob", "Dog");
    t.reset_visit();
    t.on_avatar_download(Some(FriendStatus::Friend), 3);
    assert_eq!(t.on_avatar_unpack("Dog by X", 4), None);
}

#[test]
fn locations_and_access_types() {
    let p = LogPatterns::new().unwrap();
    let loc = parse_location(&p, "wrld_abc:12345~private(usr_x)~region(jp)");
    assert_eq!(loc.instance_id, Some("12345".to_string()));
    assert_eq!(loc.access_type, Some("private".to_string()));
    assert_eq!(loc.instance_owner, Some("usr_x".to_string()));
    assert_eq!(loc.region, Some("jp".to_string()));
    let none = parse_location(&p, "not a world");
    assert_eq!(none.instance_id, None);
    assert_eq!(
        parse_access_type(&p, "Friends+(usr_y)"),
        (Some("friends".to_string()), Some("usr_y".to_string()))
    );
    assert_eq!(parse_access_type(&p, "unknown"), (None, None));
    assert!(is_collectible_notification(" invite "));
    assert!(!is_collectible_notification("votetokick"));
}

#[test]
fn timestamps_are_rewritten_for_the_database() {
    assert_eq!(
        reformat_timestamp("2025.01.02 03:04:05", LOG_TIME_FORMAT),
        Some("2025-01-02 03:04:05".to_string())
    );
    assert_eq!(reformat_timestamp("2025.13.02 03:04:05", LOG_TIME_FORMAT), None);
}

#[test]
fn import_state_records_a_visit() {
    let p = LogPatterns::new().unwrap();
    let mut s = ImportState::new("output_log_a.txt");
    let a = s.process_line(&p, "2025.01.02 03:04:05 Log        -  User Authenticated: Me (usr_0123)");
    assert!(a.actions.is_empty());
    let b = s.process_line(&p, "2025.01.02 03:04:06 Log        -  [Behaviour] Entering Room: Home");
    assert!(b.actions.is_empty());
    let c = s.process_line(
        &p,
        "2025.01.02 03:04:07 Log        -  [Behaviour] Joining wrld_1:42~public~region(us)",
    );
    assert_eq!(c.actions.len(), 1);
    match &c.actions[0] {
        DbAction::InsertVisit {
            world_name,
            instance_id,
            instance_type,
            region,
            join_time,
        } => {
            assert_eq!(world_name, "Home");
            assert_eq!(instance_id, "42");
            assert_eq!(instance_type.as_deref(), Some("public"));
            assert_eq!(region.as_deref(), Some("us"));
            assert_eq!(join_time, "2025-01-02 03:04:07");
        }
        _ => panic!("a join inserts a visit"),
    }
    s.visit_inserted(7);
    assert_eq!(s.current_visit_id(), Some(7));
    let d = s.process_line(&p, "2025.01.02 03:05:00 Log        -  [Behaviour] OnLeftRoom");
    match &d.actions[0] {
        DbAction::CloseVisit {
            visit_id,
            leave_time,
        } => {
            assert_eq!(*visit_id, 7);
            assert_eq!(leave_time, "2025-01-02 03:05:00");
        }
        _ => panic!("leaving closes the visit"),
    }
    let end = s.finish();
    match end.last().unwrap() {
        DbAction::UpdateSession {
            log_name,
            start_time,
            end_time,
            account_id,
            account_name,
        } => {
            assert_eq!(log_name, "output_log_a.txt");
            assert_eq!(start_time, "2025-01-02 03:04:05");
            assert_eq!(end_time.as_deref(), Some("2025-01-02 03:05:00"));
            assert_eq!(account_id.as_deref(), Some("usr_0123"));
            assert_eq!(account_name.as_deref(), Some("Me"));
        }
        _ => panic!("the session is written last"),
    }
}

#[test]
fn progress_is_reported_every_five_thousand_lines() {
    let p = LogPatterns::new().unwrap();
    let mut s = ImportState::new("output_log_b.txt");
    let mut reports = Vec::new();
    for i in 1..=10_001 {
        let out = s.process_line(&p, "plain line");
        if let Some(r) = out.progress {
            reports.push((i, r));
        }
    }
    assert_eq!(
        reports,
        vec![
            (5000, "パース中... 5000 行".to_string()),
            (10000, "パース中... 10000 行".to_string())
        ]
    );
}

#[test]
fn entering_a_room_closes_the_visit_in_progress() {
    let p = LogPatterns::new().unwrap();
    let mut s = ImportState::new("output_log_c.txt");
    s.process_line(&p, "2025.01.02 03:04:06 Log        -  [Behaviour] Entering Room: A");
    s.process_line(&p, "2025.01.02 03:04:07 Log        -  [Behaviour] Joining wrld_1:1~friends(usr_0a)");
    s.visit_inserted(3);
    let out = s.process_line(&p, "2025.01.02 04:00:00 Log        -  [Behaviour] Entering Room: B");
    match &out.actions[..] {
        [DbAction::CloseVisit { visit_id, leave_time }] => {
            assert_eq!(*visit_id, 3);
            assert_eq!(leave_time, "2025-01-02 04:00:00");
        }
        _ => panic!("entering closes the visit"),
    }
    assert_eq!(s.current_visit_id(), None);
    let again = s.process_line(&p, "2025.01.02 04:00:01 Log        -  [Behaviour] Joining wrld_2:9~hidden(usr_0b)~region(eu)");
    match &again.actions[..] {
        [DbAction::InsertVisit { world_name, instance_type, region, .. }] => {
            assert_eq!(world_name, "B");
            assert_eq!(instance_type.as_deref(), Some("hidden"));
            assert_eq!(region.as_deref(), Some("eu"));
        }
        _ => panic!("the second join inserts a visit"),
    }
    let bad = s.process_line(&p, "2025.13.40 99:00:00 Log        -  text");
    assert_eq!(
        bad.warning,
        Some("timestamp parse skipped [output_log_c.txt]: 2025.13.40 99:00:00".to_string())
    );
}
