use nanobot::session::{seconds_between, Session, SessionContext, SessionManager, SessionState};
use nanobot::session::{SessionMetadata, SessionStats};

#[test]
fn test_session_creation() {
    let session = Session::new("telegram", "123456");
    assert_eq!(session.metadata.channel, "telegram");
    assert_eq!(session.metadata.channel_id, "123456");
    assert_eq!(session.state, SessionState::Active);
}

#[test]
fn test_session_stats() {
    let mut session = Session::new("test", "1");

    session.record_message(true);
    session.record_message(false);
    session.record_tool_call();
    session.record_tokens(100);

    assert_eq!(session.stats.message_count, 2);
    assert_eq!(session.stats.user_message_count, 1);
    assert_eq!(session.stats.assistant_message_count, 1);
    assert_eq!(session.stats.tool_call_count, 1);
    assert_eq!(session.stats.total_tokens, 100);
}

#[test]
fn test_session_manager() {
    let mut manager = SessionManager::new();
    let session_id = manager.create_session("telegram", "123").unwrap();
    let retrieved = manager.get_session(&session_id);
    assert!(retrieved.is_some());
    manager.end_session(&session_id, "测试结束");
    assert_eq!(manager.get_session(&session_id).unwrap().state, SessionState::Ended);
}

#[test]
fn test_session_module() {
    let mut manager = SessionManager::new();
    let session_id = manager.create_session("telegram", "123456").unwrap();
    {
        let s = manager.get_session(&session_id).unwrap();
        assert_eq!(s.metadata.channel, "telegram");
        assert_eq!(s.metadata.channel_id, "123456");
        assert_eq!(s.state, SessionState::Active);
    }
    assert!(manager.get_session(&session_id).is_some());
    assert!(!manager.end_session(&session_id, "测试结束"));
    assert_eq!(manager.get_session(&session_id).unwrap().state, SessionState::Ended);
}

#[test]
fn session_life() {
    let mut s = Session::new_at("id".to_string(), 1_000, "discord", "9").with_user_id("u");
    assert_eq!(s.id, "id");
    assert_eq!(s.metadata.user_id.as_deref(), Some("u"));
    assert_eq!((s.created_at, s.last_activity, s.ended_at), (1_000, 1_000, None));
    assert_eq!(s.stats, SessionStats::default());
    s.touch_at(2_500);
    assert_eq!(s.last_activity, 2_500);
    assert!(!s.is_idle_at(3, 5_500));
    assert!(!s.is_idle_at(3, 6_499));
    assert!(s.is_idle_at(3, 6_500));
    assert!(!s.is_idle_at(0, 2_000));
    assert!(!s.is_idle_at(u64::MAX, i64::MAX));
    assert_eq!(s.duration_secs_at(4_999), 3);
    assert_eq!(s.duration_secs_at(0), -1);
    s.pause();
    assert_eq!(s.state, SessionState::Paused);
    s.resume_at(3_000);
    assert_eq!((s.state, s.last_activity), (SessionState::Active, 3_000));
    s.end_at(61_000);
    assert_eq!((s.state, s.ended_at), (SessionState::Ended, Some(61_000)));
    assert_eq!(s.duration_secs_at(999_999), 60);
    assert_eq!(s.duration_secs(), 60);
    assert_eq!(seconds_between(0, -1_999), -1);
    assert_eq!(seconds_between(i64::MIN, i64::MAX), 18_446_744_073_709_551);
    for (state, name) in [
        (SessionState::Active, "active"),
        (SessionState::Idle, "idle"),
        (SessionState::Paused, "paused"),
        (SessionState::Ended, "ended"),
    ] {
        assert_eq!(state.as_str(), name);
    }
    let mut live = Session::new("c", "1");
    assert!(!live.is_idle(3600));
    live.touch();
    live.resume();
    live.end("done");
    assert!(live.ended_at.is_some());
}

#[test]
fn properties_and_context_are_kept_by_name() {
    let s = Session::new("c", "1")
        .with_property("lang", "de")
        .with_property("tz", "UTC")
        .with_property("lang", "fr");
    assert_eq!(s.metadata.properties.len(), 2);
    assert_eq!(s.metadata.property("lang"), Some("fr"));
    assert_eq!(s.metadata.property("tz"), Some("UTC"));
    assert_eq!(s.metadata.property("none"), None);
    let fresh = SessionMetadata::default();
    assert_eq!(fresh.channel, "unknown");
    assert!(!fresh.channel_id.is_empty());

    let mut ctx = SessionContext::default();
    let one = serde_json::Value::from(1);
    let two = serde_json::Value::from("two");
    ctx.set("a", one.clone());
    ctx.set("b", two.clone());
    ctx.set("a", two.clone());
    assert_eq!(ctx.get("a"), Some(two.clone()));
    assert_eq!(ctx.get("b"), Some(two.clone()));
    assert_eq!(ctx.get("c"), None);
    assert_eq!(ctx.remove("a"), Some(two.clone()));
    assert_eq!(ctx.remove("a"), None);
    assert_eq!(ctx.get("b"), Some(two));
    ctx.clear();
    assert_eq!(ctx.get("b"), None);
    ctx.set("x", one.clone());
    assert_eq!(ctx.get("x"), Some(one));
}

#[test]
fn manager_finds_ends_and_counts() {
    let mut m = SessionManager::with_db().with_idle_timeout(10);
    assert!(m.insert(Session::new_at("a".to_string(), 0, "telegram", "1")));
    assert!(m.insert(Session::new_at("b".to_string(), 5_000, "discord", "1")));
    assert!(m.insert(Session::new_at("c".to_string(), 9_000, "telegram", "1")));
    assert!(!m.insert(Session::new_at("a".to_string(), 0, "x", "y")));
    assert_eq!(m.len(), 3);
    assert_eq!(m.find_by_channel("telegram", "1"), vec![0, 2]);
    assert!(m.find_by_channel("telegram", "2").is_empty());
    assert_eq!(m.list_active_sessions(), vec![0, 1, 2]);
    assert!(m.end_session_at("b", 6_000));
    assert!(!m.end_session_at("nobody", 6_000));
    assert_eq!(m.session_at(1).ended_at, Some(6_000));
    assert_eq!(m.list_active_sessions(), vec![0, 2]);
    // At 19 s the first session has been idle for 19 s, the third for 10 s.
    assert_eq!(m.cleanup_idle_sessions_at(19_000), vec![0]);
    assert_eq!(m.session_at(0).state, SessionState::Ended);
    assert_eq!(m.session_at(2).state, SessionState::Active);
    assert_eq!(m.cleanup_idle_sessions_at(20_000), vec![2]);
    assert!(m.cleanup_idle_sessions_at(99_000).is_empty());
    assert_eq!(m.cleanup_idle_sessions(), 0);
    assert!(m.get_session("zzz").is_none());
    assert_eq!(SessionManager::default().len(), 0);
}

#[test]
fn created_sessions_get_ids_of_their_own() {
    let mut m = SessionManager::new();
    let first = m.create_session("telegram", "1").expect("nothing is in the way");
    let second = m.create_session("telegram", "1").expect("a fresh id is not in use");
    assert_ne!(first, second);
    assert_eq!(first.len(), 36);
    assert_eq!(second.len(), 36);
    assert_eq!(m.len(), 2);
    let s = m.get_session(&second).unwrap();
    assert_eq!(s.created_at, s.last_activity);
    assert_eq!(s.ended_at, None);
    assert_eq!(s.metadata.user_id, None);
    // Nothing is idle yet, so a cleanup now ends nothing.
    assert_eq!(m.cleanup_idle_sessions(), 0);
    assert_eq!(m.list_active_sessions(), vec![0, 1]);
    let mut impatient = SessionManager::new();
    impatient.insert(Session::new_at("old".to_string(), 0, "c", "1"));
    impatient.insert(Session::new_at("older".to_string(), 1, "c", "2"));
    assert_eq!(impatient.cleanup_idle_sessions(), 2);
    assert_eq!(impatient.session_at(0).state, SessionState::Ended);
    assert_eq!(impatient.cleanup_idle_sessions(), 0);
}

#[test]
fn global_stats_add_up_and_stop_at_the_largest_count() {
    let mut m = SessionManager::new();
    let mut a = Session::new_at("a".to_string(), 0, "c", "1");
    a.stats = SessionStats {
        message_count: 3,
        user_message_count: 2,
        assistant_message_count: 1,
        tool_call_count: 4,
        total_tokens: u64::MAX - 1,
    };
    let mut b = Session::new_at("b".to_string(), 0, "c", "2");
    b.stats = SessionStats {
        message_count: 10,
        user_message_count: 5,
        assistant_message_count: 5,
        tool_call_count: 0,
        total_tokens: 7,
    };
    m.insert(a);
    m.insert(b);
    let (count, total) = m.get_global_stats();
    assert_eq!(count, 2);
    assert_eq!(
        total,
        SessionStats {
            message_count: 13,
            user_message_count: 7,
            assistant_message_count: 6,
            tool_call_count: 4,
            total_tokens: u64::MAX,
        }
    );
    assert_eq!(SessionManager::new().get_global_stats(), (0, SessionStats::default()));
}
