use tivana::persistence::{
    clear_all, get_active_persisted_sessions, mark_session_stale, persist_session_close,
    persist_session_create, stamp_state, PersistedState, Timestamp, RUNTIME_VERSION,
};

fn at(secs: i64) -> Timestamp {
    Timestamp { secs, nanos: 0 }
}

fn state() -> PersistedState {
    PersistedState::new("0.0.9".to_string(), at(1))
}

#[test]
fn create_records_a_live_session_once() {
    let mut s = state();
    persist_session_create(&mut s, "s1", true, vec!["t1".to_string()], vec!["https://a".to_string()], at(10));
    persist_session_create(&mut s, "s2", false, vec![], vec![], at(11));
    persist_session_create(&mut s, "s1", false, vec!["t9".to_string()], vec![], at(12));
    assert_eq!(s.sessions.len(), 2);
    assert_eq!(s.sessions[0].session_id, "s2");
    assert_eq!(s.sessions[1].session_id, "s1");
    assert_eq!(s.sessions[1].target_ids, vec!["t9".to_string()]);
    assert!(!s.sessions[1].headless);
    assert_eq!(s.sessions[1].created_at, at(12));
    assert_eq!(s.version, RUNTIME_VERSION);
    assert_eq!(s.updated_at, at(12));
    let live = get_active_persisted_sessions(s);
    assert_eq!(live.len(), 2);
}

#[test]
fn close_and_stale_remove_sessions_from_the_live_set() {
    let mut s = state();
    persist_session_create(&mut s, "a", true, vec![], vec![], at(1));
    persist_session_create(&mut s, "b", true, vec![], vec![], at(2));
    persist_session_create(&mut s, "c", true, vec![], vec![], at(3));
    persist_session_close(&mut s, "b", at(4));
    persist_session_close(&mut s, "b", at(5));
    assert_eq!(s.sessions.len(), 2);
    assert_eq!(s.updated_at, at(5));
    mark_session_stale(&mut s, "c", at(6));
    mark_session_stale(&mut s, "zzz", at(7));
    assert_eq!(s.updated_at, at(7));
    assert_eq!(s.version, RUNTIME_VERSION);
    assert!(s.sessions[1].stale);
    assert!(!s.sessions[0].stale);
    let live = get_active_persisted_sessions(s);
    assert_eq!(live.len(), 1);
    assert_eq!(live[0].session_id, "a");
}

#[test]
fn clear_all_empties_the_records() {
    let mut s = state();
    persist_session_create(&mut s, "a", true, vec![], vec![], at(1));
    clear_all(&mut s, at(9));
    assert!(s.sessions.is_empty());
    assert_eq!(s.updated_at, at(9));
    assert_eq!(s.version, "0.1.0");
    assert!(get_active_persisted_sessions(s).is_empty());
}

#[test]
fn closing_a_session_stamps_the_runtime_version() {
    let mut s = state();
    persist_session_create(&mut s, "a", true, vec![], vec![], at(2));
    s.version = "0.0.1".to_string();
    persist_session_close(&mut s, "a", at(3));
    assert!(s.sessions.is_empty());
    assert_eq!(s.version, "0.1.0");
    assert_eq!(s.updated_at, at(3));
}

#[test]
fn default_state_is_empty_and_stamped() {
    let s = PersistedState::fresh(at(40));
    assert!(s.sessions.is_empty());
    assert_eq!(s.version, RUNTIME_VERSION);
    assert_eq!(s.updated_at, at(40));
    let mut t = PersistedState::new("old".to_string(), at(1));
    stamp_state(&mut t, at(41));
    assert_eq!(t.version, "0.1.0");
    assert_eq!(t.updated_at, at(41));
}
