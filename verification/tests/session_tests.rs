use tivana::proxy::{ProxyConfig, ProxyPool, ProxyProtocol};
use tivana::session::{Session, SessionConfig, SessionRegistry, SessionState};
use tivana::error::{ErrorCode, TivanaError};

type Registry = SessionRegistry<&'static str, u32, u8>;

fn http(server: &str) -> ProxyConfig {
    ProxyConfig { server: server.to_string(), protocol: ProxyProtocol::Http, username: None, password: None }
}

#[test]
fn test_session_lifecycle() {
    let mut registry: Registry = SessionRegistry::new();

    // Create session
    let id = registry.create(SessionConfig::default(), 0);
    assert!(registry.session_exists(&id));

    // Check initial state
    let info = registry.get(&id, 0).unwrap();
    assert_eq!(info.state, SessionState::Created);

    // Start launch
    registry.start_launch(&id).unwrap();
    let info = registry.get(&id, 0).unwrap();
    assert_eq!(info.state, SessionState::Launching);

    // Close session
    let result = registry.close(&id, 0);
    assert!(result.is_ok());
    assert!(!registry.session_exists(&id));
}

#[test]
fn test_list_sessions() {
    let mut registry: Registry = SessionRegistry::new();

    registry.create(SessionConfig::default(), 0);
    registry.create(SessionConfig::default(), 0);

    let sessions = registry.list(0);
    assert_eq!(sessions.len(), 2);
}

#[test]
fn test_close_nonexistent() {
    let mut registry: Registry = SessionRegistry::new();
    let result = registry.close("nonexistent", 0);
    assert!(result.is_err());
}

#[test]
fn created_ids_are_v4_uuids_and_distinct() {
    let mut registry: Registry = SessionRegistry::new();
    let a = registry.create(SessionConfig::default(), 0);
    let b = registry.create(SessionConfig::default(), 0);
    assert_ne!(a, b);
    assert_eq!(a.len(), 36);
    let chars: Vec<char> = a.chars().collect();
    assert_eq!(chars[8], '-');
    assert_eq!(chars[13], '-');
    assert_eq!(chars[14], '4');
    assert!(matches!(chars[19], '8' | '9' | 'a' | 'b'));
}

#[test]
fn full_lifecycle_and_state_errors() {
    let mut registry: Registry = SessionRegistry::new();
    let id = registry.create_with_id("s1".to_string(), SessionConfig::default(), 1000);
    assert_eq!(id, "s1");
    match registry.complete_launch("s1", "browser") {
        Err(TivanaError::Session(m)) => assert_eq!(m, "Cannot complete launch in state Created"),
        _ => panic!("expected a state error"),
    }
    registry.start_launch("s1").unwrap();
    match registry.start_launch("s1") {
        Err(TivanaError::Session(m)) => assert_eq!(m, "Cannot launch session in state Launching"),
        _ => panic!("expected a state error"),
    }
    match registry.active_browser("s1") {
        Err(TivanaError::Session(m)) => assert_eq!(m, "Session s1 is not active (state: Launching)"),
        _ => panic!("expected not active"),
    }
    registry.complete_launch("s1", "browser").unwrap();
    assert_eq!(registry.active_count(), 1);
    assert_eq!(*registry.active_browser("s1").unwrap(), "browser");
    let info = registry.get("s1", 5500).unwrap();
    assert_eq!(info.state, SessionState::Active);
    assert_eq!(info.age_secs, 4);
    let (closed, handle) = registry.close("s1", 2000).unwrap();
    assert_eq!(closed.state, SessionState::Closed);
    assert_eq!(closed.id, "s1");
    assert!(handle.is_none());
    assert_eq!(registry.active_count(), 0);
    let err = registry.close("s1", 0).unwrap_err();
    assert_eq!(err.code, ErrorCode::SessionNotFound);
    assert_eq!(err.message, "Session not found: s1");
}

#[test]
fn unknown_session_errors() {
    let mut registry: Registry = SessionRegistry::new();
    match registry.start_launch("nope") {
        Err(TivanaError::Session(m)) => assert_eq!(m, "Session not found: nope"),
        _ => panic!("expected not found"),
    }
    assert!(registry.get("nope", 0).is_none());
    assert!(registry.active_browser("nope").is_err());
    assert!(registry.rotate_proxy("nope").is_err());
}

#[test]
fn create_with_existing_id_replaces_session() {
    let mut registry: Registry = SessionRegistry::new();
    registry.create_with_id("x".to_string(), SessionConfig::default(), 0);
    registry.start_launch("x").unwrap();
    registry.create_with_id("x".to_string(), SessionConfig::default(), 0);
    assert_eq!(registry.list(0).len(), 1);
    assert_eq!(registry.get("x", 0).unwrap().state, SessionState::Created);
}

#[test]
fn observer_handles_are_returned_for_stopping() {
    let mut registry: Registry = SessionRegistry::new();
    registry.create_with_id("m".to_string(), SessionConfig::default(), 0);
    assert_eq!(registry.is_mutation_observer_running("m").unwrap(), false);
    registry.start_mutation_observer("m", 7u8, 42u32).unwrap();
    assert_eq!(registry.is_mutation_observer_running("m").unwrap(), true);
    assert_eq!(registry.take_mutation_rx("m").unwrap(), Some(7u8));
    assert_eq!(registry.take_mutation_rx("m").unwrap(), None);
    registry.restore_mutation_rx("m", 8u8).unwrap();
    assert_eq!(registry.stop_mutation_observer("m").unwrap(), Some(42u32));
    assert_eq!(registry.is_mutation_observer_running("m").unwrap(), false);
    registry.start_mutation_observer("m", 1u8, 9u32).unwrap();
    let handles = registry.close_all();
    assert_eq!(handles, vec![9u32]);
    assert_eq!(registry.list(0).len(), 0);
}

#[test]
fn proxy_pool_on_a_session() {
    let mut registry: Registry = SessionRegistry::new();
    registry.create_with_id("p".to_string(), SessionConfig::default(), 0);
    match registry.rotate_proxy("p") {
        Err(TivanaError::Session(m)) => assert_eq!(m, "No proxy pool configured for this session"),
        _ => panic!("expected no pool"),
    }
    let current = registry.install_proxy_pool("p", ProxyPool::from_list(vec![http("a:1"), http("b:2")])).unwrap();
    assert_eq!(current.unwrap().server, "a:1");
    assert_eq!(registry.current_proxy("p").unwrap().unwrap().server, "a:1");
    assert_eq!(registry.rotate_proxy("p").unwrap().server, "b:2");
    assert_eq!(registry.current_proxy("p").unwrap().unwrap().server, "b:2");
    assert_eq!(registry.rotate_proxy("p").unwrap().server, "a:1");
    registry.set_proxy("p", http("c:3")).unwrap();
    assert_eq!(registry.current_proxy("p").unwrap().unwrap().server, "c:3");
    registry.install_proxy_pool("p", ProxyPool::from_list(vec![])).unwrap();
    match registry.rotate_proxy("p") {
        Err(TivanaError::Session(m)) => assert_eq!(m, "Proxy pool is empty"),
        _ => panic!("expected empty pool"),
    }
    assert_eq!(registry.current_proxy("p").unwrap().unwrap().server, "c:3");
}

#[test]
fn session_state_names() {
    assert_eq!(SessionState::Created.name(), "Created");
    assert_eq!(SessionState::Active.wire_name(), "active");
    assert_eq!(SessionState::Closed.wire_name(), "closed");
    let mut s: Session<u8, u8, u8> = Session::new("id".to_string(), SessionConfig::default(), 0);
    assert!(!s.is_active());
    s.start_launch().unwrap();
    s.complete_launch(1).unwrap();
    assert!(s.is_active());
    assert_eq!(s.close(), None);
    assert_eq!(s.state, SessionState::Closed);
    assert!(s.browser.is_none());
}
