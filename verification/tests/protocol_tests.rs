use tivana::error::{ErrorCode, ProtocolError};
use tivana::json::JsonValue;
use tivana::network::{escape_quotes, requests_script};
use tivana::protocol::{EventMessage, MessageType, ResponseMessage, PROTOCOL_VERSION};

fn is_uuid_v4(s: &str) -> bool {
    let b: Vec<char> = s.chars().collect();
    b.len() == 36
        && b.iter().enumerate().all(|(i, c)| {
            if i == 8 || i == 13 || i == 18 || i == 23 {
                *c == '-'
            } else {
                c.is_ascii_digit() || ('a'..='f').contains(c)
            }
        })
        && b[14] == '4'
        && "89ab".contains(b[19])
}

#[test]
fn response_success_envelope() {
    let r = ResponseMessage::success("req-1", JsonValue::Bool(true));
    assert_eq!(r.id, "req-1");
    assert_eq!(r.message_type, MessageType::Response);
    assert!(r.error.is_none());
    assert!(matches!(r.result, Some(JsonValue::Bool(true))));
    assert_eq!(r.version, PROTOCOL_VERSION);
}

#[test]
fn response_error_envelope() {
    let r = ResponseMessage::error("req-2", ProtocolError::session_not_found("s1"));
    assert_eq!(r.id, "req-2");
    assert!(r.result.is_none());
    let e = r.error.expect("error present");
    assert_eq!(e.code, ErrorCode::SessionNotFound);
    assert_eq!(r.version, "1.0");
}

#[test]
fn event_ids_are_fresh_uuids() {
    let a = EventMessage::new("browser.pageLoaded", JsonValue::Null);
    let b = EventMessage::for_session("sess-9", "session.stateChanged", JsonValue::Null);
    assert!(is_uuid_v4(&a.id));
    assert!(is_uuid_v4(&b.id));
    assert_ne!(a.id, b.id);
    assert_eq!(a.message_type, MessageType::Event);
    assert!(a.session_id.is_none());
    assert_eq!(b.session_id.as_deref(), Some("sess-9"));
    assert_eq!(b.event, "session.stateChanged");
}

#[test]
fn network_script_escapes_pattern() {
    assert_eq!(escape_quotes("a\"b"), "a\\\"b");
    assert_eq!(requests_script(None), "(window.__tivana_network_log || [])");
    assert_eq!(
        requests_script(Some("api\"x")),
        "(window.__tivana_network_log || []).filter(r => r.url.includes(\"api\\\"x\"))"
    );
}
