use tivana::extension::{extension_event, ExtensionEvent};
use tivana::extension::{
    cdp_message, cdp_outcome, cdp_response_id, evaluate_params, evaluated_value, is_extension_json, is_extension_message,
    key_events_for, tab_from_params, CdpResponse, EvaluatedValue, ExtensionManager,
};
use tivana::json::{JsonNumber, JsonValue};

fn s(x: &str) -> JsonValue {
    JsonValue::Str(x.to_string())
}

fn obj(entries: Vec<(&str, JsonValue)>) -> JsonValue {
    JsonValue::Object(entries.into_iter().map(|(k, v)| (k.to_string(), v)).collect())
}

fn num(n: i64) -> JsonValue {
    JsonValue::Number(JsonNumber {
        as_u64: if n >= 0 { Some(n as u64) } else { None },
        as_i64: Some(n),
        float_text: n.to_string(),
        float_bits: Some((n as f64).to_bits()),
    })
}

type Bridge = ExtensionManager<u8, &'static str>;

#[test]
fn extension_messages_are_recognised() {
    assert!(is_extension_json(Some(&obj(vec![("method", s("tab.attached"))]))));
    assert!(is_extension_json(Some(&obj(vec![("method", s("pong"))]))));
    assert!(!is_extension_json(Some(&obj(vec![("method", s("tab.attached")), ("type", s("request"))]))));
    assert!(!is_extension_json(Some(&obj(vec![("method", s("session.create"))]))));
    assert!(is_extension_json(Some(&obj(vec![("id", s("4")), ("result", JsonValue::Null)]))));
    assert!(is_extension_json(Some(&obj(vec![("id", num(4)), ("error", s("x"))]))));
    assert!(!is_extension_json(Some(&obj(vec![("id", num(4))]))));
    assert!(!is_extension_json(None));
}

#[test]
fn extension_frames_are_recognised_from_their_text() {
    assert!(is_extension_message(r#"{"method":"tab.attached","params":{"tabId":1}}"#));
    assert!(is_extension_message(r#"{"method":"extension.hello"}"#));
    assert!(is_extension_message(r#"{"id":"7","result":{"ok":true}}"#));
    assert!(!is_extension_message(r#"{"id":"1","type":"request","method":"session.create","params":{}}"#));
    assert!(!is_extension_message(r#"{"method":"session.create"}"#));
    assert!(!is_extension_message("not json"));
    assert!(!is_extension_message(""));
}

#[test]
fn tabs_attach_navigate_detach() {
    let mut bridge: Bridge = ExtensionManager::new();
    bridge.handle_tab_attached(&obj(vec![("tabId", num(7)), ("sessionId", s("x1")), ("url", s("https://a"))]));
    let tab = bridge.get_tab("x1").unwrap();
    assert_eq!(tab.tab_id, 7);
    assert_eq!(tab.url, "https://a");
    assert_eq!(tab.title, "");
    bridge.handle_tab_navigated(&obj(vec![("sessionId", s("x1")), ("url", s("https://b")), ("title", s("B"))]));
    let tab = bridge.get_tab("x1").unwrap();
    assert_eq!(tab.url, "https://b");
    assert_eq!(tab.title, "B");
    assert_eq!(tab.tab_id, 7);
    bridge.handle_tab_attached(&obj(vec![("tabId", num(8)), ("sessionId", s("x1"))]));
    assert_eq!(bridge.list_tabs().len(), 1);
    assert_eq!(bridge.get_tab("x1").unwrap().tab_id, 8);
    bridge.handle_tab_detached(&obj(vec![("sessionId", s("x1")), ("reason", s("closed"))]));
    assert!(bridge.get_tab("x1").is_none());
    assert!(bridge.list_tabs().is_empty());
    let defaults = tab_from_params(&JsonValue::Null);
    assert_eq!(defaults.tab_id, 0);
    assert_eq!(defaults.session_id, "");
}

#[test]
fn session_mappings() {
    let mut bridge: Bridge = ExtensionManager::new();
    assert!(!bridge.is_extension_session("t1"));
    bridge.register_session_mapping("t1", "ext-1");
    assert!(bridge.is_extension_session("t1"));
    assert_eq!(bridge.get_extension_session_id("t1"), Some("ext-1".to_string()));
    bridge.register_session_mapping("t1", "ext-2");
    assert_eq!(bridge.get_extension_session_id("t1"), Some("ext-2".to_string()));
    assert_eq!(bridge.get_extension_session_id("t2"), None);
}

#[test]
fn closing_an_extension_session_removes_only_its_mapping() {
    let mut bridge: Bridge = ExtensionManager::new();
    bridge.register_session_mapping("t1", "ext-1");
    bridge.register_session_mapping("t2", "ext-2");
    bridge.unregister_session_mapping("t1");
    assert!(!bridge.is_extension_session("t1"));
    assert_eq!(bridge.get_extension_session_id("t1"), None);
    assert_eq!(bridge.get_extension_session_id("t2"), Some("ext-2".to_string()));
    bridge.unregister_session_mapping("t9");
    assert!(bridge.is_extension_session("t2"));
}

#[test]
fn cdp_requests_and_responses_correlate() {
    let mut bridge: Bridge = ExtensionManager::new();
    assert_eq!(bridge.begin_cdp_request("x1", "Page.navigate", JsonValue::Null, "first").unwrap_err(), "Extension not connected");
    bridge.set_connection(1);
    assert!(bridge.is_connected());
    let (id1, msg) = bridge.begin_cdp_request("x1", "Runtime.evaluate", evaluate_params("1+1"), "first").unwrap();
    assert_eq!(id1, "1");
    assert_eq!(msg.get_str("method"), Some("cdp".to_string()));
    let inner = msg.get("params").unwrap();
    assert_eq!(inner.get_str("method"), Some("Runtime.evaluate".to_string()));
    assert_eq!(inner.get_str("sessionId"), Some("x1".to_string()));
    assert_eq!(inner.get("params").unwrap().get_str("expression"), Some("1+1".to_string()));
    let (id2, _) = bridge.begin_cdp_request("x1", "Page.reload", JsonValue::Null, "second").unwrap();
    assert_eq!(id2, "2");
    let (responder, response) = bridge.take_response(obj(vec![("id", num(2)), ("result", s("done"))])).unwrap();
    assert_eq!(responder, "second");
    assert!(matches!(cdp_outcome(response), Ok(JsonValue::Str(ref r)) if r == "done"));
    let (responder, response) = bridge.take_response(obj(vec![("id", s("1")), ("error", s("bad"))])).unwrap();
    assert_eq!(responder, "first");
    assert_eq!(cdp_outcome(response).unwrap_err(), "bad");
    assert!(bridge.take_response(obj(vec![("id", s("1"))])).is_none());
    let (id3, _) = bridge.begin_cdp_request("x1", "Page.reload", JsonValue::Null, "third").unwrap();
    assert_eq!(bridge.cancel_request(&id3), Some("third"));
    let (_id4, _) = bridge.begin_cdp_request("x1", "Page.reload", JsonValue::Null, "fourth").unwrap();
    let pending = bridge.clear_connection();
    assert_eq!(pending.len(), 1);
    assert_eq!(pending[0].1, "fourth");
    assert!(!bridge.is_connected());
    let disconnected = ExtensionManager::<u8, &str>::disconnected_response();
    assert_eq!(disconnected.error, Some("Extension disconnected".to_string()));
}

#[test]
fn response_ids_and_outcomes() {
    assert_eq!(cdp_response_id(&obj(vec![("id", num(12))])), Some("12".to_string()));
    assert_eq!(cdp_response_id(&obj(vec![("id", s("abc"))])), Some("abc".to_string()));
    assert_eq!(cdp_response_id(&obj(vec![])), None);
    assert!(matches!(cdp_outcome(CdpResponse { result: None, error: None }), Ok(JsonValue::Null)));
}

#[test]
fn evaluated_values() {
    let answer = obj(vec![("result", obj(vec![("type", s("string")), ("value", s("{\"a\":1}"))]))]);
    assert!(matches!(evaluated_value(answer), EvaluatedValue::Text(ref t) if t == "{\"a\":1}"));
    let answer = obj(vec![("result", obj(vec![("value", JsonValue::Bool(true))]))]);
    assert!(matches!(evaluated_value(answer), EvaluatedValue::Value(JsonValue::Bool(true))));
    let answer = obj(vec![("result", obj(vec![("type", s("undefined"))]))]);
    assert!(matches!(evaluated_value(answer), EvaluatedValue::Whole(_)));
}

#[test]
fn key_events_and_messages() {
    let events = key_events_for("x");
    assert_eq!(events.len(), 3);
    assert_eq!(events[0].get_str("type"), Some("rawKeyDown".to_string()));
    assert_eq!(events[0].get_str("text"), Some("x".to_string()));
    assert_eq!(events[1].get_str("type"), Some("char".to_string()));
    assert_eq!(events[2].get_str("type"), Some("keyUp".to_string()));
    assert!(events[2].get("text").is_none());
    let msg = cdp_message("9", "Input.dispatchKeyEvent", JsonValue::Null, "ext-1");
    assert_eq!(msg.get_str("id"), Some("9".to_string()));
}

#[test]
fn extension_messages_are_classified_by_method() {
    assert_eq!(extension_event("tab.attached"), ExtensionEvent::TabAttached);
    assert_eq!(extension_event("tab.detached"), ExtensionEvent::TabDetached);
    assert_eq!(extension_event("tab.navigated"), ExtensionEvent::TabNavigated);
    assert_eq!(extension_event("cdp.event"), ExtensionEvent::CdpEvent);
    assert_eq!(extension_event("extension.hello"), ExtensionEvent::Hello);
    assert_eq!(extension_event("tab.error"), ExtensionEvent::TabError);
    assert_eq!(extension_event("pong"), ExtensionEvent::Pong);
    assert_eq!(extension_event(""), ExtensionEvent::CdpResponse);
    assert_eq!(extension_event("tab.moved"), ExtensionEvent::Unknown);
}
