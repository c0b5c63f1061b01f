use tivana::error::ErrorCode;
use tivana::json::{JsonNumber, JsonValue};
use tivana::protocol::{MessageType, RequestMessage};
use tivana::routing::{
    evaluate_script, evaluation_timed_out, ext_route, extension_click_target, extension_press_key,
    extract_session_id, flag_reply, has_live_target, i64_to_string, launch_mode, note_reply,
    parse_action_target, pushes_after, reattach_target, request_session_id, route_method,
    session_config_from_params, session_reply, set_cookie_script, skip_extension_check,
    storage_set_script, timeout_param, trim_quotes, unknown_method, unsupported_for_extension,
    windows_key_code, EventPushes, ExtRoute, Handler, LaunchMode,
};
use tivana::session::SessionConfig;

fn s(x: &str) -> JsonValue {
    JsonValue::Str(x.to_string())
}

fn obj(entries: Vec<(&str, JsonValue)>) -> JsonValue {
    JsonValue::Object(entries.into_iter().map(|(k, v)| (k.to_string(), v)).collect())
}

fn float(x: f64) -> JsonValue {
    JsonValue::Number(JsonNumber { as_u64: None, as_i64: None, float_text: x.to_string(), float_bits: Some(x.to_bits()) })
}

fn unsigned(n: u64) -> JsonValue {
    JsonValue::Number(JsonNumber { as_u64: Some(n), as_i64: Some(n as i64), float_text: n.to_string(), float_bits: Some((n as f64).to_bits()) })
}

fn request(method: &str, session_id: Option<&str>, params: JsonValue) -> RequestMessage {
    RequestMessage {
        id: "req-1".to_string(),
        message_type: MessageType::Request,
        method: method.to_string(),
        session_id: session_id.map(|x| x.to_string()),
        params,
        version: "1.0".to_string(),
    }
}

#[test]
fn methods_route_to_handlers() {
    assert_eq!(route_method("session.create"), Some(Handler::SessionCreate));
    assert_eq!(route_method("act.navigate"), Some(Handler::BrowserNavigate));
    assert_eq!(route_method("browser.navigate"), Some(Handler::BrowserNavigate));
    assert_eq!(route_method("perceive.textContent"), Some(Handler::PerceiveText));
    assert_eq!(route_method("perceive.accessibilitySnapshot"), Some(Handler::PerceiveAccessibility));
    assert_eq!(route_method("proxy.current"), Some(Handler::ProxyCurrent));
    assert_eq!(route_method("act.handleDialog"), Some(Handler::ActHandleDialog));
    assert_eq!(route_method("nope.nothing"), None);
    let e = unknown_method("nope.nothing");
    assert_eq!(e.code, ErrorCode::UnknownMethod);
    assert_eq!(e.message, "Unknown method: nope.nothing");
}

#[test]
fn extension_routes() {
    assert_eq!(ext_route("perceive.metadata"), Some(ExtRoute::PageState));
    assert_eq!(ext_route("browser.navigate"), Some(ExtRoute::Navigate));
    assert_eq!(ext_route("browser.url"), Some(ExtRoute::UrlOrNavigate));
    assert_eq!(ext_route("storage.clear"), Some(ExtRoute::PlainOk));
    assert_eq!(ext_route("act.batch"), Some(ExtRoute::FormNote));
    assert_eq!(ext_route("screenshot.capture"), Some(ExtRoute::Screenshot));
    assert_eq!(ext_route("proxy.set"), None);
    let e = unsupported_for_extension("proxy.set");
    assert_eq!(e.message, "Method 'proxy.set' not yet supported for extension sessions");
    assert!(skip_extension_check("session.list"));
    assert!(!skip_extension_check("act.click"));
}

#[test]
fn request_session_ids() {
    let direct = request("session.get", Some("s1"), JsonValue::Null);
    assert_eq!(request_session_id(&direct), Some("s1".to_string()));
    let param = request("session.get", None, obj(vec![("sessionId", s("s2"))]));
    assert_eq!(extract_session_id(&param).unwrap(), "s2");
    let missing = request("session.get", None, obj(vec![]));
    let err = extract_session_id(&missing).unwrap_err();
    assert_eq!(err.code, ErrorCode::MissingField);
    assert_eq!(err.message, "Missing required field: sessionId");
}

#[test]
fn action_targets_from_params() {
    let params = obj(vec![(
        "target",
        obj(vec![
            ("elementId", s("e5")),
            ("label", s("Go")),
            ("coordinates", obj(vec![("x", float(10.5)), ("y", float(20.0))])),
        ]),
    )]);
    let t = parse_action_target(&params).unwrap();
    assert_eq!(t.element_id, Some("e5".to_string()));
    assert_eq!(t.label, Some("Go".to_string()));
    assert!(t.selector.is_none());
    assert_eq!(t.coordinates, Some((10.5f64.to_bits(), 20.0f64.to_bits())));
    let half = obj(vec![("target", obj(vec![("coordinates", obj(vec![("x", float(1.0))]))]))]);
    assert!(parse_action_target(&half).unwrap().coordinates.is_none());
    assert!(parse_action_target(&obj(vec![])).is_none());
}

#[test]
fn session_configuration_from_params() {
    let params = obj(vec![("url", s("https://example.com")), ("viewportWidth", unsigned(4294967296 + 800)), ("viewportHeight", unsigned(600))]);
    let c = session_config_from_params(&params, true, None);
    assert_eq!(c.initial_url, Some("https://example.com".to_string()));
    assert!(c.headless);
    assert_eq!(c.viewport_width, Some(800));
    assert_eq!(c.viewport_height, Some(600));
    let c2 = session_config_from_params(&obj(vec![("headless", JsonValue::Bool(false))]), true, None);
    assert!(!c2.headless);
    assert!(c2.viewport_width.is_none());
}

#[test]
fn launch_modes() {
    let config = SessionConfig { viewport_width: Some(1024), ..SessionConfig::default() };
    assert!(matches!(launch_mode(true, &Some("9333".to_string()), &config), LaunchMode::DefaultBrowser { port: 9222 }));
    assert!(matches!(launch_mode(false, &Some("9333".to_string()), &config), LaunchMode::Connect(ref t) if t == "9333"));
    assert!(matches!(launch_mode(false, &None, &config), LaunchMode::Launch { headless: false, viewport_width: 1024, viewport_height: 900 }));
}

#[test]
fn reattaching() {
    assert_eq!(reattach_target(&None, false), None);
    assert_eq!(reattach_target(&None, true), Some("9222".to_string()));
    assert_eq!(reattach_target(&Some("ws://x".to_string()), false), Some("ws://x".to_string()));
    let persisted = vec!["t1".to_string(), "t2".to_string()];
    assert!(has_live_target(&persisted, &vec!["t0".to_string(), "t2".to_string()]));
    assert!(!has_live_target(&persisted, &vec!["t3".to_string()]));
    assert!(!has_live_target(&vec![], &persisted));
}

#[test]
fn event_pushes() {
    assert_eq!(pushes_after("perceive.mutations", true), EventPushes::Mutations);
    assert_eq!(pushes_after("perceive.observe", true), EventPushes::MutationsAndPageEvents);
    assert_eq!(pushes_after("perceive.observe", false), EventPushes::Nothing);
    assert_eq!(pushes_after("act.click", true), EventPushes::Nothing);
}

#[test]
fn evaluation_helpers() {
    assert_eq!(evaluate_script("1 + 1", false), "1 + 1");
    assert_eq!(evaluate_script("fetch('/x')", true), "(async () => { return fetch('/x'); })()");
    assert_eq!(timeout_param(&obj(vec![("timeoutMs", unsigned(500))])), 500);
    assert_eq!(timeout_param(&obj(vec![])), 30000);
    let e = evaluation_timed_out("EvaluateVoid", 250);
    assert_eq!(e.code, ErrorCode::PerceptionFailed);
    assert_eq!(e.message, "EvaluateVoid timed out after 250ms");
}

#[test]
fn cookie_and_storage_scripts() {
    let script = set_cookie_script("token", "a\"b", "/", "example.com", Some(-5), true);
    assert_eq!(script, "document.cookie = \"token=a\\\\\\\"b; path=/; domain=example.com; max-age=-5; secure\"");
    let plain = set_cookie_script("k", "v", "/app", "", None, false);
    assert_eq!(plain, "document.cookie = \"k=v; path=/app\"");
    assert_eq!(storage_set_script("localStorage", "key", "va\"l"), "localStorage.setItem(\"key\", \"va\\\"l\")");
    assert_eq!(trim_quotes("\"\"abc\""), "abc");
    assert_eq!(trim_quotes("\"\""), "");
    assert_eq!(i64_to_string(i64::MIN), "-9223372036854775808");
    assert_eq!(i64_to_string(42), "42");
}

#[test]
fn extension_request_details() {
    assert_eq!(extension_click_target(&obj(vec![("elementId", s("e3"))])), Some("e3".to_string()));
    assert_eq!(extension_click_target(&obj(vec![("target", s("e1")), ("elementId", s("e3"))])), Some("e1".to_string()));
    assert_eq!(extension_press_key(&obj(vec![])), "Enter");
    assert_eq!(extension_press_key(&obj(vec![("key", s("Tab"))])), "Tab");
    assert_eq!(windows_key_code("Enter"), 13);
    assert_eq!(windows_key_code("Tab"), 9);
    assert_eq!(windows_key_code("Escape"), 27);
    assert_eq!(windows_key_code("Backspace"), 8);
    assert_eq!(windows_key_code("a"), 0);
}

#[test]
fn fixed_replies() {
    let ok = flag_reply("ok", true);
    assert_eq!(ok.get_bool("ok"), Some(true));
    let note = note_reply("Use evaluate for CAPTCHA in extension mode");
    assert_eq!(note.get_bool("ok"), Some(true));
    assert_eq!(note.get_str("note"), Some("Use evaluate for CAPTCHA in extension mode".to_string()));
    let reply = session_reply("s9", "active");
    assert_eq!(reply.get_str("sessionId"), Some("s9".to_string()));
    assert_eq!(reply.get_str("state"), Some("active".to_string()));
}

#[test]
fn storage_script_escapes_control_characters() {
    assert_eq!(
        storage_set_script("sessionStorage", "a\\b", "x\ny\t\u{1}"),
        "sessionStorage.setItem(\"a\\\\b\", \"x\\ny\\t\\u0001\")"
    );
    assert_eq!(storage_set_script("localStorage", "é", ""), "localStorage.setItem(\"é\", \"\")");
}
