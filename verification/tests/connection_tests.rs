use tivana::extension::{route_frame, FrameRoute};
use tivana::json::{parse_json, JsonValue};
use tivana::routing::{
    extension_click_locate, extension_click_point, extension_key_down, extension_key_up, extension_scroll_event,
    ClickLocate, DEFAULT_WHEEL_DELTA_Y_BITS,
};
use tivana::act::ElementRef;
use tivana::error::TivanaError;
use tivana::extension::ExtensionManager;
use tivana::routing::{close_extension_session, session_create_step, CreateStage};
use tivana::scripts::{
    element_present_script, element_query, fill_script, focus_script, js_string, scroll_by_script,
    selector_bounds_script,
};
use tivana::act::{mouse_button, MouseButtonKind};
use tivana::browser::{quit_step, QuitStep, FORCE_KILL_POLL, QUIT_POLLS};
use tivana::error::ErrorCode;
use tivana::extension::ExtensionTab;
use tivana::protocol::fresh_id;
use tivana::routing::{
    choose_extension_tab, heartbeat_action, navigate_fallback_reply, navigate_step, HeartbeatAction,
    NavigateStep, HEARTBEAT_TIMEOUT_NS, NAVIGATE_PROBES, NO_EXTENSION_TABS,
};

fn ext_tab(id: i64, session: &str) -> ExtensionTab {
    ExtensionTab {
        tab_id: id,
        target_id: format!("target-{}", id),
        session_id: session.to_string(),
        url: "https://example.com".to_string(),
        title: "Example".to_string(),
    }
}

#[test]
fn heartbeat_closes_only_after_five_minutes_without_pong() {
    assert_eq!(heartbeat_action(0), HeartbeatAction::Ping);
    assert_eq!(heartbeat_action(HEARTBEAT_TIMEOUT_NS), HeartbeatAction::Ping);
    assert_eq!(heartbeat_action(HEARTBEAT_TIMEOUT_NS + 1), HeartbeatAction::Close);
    assert_eq!(HEARTBEAT_TIMEOUT_NS, 300_000_000_000);
}

#[test]
fn extension_navigation_probes_three_times() {
    assert_eq!(NAVIGATE_PROBES, 3);
    assert_eq!(navigate_step(0, true), NavigateStep::Answer);
    assert_eq!(navigate_step(0, false), NavigateStep::Retry(2000));
    assert_eq!(navigate_step(1, false), NavigateStep::Retry(2000));
    assert_eq!(navigate_step(2, false), NavigateStep::Fallback);
    assert_eq!(navigate_step(2, true), NavigateStep::Answer);
    let reply = navigate_fallback_reply("https://a.test/");
    assert_eq!(reply.get_str("url"), Some("https://a.test/".to_string()));
    assert_eq!(reply.get_str("title"), Some("unknown".to_string()));
    assert_eq!(reply.get_bool("navigated"), Some(true));
}

#[test]
fn extension_sessions_attach_to_the_requested_or_first_tab() {
    let none: Vec<ExtensionTab> = Vec::new();
    let e = choose_extension_tab(&none, None).unwrap_err();
    assert_eq!(e.code, ErrorCode::BrowserDisconnected);
    assert_eq!(e.message, NO_EXTENSION_TABS);
    let tabs = vec![ext_tab(1, "ext-a"), ext_tab(2, "ext-b"), ext_tab(3, "ext-b")];
    assert_eq!(choose_extension_tab(&tabs, None).unwrap(), 0);
    assert_eq!(choose_extension_tab(&tabs, Some("ext-b")).unwrap(), 1);
    let missing = choose_extension_tab(&tabs, Some("ext-z")).unwrap_err();
    assert_eq!(missing.code, ErrorCode::SessionNotFound);
    assert_eq!(missing.message, "Session not found: ext-z");
}

#[test]
fn quitting_chrome_polls_then_force_kills() {
    assert_eq!(quit_step(0, true), QuitStep::Exited);
    assert_eq!(quit_step(0, false), QuitStep::Wait);
    assert_eq!(quit_step(FORCE_KILL_POLL, false), QuitStep::ForceKill);
    assert_eq!(quit_step(FORCE_KILL_POLL, true), QuitStep::Exited);
    assert_eq!(quit_step(QUIT_POLLS - 1, false), QuitStep::Stop);
    assert_eq!(quit_step(21, false), QuitStep::Wait);
}

#[test]
fn click_button_follows_the_option() {
    assert_eq!(mouse_button("left"), MouseButtonKind::Left);
    assert_eq!(mouse_button("right"), MouseButtonKind::Right);
    assert_eq!(mouse_button("middle"), MouseButtonKind::Middle);
    assert_eq!(mouse_button("other"), MouseButtonKind::Left);
}

#[test]
fn fresh_ids_are_version_four_uuids() {
    let a = fresh_id();
    let b = fresh_id();
    assert_eq!(a.len(), 36);
    assert_eq!(a.chars().nth(14), Some('4'));
    assert_ne!(a, b);
}

#[test]
fn session_creation_answers_each_failure_with_its_code() {
    assert_eq!(session_create_step(CreateStage::StartLaunch, Ok(()), true).unwrap(), CreateStage::LaunchBrowser);
    assert_eq!(session_create_step(CreateStage::LaunchBrowser, Ok(()), true).unwrap(), CreateStage::CompleteLaunch);
    assert_eq!(session_create_step(CreateStage::CompleteLaunch, Ok(()), true).unwrap(), CreateStage::OpenPage);
    assert_eq!(session_create_step(CreateStage::CompleteLaunch, Ok(()), false).unwrap(), CreateStage::Finish);
    assert_eq!(session_create_step(CreateStage::OpenPage, Ok(()), true).unwrap(), CreateStage::Navigate);
    assert_eq!(session_create_step(CreateStage::Navigate, Ok(()), true).unwrap(), CreateStage::Finish);
    let e = session_create_step(CreateStage::LaunchBrowser, Err(TivanaError::Browser("no chrome".to_string())), false)
        .unwrap_err();
    assert_eq!(e.code, ErrorCode::BrowserLaunchFailed);
    assert_eq!(e.message, "Browser error: no chrome");
    let e = session_create_step(CreateStage::Navigate, Err(TivanaError::Browser("timeout".to_string())), true)
        .unwrap_err();
    assert_eq!(e.code, ErrorCode::NavigationFailed);
    let e = session_create_step(CreateStage::StartLaunch, Err(TivanaError::Session("bad state".to_string())), true)
        .unwrap_err();
    assert_eq!(e.code, ErrorCode::InternalError);
    assert_eq!(e.message, "Session error: bad state");
    let e = session_create_step(CreateStage::OpenPage, Err(TivanaError::Browser("no page".to_string())), true)
        .unwrap_err();
    assert_eq!(e.code, ErrorCode::InternalError);
}

#[test]
fn closing_an_extension_session_keeps_its_tab() {
    let mut bridge: ExtensionManager<u8, u8> = ExtensionManager::new();
    bridge.register_session_mapping("t1", "ext-1");
    let reply = close_extension_session(&mut bridge, "t1");
    assert_eq!(reply.get_bool("closed"), Some(true));
    assert!(!bridge.is_extension_session("t1"));
}

#[test]
fn page_scripts_quote_their_parts() {
    assert_eq!(js_string("a\"b\\c\n"), "\"a\\\"b\\\\c\\n\"");
    assert_eq!(focus_script("#x"), "document.querySelector(\"#x\")?.focus()");
    assert_eq!(element_present_script("a'b"), "document.querySelector(\"a'b\") !== null");
    assert_eq!(
        element_query(&ElementRef::TivanaId("e7".to_string())),
        "document.querySelector('[data-tivana-id=\"' + \"e7\" + '\"]')"
    );
    assert_eq!(element_query(&ElementRef::Selector("p".to_string())), "document.querySelector(\"p\")");
    assert_eq!(scroll_by_script(0, -300, "smooth"), "window.scrollBy({ left: 0, top: -300, behavior: 'smooth' })");
    let fill = fill_script("#q", "hi \"you\"", true);
    assert!(fill.contains("document.querySelector(\"#q\")"));
    assert!(fill.contains("setter.call(el, \"hi \\\"you\\\"\")"));
    assert!(fill.contains("if (true) el.value = '';"));
    assert!(selector_bounds_script("div").contains("document.querySelector(\"div\");"));
}

#[test]
fn frames_switch_a_connection_to_the_extension_once() {
    match route_frame(false, r#"{"method":"extension.hello"}"#) {
        FrameRoute::Extension { detected, message } => {
            assert!(detected);
            assert_eq!(message.unwrap().get_str("method"), Some("extension.hello".to_string()));
        }
        FrameRoute::Client => panic!("expected the extension"),
    }
    assert!(matches!(route_frame(false, r#"{"id":"1","type":"request","method":"session.list"}"#), FrameRoute::Client));
    assert!(matches!(route_frame(false, "garbage"), FrameRoute::Client));
    match route_frame(true, "garbage") {
        FrameRoute::Extension { detected, message } => {
            assert!(!detected);
            assert!(message.is_none());
        }
        FrameRoute::Client => panic!("an extension connection stays one"),
    }
}

#[test]
fn json_text_parses_into_the_library_value() {
    let v = parse_json(r#"{"b":[1,-2,2.5],"a":"x"}"#).unwrap();
    assert_eq!(v.get_str("a"), Some("x".to_string()));
    match v.get("b") {
        Some(JsonValue::Array(items)) => {
            assert_eq!(items.len(), 3);
            match &items[2] {
                JsonValue::Number(n) => assert_eq!(n.float_bits, Some(2.5f64.to_bits())),
                _ => panic!("expected a number"),
            }
        }
        _ => panic!("expected an array"),
    }
    assert!(parse_json("{").unwrap_err().contains("EOF"));
}

#[test]
fn extension_clicks_read_the_locate_answer() {
    match extension_click_locate(r#"{"x":10.5,"y":20}"#) {
        ClickLocate::Located { x_bits, y_bits } => {
            assert_eq!(x_bits, 10.5f64.to_bits());
            assert_eq!(y_bits, 20.0f64.to_bits());
        }
        _ => panic!("expected a point"),
    }
    match extension_click_locate(r#"{"error":"Element not found"}"#) {
        ClickLocate::ScriptError(JsonValue::Str(s)) => assert_eq!(s, "Element not found"),
        _ => panic!("expected the script's error"),
    }
    match extension_click_locate("nope") {
        ClickLocate::Unreadable(e) => assert_eq!(e.code, ErrorCode::InternalError),
        _ => panic!("expected an internal error"),
    }
    let params = parse_json(r#"{"x":3}"#).unwrap();
    assert_eq!(extension_click_point(&params), (3.0f64.to_bits(), 0));
}

#[test]
fn extension_scrolls_and_key_presses_build_their_events() {
    let params = parse_json(r#"{"deltaX":5}"#).unwrap();
    let ev = extension_scroll_event(&params);
    assert_eq!(ev.get_str("type"), Some("mouseWheel".to_string()));
    assert_eq!(ev.get_u64("x"), Some(400));
    assert_eq!(ev.get_float_bits("deltaX"), Some(5.0f64.to_bits()));
    assert_eq!(ev.get_float_bits("deltaY"), Some(DEFAULT_WHEEL_DELTA_Y_BITS));
    assert_eq!(f64::from_bits(DEFAULT_WHEEL_DELTA_Y_BITS), 300.0);
    assert_eq!(ev.get_u64("deltaX"), None);
    let down = extension_key_down("a");
    assert_eq!(down.get_str("type"), Some("rawKeyDown".to_string()));
    assert_eq!(down.get_str("code"), Some("KeyA".to_string()));
    assert_eq!(down.get_u64("windowsVirtualKeyCode"), Some(0));
    let enter = extension_key_down("Enter");
    assert_eq!(enter.get_str("code"), Some("KeyE".to_string()));
    assert_eq!(enter.get_u64("windowsVirtualKeyCode"), Some(13));
    assert_eq!(extension_key_down("").get_str("code"), Some("KeyA".to_string()));
    assert_eq!(extension_key_down("ß").get_str("code"), Some("KeySS".to_string()));
    let up = extension_key_up("Tab");
    assert_eq!(up.get_str("type"), Some("keyUp".to_string()));
    assert_eq!(up.get_str("key"), Some("Tab".to_string()));
}
