use tivana::act::{click_hold_ms, mouse_move_delays};
use tivana::browser::{blank_tabs, TabInfo};
use tivana::extension::ExtensionManager;
use tivana::json::JsonValue;

fn tab(id: &str, url: &str, active: bool) -> TabInfo {
    TabInfo { target_id: id.to_string(), url: url.to_string(), title: String::new(), active }
}

#[test]
fn only_inactive_blank_tabs_are_orphans() {
    let tabs = vec![
        tab("A", "about:blank", true),
        tab("B", "https://example.com/", false),
        tab("C", "about:blank", false),
        tab("D", "about:blank#x", false),
        tab("E", "about:blank", false),
    ];
    assert_eq!(blank_tabs(&tabs), vec!["C".to_string(), "E".to_string()]);
    assert!(blank_tabs(&Vec::new()).is_empty());
}

#[test]
fn click_hold_and_mouse_delays_stay_in_range() {
    for _ in 0..200 {
        let d = click_hold_ms();
        assert!((50..150).contains(&d));
        let moves = mouse_move_delays();
        assert!((3..=5).contains(&moves.len()));
        assert!(moves.iter().all(|m| (5..=15).contains(m)));
    }
}

#[test]
fn request_ids_count_up_while_connected() {
    let mut m: ExtensionManager<u8, &'static str> = ExtensionManager::new();
    assert_eq!(m.requests_issued(), 0);
    assert!(m.begin_cdp_request("s", "Page.enable", JsonValue::Null, "p").is_err());
    assert_eq!(m.requests_issued(), 0);
    m.set_connection(1);
    let (id, _) = m.begin_cdp_request("s", "Page.enable", JsonValue::Null, "p").unwrap();
    assert_eq!(id, "1");
    assert_eq!(m.requests_issued(), 1);
}

#[test]
fn page_scripts_name_their_globals() {
    assert!(tivana::network::ENABLE_SCRIPT.contains("__tivana_network_log"));
    assert!(tivana::network::CLEAR_SCRIPT.contains("__tivana_network_log = []"));
    assert!(tivana::perceive::ELEMENTS_JS.contains("data-tivana-id"));
    assert!(tivana::perceive::MUTATION_INSTALL_JS.contains("MutationObserver"));
    assert!(tivana::captcha::DETECT_CAPTCHA_JS.contains("recaptcha_v2"));
}
