use tivana::browser::{
    chrome_not_found, chrome_ready_step, connect_plan, debugger_url, get_stealth_script, launch_args,
    linux_chrome_names, modifier_flags, default_profile_launch_args, tabs_from_targets, version_url,
    BrowserLaunchConfig, BrowserManager, ConnectPlan, ReadyStep, TargetSummary, Viewport,
};
use tivana::error::TivanaError;
use tivana::json::JsonValue;
use tivana::proxy::{ProxyConfig, ProxyProtocol};

fn target(kind: &str, id: &str) -> TargetSummary {
    TargetSummary {
        target_type: kind.to_string(),
        target_id: id.to_string(),
        url: format!("https://{}.test/", id),
        title: id.to_uppercase(),
    }
}

#[test]
fn test_browser_config_default() {
    let config = BrowserLaunchConfig::default();
    assert!(config.headless);
    assert_eq!(config.viewport_width, 1440);
    assert_eq!(config.viewport_height, 900);
}

#[test]
fn manager_exposes_its_default_config() {
    let m = BrowserManager::default();
    assert!(m.default_headless());
    assert_eq!(m.default_config().viewport_width, 1440);
    let mut config = BrowserLaunchConfig::default();
    config.headless = false;
    let m2 = BrowserManager::new(config);
    assert!(!m2.default_headless());
    let v = Viewport::default();
    assert_eq!((v.width, v.height), (1280, 720));
}

#[test]
fn launch_flags() {
    let mut config = BrowserLaunchConfig::default();
    config.args = vec!["--mute-audio".to_string()];
    let proxy = ProxyConfig { server: "p:1".to_string(), protocol: ProxyProtocol::Socks5, username: None, password: None };
    let args = launch_args(&config, Some(&proxy));
    assert_eq!(args.len(), 12);
    assert_eq!(args[0], "--no-first-run");
    assert_eq!(args[6], "--disable-blink-features=AutomationControlled");
    assert!(args[9].starts_with("--user-agent=Mozilla/5.0"));
    assert_eq!(args[10], "--mute-audio");
    assert_eq!(args[11], "--proxy-server=socks5://p:1");
    assert_eq!(launch_args(&BrowserLaunchConfig::default(), None).len(), 10);
}

#[test]
fn connect_targets() {
    assert!(matches!(connect_plan("ws://127.0.0.1:9222/devtools/browser/x"), Ok(ConnectPlan::WebSocket(ref u)) if u == "ws://127.0.0.1:9222/devtools/browser/x"));
    assert!(matches!(connect_plan("wss://host/x"), Ok(ConnectPlan::WebSocket(_))));
    match connect_plan("9222") {
        Ok(ConnectPlan::Discover { port, version_url }) => {
            assert_eq!(port, 9222);
            assert_eq!(version_url, "http://127.0.0.1:9222/json/version");
        }
        _ => panic!("expected discovery"),
    }
    assert!(matches!(connect_plan("+80"), Ok(ConnectPlan::Discover { port: 80, .. })));
    assert!(matches!(connect_plan("70000"), Err(TivanaError::Browser(ref m)) if m == "Invalid connect target: 70000. Use a port number or ws:// URL"));
    assert!(matches!(connect_plan("http://x"), Err(TivanaError::Browser(_))));
    assert!(matches!(connect_plan(""), Err(TivanaError::Browser(_))));
    assert_eq!(version_url(0), "http://127.0.0.1:0/json/version");
    assert_eq!(version_url(65535), "http://127.0.0.1:65535/json/version");
}

#[test]
fn debugger_url_from_version_info() {
    let info = JsonValue::Object(vec![("webSocketDebuggerUrl".to_string(), JsonValue::Str("ws://a/b".to_string()))]);
    assert_eq!(debugger_url(&info).unwrap(), "ws://a/b");
    assert!(matches!(debugger_url(&JsonValue::Null), Err(TivanaError::Browser(ref m)) if m == "Chrome did not provide webSocketDebuggerUrl"));
}

#[test]
fn tabs_are_page_targets_first_one_active() {
    let targets = vec![target("service_worker", "w"), target("page", "a"), target("iframe", "f"), target("page", "b")];
    let tabs = tabs_from_targets(&targets, true);
    assert_eq!(tabs.len(), 2);
    assert_eq!(tabs[0].target_id, "a");
    assert!(tabs[0].active);
    assert_eq!(tabs[1].target_id, "b");
    assert!(!tabs[1].active);
    assert_eq!(tabs[1].title, "B");
    let none_active = tabs_from_targets(&targets, false);
    assert!(none_active.iter().all(|t| !t.active));
}

#[test]
fn modifier_bitmask() {
    assert_eq!(modifier_flags(&vec![]), 0);
    assert_eq!(modifier_flags(&vec!["Alt".to_string(), "CTRL".to_string(), "Meta".to_string(), "shift".to_string()]), 15);
    assert_eq!(modifier_flags(&vec!["Command".to_string()]), 4);
    assert_eq!(modifier_flags(&vec!["Hyper".to_string(), "control".to_string()]), 2);
}

#[test]
fn default_profile_command_line() {
    let args = default_profile_launch_args(9222);
    assert!(args.iter().all(|a| !a.starts_with("--user-data-dir")));
    assert_eq!(args, vec![
        "--remote-debugging-port=9222".to_string(),
        "--no-first-run".to_string(),
        "--window-size=1440,900".to_string(),
        "about:blank".to_string(),
    ]);
    assert_eq!(linux_chrome_names(), vec!["google-chrome", "google-chrome-stable", "chromium-browser", "chromium"]);
    assert!(matches!(chrome_not_found(), TivanaError::Browser(ref m) if m == "Could not find Chrome. Install Chrome or pass --chrome-path"));
}

#[test]
fn chrome_readiness_polling() {
    assert!(matches!(chrome_ready_step(0, 40, true), ReadyStep::Ready));
    assert!(matches!(chrome_ready_step(10, 40, false), ReadyStep::Poll));
    assert!(matches!(chrome_ready_step(39, 40, false), ReadyStep::GiveUp(TivanaError::Browser(ref m)) if m == "Chrome failed to start within 20 seconds"));
}

#[test]
fn stealth_script_patches_webdriver() {
    let script = get_stealth_script();
    assert!(script.contains("navigator.webdriver") || script.contains("'webdriver'"));
    assert!(script.contains("window.chrome.runtime"));
    assert!(script.starts_with('\n'));
}
