//! Browser configuration and the decisions around launching and connecting:
//! Chrome's command line, where to find a running Chrome, the tab list, key modifier
//! flags, and the stealth script injected into every page.

use vstd::prelude::*;
use crate::error::TivanaError;
use crate::json::JsonValue;
use crate::proxy::{chrome_proxy_arg, ProxyConfig};
use crate::text::{
    decimal, lowercase, parse_u16, parse_u16_spec, seq_starts_with, str_eq, str_starts_with,
    to_lowercase, u64_to_string, views,
};

verus! {

/// A file-system path, carried as given.
#[verifier::external_type_specification]
#[verifier::external_body]
pub struct ExPathBuf(std::path::PathBuf);

/// Browser launch configuration
#[derive(Debug)]
pub struct BrowserLaunchConfig {
    /// Run in headless mode
    pub headless: bool,
    /// Path to Chrome/Chromium executable
    pub chrome_path: Option<std::path::PathBuf>,
    /// Initial viewport width
    pub viewport_width: u32,
    /// Initial viewport height
    pub viewport_height: u32,
    /// User data directory
    pub user_data_dir: Option<std::path::PathBuf>,
    /// Additional Chrome arguments
    pub args: Vec<String>,
}

impl Default for BrowserLaunchConfig {
    fn default() -> (c: Self)
        ensures
            c.headless,
            c.chrome_path is None,
            c.viewport_width == 1440,
            c.viewport_height == 900,
            c.user_data_dir is None,
            c.args@.len() == 0,
    {
        BrowserLaunchConfig {
            headless: true,
            chrome_path: None,
            viewport_width: 1440,
            viewport_height: 900,
            user_data_dir: None,
            args: Vec::new(),
        }
    }
}

/// Viewport dimensions
#[derive(Debug, Clone, Copy)]
pub struct Viewport {
    pub width: u32,
    pub height: u32,
}

impl Default for Viewport {
    fn default() -> (v: Self)
        ensures
            v.width == 1280,
            v.height == 720,
    {
        Viewport { width: 1280, height: 720 }
    }
}

/// Information about a browser tab
#[derive(Debug)]
pub struct TabInfo {
    /// CDP target ID
    pub target_id: String,
    /// Current URL
    pub url: String,
    /// Page title
    pub title: String,
    /// Whether this is the currently active tab in Tivana
    pub active: bool,
}

/// Result of a navigation action
#[derive(Debug)]
pub struct NavigationResult {
    /// Final URL after navigation (may differ due to redirects)
    pub url: String,
    /// Page title
    pub title: Option<String>,
    /// Time to load in milliseconds
    pub load_time_ms: u64,
}

/// Browser manager for launching and tracking browser instances
#[derive(Debug)]
pub struct BrowserManager {
    /// Default configuration for new browsers
    default_config: BrowserLaunchConfig,
}

impl BrowserManager {
    /// The default configuration.
    pub closed spec fn config(&self) -> BrowserLaunchConfig {
        self.default_config
    }

    /// Create a new browser manager
    pub fn new(config: BrowserLaunchConfig) -> (m: Self)
        ensures
            m.config() == config,
    {
        BrowserManager { default_config: config }
    }

    /// Get the default headless setting from server config
    pub fn default_headless(&self) -> (b: bool)
        ensures
            b == self.config().headless,
    {
        self.default_config.headless
    }

    /// Access the default browser launch configuration
    pub fn default_config(&self) -> (c: &BrowserLaunchConfig)
        ensures
            *c == self.config(),
    {
        &self.default_config
    }
}

impl Default for BrowserManager {
    fn default() -> (m: Self)
        ensures
            m.config().headless,
            m.config().chrome_path is None,
            m.config().viewport_width == 1440,
            m.config().viewport_height == 900,
            m.config().user_data_dir is None,
            m.config().args@.len() == 0,
    {
        Self::new(BrowserLaunchConfig::default())
    }
}

/// The user agent a launched browser presents.
pub open spec fn user_agent_arg() -> Seq<char> {
    "--user-agent=Mozilla/5.0 (Macintosh; Intel Mac OS X 10_15_7) AppleWebKit/537.36 (KHTML, like Gecko) Chrome/131.0.0.0 Safari/537.36"@
}

/// The flags every launched browser gets: stability first, then the removal of
/// automation fingerprints, then a realistic user agent.
pub open spec fn common_launch_args() -> Seq<Seq<char>> {
    seq![
        "--no-first-run"@,
        "--no-default-browser-check"@,
        "--disable-background-networking"@,
        "--disable-extensions"@,
        "--disable-sync"@,
        "--disable-translate"@,
        "--disable-blink-features=AutomationControlled"@,
        "--disable-features=AutomationControlled"@,
        "--disable-infobars"@,
        user_agent_arg(),
    ]
}

/// The extra command-line flags of a launch: the common ones, the configuration's own,
/// then the proxy flag when a proxy is given.
pub open spec fn launch_args_spec(config_args: Seq<Seq<char>>, proxy: Option<ProxyConfig>) -> Seq<
    Seq<char>,
> {
    common_launch_args() + config_args + match proxy {
        Some(p) => seq![chrome_proxy_arg(p.protocol, p.server@)],
        None => Seq::empty(),
    }
}

fn push_str(v: &mut Vec<String>, s: &str)
    ensures
        final(v)@.len() == old(v)@.len() + 1,
        final(v)@.drop_last() == old(v)@,
        final(v)@.last()@ == s@,
{
    v.push(String::from_str(s));
    assert(v@.drop_last() =~= old(v)@);
}

/// The extra command-line flags Chrome is launched with (the window size, the
/// executable and the profile directory travel separately).
pub fn launch_args(config: &BrowserLaunchConfig, proxy: Option<&ProxyConfig>) -> (r: Vec<String>)
    ensures
        r@.map_values(|s: String| s@) == launch_args_spec(
            config.args@.map_values(|s: String| s@),
            match proxy {
                Some(p) => Some(*p),
                None => None,
            },
        ),
{
    let mut r: Vec<String> = Vec::new();
    push_str(&mut r, "--no-first-run");
    push_str(&mut r, "--no-default-browser-check");
    push_str(&mut r, "--disable-background-networking");
    push_str(&mut r, "--disable-extensions");
    push_str(&mut r, "--disable-sync");
    push_str(&mut r, "--disable-translate");
    push_str(&mut r, "--disable-blink-features=AutomationControlled");
    push_str(&mut r, "--disable-features=AutomationControlled");
    push_str(&mut r, "--disable-infobars");
    push_str(
        &mut r,
        "--user-agent=Mozilla/5.0 (Macintosh; Intel Mac OS X 10_15_7) AppleWebKit/537.36 (KHTML, like Gecko) Chrome/131.0.0.0 Safari/537.36",
    );
    assert(r@.map_values(|s: String| s@) =~= common_launch_args());
    let ghost base = r@;
    let mut i: usize = 0;
    while i < config.args.len()
        invariant
            i <= config.args@.len(),
            r@ == base + config.args@.subrange(0, i as int),
        decreases config.args.len() - i,
    {
        r.push(config.args[i].clone());
        i = i + 1;
        assert(r@ =~= base + config.args@.subrange(0, i as int));
    }
    assert(config.args@.subrange(0, config.args@.len() as int) =~= config.args@);
    assert(r@.map_values(|s: String| s@) =~= common_launch_args() + config.args@.map_values(
        |s: String| s@,
    ));
    match proxy {
        Some(p) => {
            let ghost before = r@.map_values(|s: String| s@);
            r.push(p.to_chrome_arg());
            assert(r@.map_values(|s: String| s@) =~= before.push(
                chrome_proxy_arg(p.protocol, p.server@),
            ));
        },
        None => {},
    }
    assert(r@.map_values(|s: String| s@) =~= launch_args_spec(
        config.args@.map_values(|s: String| s@),
        match proxy {
            Some(p) => Some(*p),
            None => None,
        },
    ));
    r
}

/// Where to reach a running Chrome.
#[derive(Debug)]
pub enum ConnectPlan {
    /// Connect to this DevTools WebSocket URL directly.
    WebSocket(String),
    /// Ask Chrome's version endpoint (at this URL, on this port) for the URL.
    Discover { port: u16, version_url: String },
}

/// The URL of Chrome's version endpoint on a local debugging port.
pub open spec fn version_url_text(port: u16) -> Seq<char> {
    "http://127.0.0.1:"@ + decimal(port as nat) + "/json/version"@
}

/// The URL of Chrome's version endpoint on a local debugging port.
pub fn version_url(port: u16) -> (s: String)
    ensures
        s@ == version_url_text(port),
{
    String::from_str("http://127.0.0.1:").concat(u64_to_string(port as u64).as_str()).concat(
        "/json/version",
    )
}

/// How to reach the Chrome a connect target names: a `ws://` or `wss://` URL
/// directly, a port number through discovery, anything else is an error.
pub fn connect_plan(target: &str) -> (r: Result<ConnectPlan, TivanaError>)
    ensures
        seq_starts_with(target@, "ws://"@) || seq_starts_with(target@, "wss://"@) ==> (r matches Ok(
            ConnectPlan::WebSocket(u),
        ) && u@ == target@),
        !(seq_starts_with(target@, "ws://"@) || seq_starts_with(target@, "wss://"@)) ==> match parse_u16_spec(
            target@,
        ) {
            Some(port) => r matches Ok(ConnectPlan::Discover { port: p, version_url }) && p == port
                && version_url@ == version_url_text(port),
            None => r matches Err(TivanaError::Browser(m)) && m@ == "Invalid connect target: "@
                + target@ + ". Use a port number or ws:// URL"@,
        },
{
    if str_starts_with(target, "ws://") || str_starts_with(target, "wss://") {
        return Ok(ConnectPlan::WebSocket(String::from_str(target)));
    }
    match parse_u16(target) {
        Some(port) => Ok(ConnectPlan::Discover { port, version_url: version_url(port) }),
        None => Err(
            TivanaError::Browser(
                String::from_str("Invalid connect target: ").concat(target).concat(
                    ". Use a port number or ws:// URL",
                ),
            ),
        ),
    }
}

/// The DevTools WebSocket URL from Chrome's version information.
pub fn debugger_url(version_info: &JsonValue) -> (r: Result<String, TivanaError>)
    ensures
        match version_info.str_member("webSocketDebuggerUrl"@) {
            Some(u) => r matches Ok(s) && s@ == u,
            None => r matches Err(TivanaError::Browser(m)) && m@
                == "Chrome did not provide webSocketDebuggerUrl"@,
        },
{
    match version_info.get_str("webSocketDebuggerUrl") {
        Some(u) => Ok(u),
        None => Err(
            TivanaError::Browser(String::from_str("Chrome did not provide webSocketDebuggerUrl")),
        ),
    }
}

/// A target that Chrome reports.
#[derive(Debug)]
pub struct TargetSummary {
    pub target_type: String,
    pub target_id: String,
    pub url: String,
    pub title: String,
}

/// The tabs among Chrome's targets: its page targets in order, the first of them
/// marked active when the browser tracks any page.
pub open spec fn tabs_ok(targets: Seq<TargetSummary>, has_pages: bool, tabs: Seq<TabInfo>) -> bool {
    let pages = targets.filter(|t: TargetSummary| t.target_type@ == "page"@);
    &&& tabs.len() == pages.len()
    &&& forall|i: int|
        0 <= i < tabs.len() ==> (#[trigger] tabs[i]).target_id@ == pages[i].target_id@
            && tabs[i].url@ == pages[i].url@ && tabs[i].title@ == pages[i].title@
            && tabs[i].active == (has_pages && i == 0)
}

/// Lists the tabs among Chrome's targets.
pub fn tabs_from_targets(targets: &Vec<TargetSummary>, has_pages: bool) -> (tabs: Vec<TabInfo>)
    ensures
        tabs_ok(targets@, has_pages, tabs@),
{
    let mut tabs: Vec<TabInfo> = Vec::new();
    let mut i: usize = 0;
    while i < targets.len()
        invariant
            i <= targets@.len(),
            tabs_ok(targets@.subrange(0, i as int), has_pages, tabs@),
        decreases targets.len() - i,
    {
        let ghost prev = targets@.subrange(0, i as int);
        let ghost next = targets@.subrange(0, i + 1);
        assert(next.drop_last() =~= prev);
        proof {
            reveal_with_fuel(Seq::filter, 2);
        }
        let t = &targets[i];
        if str_eq(t.target_type.as_str(), "page") {
            let active = has_pages && tabs.len() == 0;
            tabs.push(
                TabInfo {
                    target_id: t.target_id.clone(),
                    url: t.url.clone(),
                    title: t.title.clone(),
                    active,
                },
            );
        }
        i = i + 1;
    }
    assert(targets@.subrange(0, targets@.len() as int) =~= targets@);
    tabs
}

/// The CDP modifier flag of a modifier key name: Alt 1, Control 2, Meta 4, Shift 8.
pub open spec fn modifier_flag(name_lower: Seq<char>) -> int {
    if name_lower == "alt"@ {
        1
    } else if name_lower == "control"@ || name_lower == "ctrl"@ {
        2
    } else if name_lower == "meta"@ || name_lower == "command"@ || name_lower == "cmd"@ {
        4
    } else if name_lower == "shift"@ {
        8
    } else {
        0
    }
}

/// The sum of the flags of the named modifiers, their names taken in any case.
pub open spec fn modifier_sum(names: Seq<String>) -> int
    decreases names.len(),
{
    if names.len() == 0 {
        0
    } else {
        modifier_sum(names.drop_last()) + modifier_flag(lowercase(names.last()@))
    }
}

proof fn lemma_modifier_sum_bounds(names: Seq<String>)
    ensures
        0 <= modifier_sum(names) <= 8 * names.len(),
    decreases names.len(),
{
    if names.len() > 0 {
        lemma_modifier_sum_bounds(names.drop_last());
    }
}

/// The CDP modifier bitmask of a key press (Alt=1, Ctrl=2, Meta=4, Shift=8, summed).
pub fn modifier_flags(modifiers: &Vec<String>) -> (flags: i64)
    requires
        modifiers@.len() * 8 <= i64::MAX,
    ensures
        flags == modifier_sum(modifiers@),
{
    let mut flags: i64 = 0;
    let mut i: usize = 0;
    while i < modifiers.len()
        invariant
            i <= modifiers@.len(),
            modifiers@.len() * 8 <= i64::MAX,
            flags == modifier_sum(modifiers@.subrange(0, i as int)),
        decreases modifiers.len() - i,
    {
        let ghost prev = modifiers@.subrange(0, i as int);
        assert(modifiers@.subrange(0, i + 1).drop_last() =~= prev);
        proof {
            lemma_modifier_sum_bounds(prev);
        }
        let name = to_lowercase(modifiers[i].as_str());
        let n = name.as_str();
        let f: i64 = if str_eq(n, "alt") {
            1
        } else if str_eq(n, "control") || str_eq(n, "ctrl") {
            2
        } else if str_eq(n, "meta") || str_eq(n, "command") || str_eq(n, "cmd") {
            4
        } else if str_eq(n, "shift") {
            8
        } else {
            0
        };
        flags = flags + f;
        i = i + 1;
    }
    assert(modifiers@.subrange(0, modifiers@.len() as int) =~= modifiers@);
    flags
}

/// The command line of a Chrome relaunched on the user's default profile with remote
/// debugging on `port`: no `--user-data-dir`, so Chrome uses its default profile.
pub open spec fn default_profile_launch_args_spec(port: u16) -> Seq<Seq<char>> {
    seq![
        "--remote-debugging-port="@ + decimal(port as nat),
        "--no-first-run"@,
        "--window-size=1440,900"@,
        "about:blank"@,
    ]
}

/// Whether a tab is an orphaned blank tab: on `about:blank` and not the active one.
pub open spec fn is_blank_orphan(t: TabInfo) -> bool {
    t.url@ == "about:blank"@ && !t.active
}

/// The target ids of the orphaned blank tabs, in order.
pub open spec fn blank_tab_ids(tabs: Seq<TabInfo>) -> Seq<Seq<char>>
    decreases tabs.len(),
{
    if tabs.len() == 0 {
        Seq::empty()
    } else if is_blank_orphan(tabs.last()) {
        blank_tab_ids(tabs.drop_last()).push(tabs.last().target_id@)
    } else {
        blank_tab_ids(tabs.drop_last())
    }
}

/// The target ids of the orphaned blank tabs, in order.
pub fn blank_tabs(tabs: &Vec<TabInfo>) -> (ids: Vec<String>)
    ensures
        views(ids@) == blank_tab_ids(tabs@),
{
    let mut ids: Vec<String> = Vec::new();
    let mut i: usize = 0;
    while i < tabs.len()
        invariant
            i <= tabs@.len(),
            views(ids@) == blank_tab_ids(tabs@.subrange(0, i as int)),
        decreases tabs.len() - i,
    {
        let ghost next = tabs@.subrange(0, i + 1);
        assert(next.drop_last() =~= tabs@.subrange(0, i as int));
        assert(next.last() == tabs@[i as int]);
        let t = &tabs[i];
        if str_eq(t.url.as_str(), "about:blank") && !t.active {
            let ghost before = ids@;
            let id = t.target_id.clone();
            ids.push(id);
            assert(views(ids@) =~= views(before).push(tabs@[i as int].target_id@));
        }
        i = i + 1;
    }
    assert(tabs@.subrange(0, tabs@.len() as int) =~= tabs@);
    ids
}

/// The command line of a Chrome relaunched on the user's default profile with remote
/// debugging on `port`; it names no profile directory.
pub fn default_profile_launch_args(port: u16) -> (r: Vec<String>)
    ensures
        r@.map_values(|s: String| s@) == default_profile_launch_args_spec(port),
{
    let a = String::from_str("--remote-debugging-port=").concat(
        u64_to_string(port as u64).as_str(),
    );
    let c = String::from_str("--no-first-run");
    let d = String::from_str("--window-size=1440,900");
    let e = String::from_str("about:blank");
    let mut r: Vec<String> = Vec::new();
    r.push(a);
    r.push(c);
    r.push(d);
    r.push(e);
    assert(r@.map_values(|s: String| s@) =~= default_profile_launch_args_spec(port));
    r
}

/// The executable names looked up on Linux, in order.
pub fn linux_chrome_names() -> (r: Vec<String>)
    ensures
        r@.map_values(|s: String| s@) == seq![
            "google-chrome"@,
            "google-chrome-stable"@,
            "chromium-browser"@,
            "chromium"@,
        ],
{
    let mut r: Vec<String> = Vec::new();
    push_str(&mut r, "google-chrome");
    push_str(&mut r, "google-chrome-stable");
    push_str(&mut r, "chromium-browser");
    push_str(&mut r, "chromium");
    assert(r@.map_values(|s: String| s@) =~= seq![
        "google-chrome"@,
        "google-chrome-stable"@,
        "chromium-browser"@,
        "chromium"@,
    ]);
    r
}

/// The error when no Chrome executable could be found.
pub fn chrome_not_found() -> (e: TivanaError)
    ensures
        e matches TivanaError::Browser(m) && m@
            == "Could not find Chrome. Install Chrome or pass --chrome-path"@,
{
    TivanaError::Browser(String::from_str("Could not find Chrome. Install Chrome or pass --chrome-path"))
}

/// What the wait for a freshly started Chrome does after a readiness poll: go on when it
/// answers, give up after the last of `attempts` polls, else poll again.
#[derive(Debug)]
pub enum ReadyStep {
    Ready,
    Poll,
    GiveUp(TivanaError),
}

/// Decides after readiness poll number `attempt` (from 0) of `attempts`.
pub fn chrome_ready_step(attempt: u32, attempts: u32, ready: bool) -> (r: ReadyStep)
    ensures
        ready ==> r is Ready,
        !ready && attempt + 1 >= attempts ==> (r matches ReadyStep::GiveUp(TivanaError::Browser(m))
            && m@ == "Chrome failed to start within 20 seconds"@),
        !ready && attempt + 1 < attempts ==> r is Poll,
{
    if ready {
        ReadyStep::Ready
    } else if attempt as u64 + 1 >= attempts as u64 {
        ReadyStep::GiveUp(
            TivanaError::Browser(String::from_str("Chrome failed to start within 20 seconds")),
        )
    } else {
        ReadyStep::Poll
    }
}

/// How many times the exit of a quitting Chrome is polled (every half second).
pub const QUIT_POLLS: u32 = 40;

/// The poll after which the remaining Chrome processes are killed.
pub const FORCE_KILL_POLL: u32 = 20;

/// What follows a poll for the exit of a quitting Chrome.
#[derive(Debug, Clone, Copy, PartialEq, Eq, Structural)]
pub enum QuitStep {
    /// Every Chrome process has exited.
    Exited,
    /// Kill the remaining processes, then keep polling.
    ForceKill,
    /// Keep polling.
    Wait,
    /// The polls are used up: go on regardless.
    Stop,
}

/// Decides after quit poll number `poll` (from 0), which found no Chrome process left
/// when `exited`.
pub fn quit_step(poll: u32, exited: bool) -> (r: QuitStep)
    ensures
        r == (if exited {
            QuitStep::Exited
        } else if poll == FORCE_KILL_POLL {
            QuitStep::ForceKill
        } else if poll + 1 >= QUIT_POLLS {
            QuitStep::Stop
        } else {
            QuitStep::Wait
        }),
{
    if exited {
        QuitStep::Exited
    } else if poll == FORCE_KILL_POLL {
        QuitStep::ForceKill
    } else if poll as u64 + 1 >= QUIT_POLLS as u64 {
        QuitStep::Stop
    } else {
        QuitStep::Wait
    }
}

/// The full stealth JavaScript payload injected into every page.
pub const STEALTH_SCRIPT: &'static str = r#"
// === navigator.webdriver ===
// Delete the property entirely, then redefine as undefined
delete Object.getPrototypeOf(navigator).webdriver;
Object.defineProperty(navigator, 'webdriver', {
    get: () => undefined,
    configurable: true,
});

// === chrome.runtime ===
if (!window.chrome) { window.chrome = {}; }
if (!window.chrome.runtime) {
    window.chrome.runtime = {
        connect: function() {},
        sendMessage: function() {},
        id: undefined,
    };
}
// chrome.app for iframe contentWindow checks
if (!window.chrome.app) {
    window.chrome.app = {
        isInstalled: false,
        InstallState: { DISABLED: 'disabled', INSTALLED: 'installed', NOT_INSTALLED: 'not_installed' },
        RunningState: { CANNOT_RUN: 'cannot_run', READY_TO_RUN: 'ready_to_run', RUNNING: 'running' },
        getDetails: function() { return null; },
        getIsInstalled: function() { return false; },
    };
}

// === Permissions API ===
const _origPermQuery = navigator.permissions.query.bind(navigator.permissions);
Object.defineProperty(navigator.permissions, 'query', {
    value: (params) => {
        if (params.name === 'notifications') {
            return Promise.resolve({ state: 'prompt', onchange: null });
        }
        return _origPermQuery(params);
    },
    writable: true,
    configurable: true,
});

// === Navigator properties ===
Object.defineProperty(navigator, 'languages', {
    get: () => ['en-US', 'en'],
    configurable: true,
});
Object.defineProperty(navigator, 'hardwareConcurrency', {
    get: () => 8,
    configurable: true,
});
Object.defineProperty(navigator, 'deviceMemory', {
    get: () => 8,
    configurable: true,
});
Object.defineProperty(navigator, 'maxTouchPoints', {
    get: () => 0,
    configurable: true,
});
// Desktop Chrome removed navigator.getBattery
if (navigator.getBattery) {
    Object.defineProperty(navigator, 'getBattery', {
        get: () => undefined,
        configurable: true,
    });
}
// navigator.connection (NetworkInformation API)
Object.defineProperty(navigator, 'connection', {
    get: () => ({
        effectiveType: '4g',
        rtt: 50,
        downlink: 10,
        saveData: false,
        onchange: null,
    }),
    configurable: true,
});

// === Plugins & MimeTypes with proper prototype chain ===
(function() {
    const pluginData = [
        { name: 'PDF Viewer', filename: 'internal-pdf-viewer', description: 'Portable Document Format' },
        { name: 'Chrome PDF Plugin', filename: 'internal-pdf-viewer', description: 'Portable Document Format' },
        { name: 'Chromium PDF Plugin', filename: 'internal-pdf-viewer', description: 'Portable Document Format' },
        { name: 'Chrome PDF Viewer', filename: 'internal-pdf-viewer', description: '' },
        { name: 'Native Client', filename: 'internal-nacl-plugin', description: '' },
    ];

    const mimeTypes = [
        { type: 'application/pdf', suffixes: 'pdf', description: 'Portable Document Format' },
        { type: 'application/x-google-chrome-pdf', suffixes: 'pdf', description: 'Portable Document Format' },
    ];

    // Build fake PluginArray
    const fakePlugins = Object.create(PluginArray.prototype);
    pluginData.forEach((p, i) => {
        const plugin = Object.create(Plugin.prototype);
        Object.defineProperties(plugin, {
            name: { value: p.name, enumerable: true },
            filename: { value: p.filename, enumerable: true },
            description: { value: p.description, enumerable: true },
            length: { value: mimeTypes.length, enumerable: true },
        });
        // Index access
        mimeTypes.forEach((m, j) => {
            const mt = Object.create(MimeType.prototype);
            Object.defineProperties(mt, {
                type: { value: m.type, enumerable: true },
                suffixes: { value: m.suffixes, enumerable: true },
                description: { value: m.description, enumerable: true },
                enabledPlugin: { value: plugin, enumerable: true },
            });
            Object.defineProperty(plugin, j, { value: mt, enumerable: false });
            Object.defineProperty(plugin, m.type, { value: mt, enumerable: false });
        });
        Object.defineProperty(fakePlugins, i, { value: plugin, enumerable: true });
        Object.defineProperty(fakePlugins, p.name, { value: plugin, enumerable: false });
    });
    Object.defineProperty(fakePlugins, 'length', { value: pluginData.length, enumerable: true });
    fakePlugins.item = function(i) { return this[i] || null; };
    fakePlugins.namedItem = function(n) { return this[n] || null; };
    fakePlugins.refresh = function() {};

    Object.defineProperty(navigator, 'plugins', {
        get: () => fakePlugins,
        configurable: true,
    });

    // Build fake MimeTypeArray
    const fakeMimes = Object.create(MimeTypeArray.prototype);
    mimeTypes.forEach((m, i) => {
        const mt = Object.create(MimeType.prototype);
        Object.defineProperties(mt, {
            type: { value: m.type, enumerable: true },
            suffixes: { value: m.suffixes, enumerable: true },
            description: { value: m.description, enumerable: true },
            enabledPlugin: { value: fakePlugins[0], enumerable: true },
        });
        Object.defineProperty(fakeMimes, i, { value: mt, enumerable: true });
        Object.defineProperty(fakeMimes, m.type, { value: mt, enumerable: false });
    });
    Object.defineProperty(fakeMimes, 'length', { value: mimeTypes.length, enumerable: true });
    fakeMimes.item = function(i) { return this[i] || null; };
    fakeMimes.namedItem = function(n) { return this[n] || null; };

    Object.defineProperty(navigator, 'mimeTypes', {
        get: () => fakeMimes,
        configurable: true,
    });
})();

// === WebGL fingerprint ===
(function() {
    const getParamOrig = WebGLRenderingContext.prototype.getParameter;
    WebGLRenderingContext.prototype.getParameter = function(param) {
        // UNMASKED_VENDOR_WEBGL
        if (param === 0x9245) return 'Google Inc. (Apple)';
        // UNMASKED_RENDERER_WEBGL
        if (param === 0x9246) return 'ANGLE (Apple, Apple M1, OpenGL 4.1)';
        return getParamOrig.call(this, param);
    };
    // Also patch WebGL2 if available
    if (typeof WebGL2RenderingContext !== 'undefined') {
        const getParam2Orig = WebGL2RenderingContext.prototype.getParameter;
        WebGL2RenderingContext.prototype.getParameter = function(param) {
            if (param === 0x9245) return 'Google Inc. (Apple)';
            if (param === 0x9246) return 'ANGLE (Apple, Apple M1, OpenGL 4.1)';
            return getParam2Orig.call(this, param);
        };
    }
})();

// === Canvas fingerprint noise ===
(function() {
    // Unique per-session seed for consistent-but-unique noise
    const seed = Math.floor(Math.random() * 0xFFFFFFFF);
    function mulberry32(a) {
        return function() {
            a |= 0; a = a + 0x6D2B79F5 | 0;
            let t = Math.imul(a ^ a >>> 15, 1 | a);
            t = t + Math.imul(t ^ t >>> 7, 61 | t) ^ t;
            return ((t ^ t >>> 14) >>> 0) / 4294967296;
        };
    }
    const rng = mulberry32(seed);

    // Patch toDataURL to add subtle noise
    const origToDataURL = HTMLCanvasElement.prototype.toDataURL;
    HTMLCanvasElement.prototype.toDataURL = function() {
        try {
            const ctx = this.getContext('2d');
            if (ctx && this.width > 0 && this.height > 0) {
                const imageData = ctx.getImageData(0, 0, Math.min(this.width, 16), Math.min(this.height, 16));
                // Flip 1-2 bits in a few random pixels
                for (let i = 0; i < 4; i++) {
                    const idx = Math.floor(rng() * imageData.data.length);
                    imageData.data[idx] = imageData.data[idx] ^ 1;
                }
                ctx.putImageData(imageData, 0, 0);
            }
        } catch(e) { /* cross-origin or WebGL canvas, skip */ }
        return origToDataURL.apply(this, arguments);
    };

    // Patch toBlob similarly
    const origToBlob = HTMLCanvasElement.prototype.toBlob;
    HTMLCanvasElement.prototype.toBlob = function() {
        try {
            const ctx = this.getContext('2d');
            if (ctx && this.width > 0 && this.height > 0) {
                const imageData = ctx.getImageData(0, 0, Math.min(this.width, 16), Math.min(this.height, 16));
                for (let i = 0; i < 4; i++) {
                    const idx = Math.floor(rng() * imageData.data.length);
                    imageData.data[idx] = imageData.data[idx] ^ 1;
                }
                ctx.putImageData(imageData, 0, 0);
            }
        } catch(e) {}
        return origToBlob.apply(this, arguments);
    };

    // Patch getImageData to add 1-bit noise to random pixels
    const origGetImageData = CanvasRenderingContext2D.prototype.getImageData;
    CanvasRenderingContext2D.prototype.getImageData = function() {
        const imageData = origGetImageData.apply(this, arguments);
        // Flip the LSB of 2-4 random pixel components
        const numFlips = 2 + Math.floor(rng() * 3);
        for (let i = 0; i < numFlips; i++) {
            const idx = Math.floor(rng() * imageData.data.length);
            imageData.data[idx] = imageData.data[idx] ^ 1;
        }
        return imageData;
    };
})();

// === AudioContext fingerprint noise ===
(function() {
    // Add tiny frequency variations to oscillators
    if (typeof OscillatorNode !== 'undefined') {
        const origSetValue = Object.getOwnPropertyDescriptor(AudioParam.prototype, 'value');
        if (origSetValue && origSetValue.set) {
            const origSetter = origSetValue.set;
            Object.defineProperty(AudioParam.prototype, 'value', {
                get: origSetValue.get,
                set: function(val) {
                    // Add ±0.001% noise to frequency values
                    if (typeof val === 'number' && val > 0) {
                        val = val * (1 + (Math.random() - 0.5) * 0.00002);
                    }
                    origSetter.call(this, val);
                },
                configurable: true,
                enumerable: true,
            });
        }
    }

    // Patch OfflineAudioContext.startRendering to add subtle noise to output
    if (typeof OfflineAudioContext !== 'undefined') {
        const origStartRendering = OfflineAudioContext.prototype.startRendering;
        OfflineAudioContext.prototype.startRendering = function() {
            return origStartRendering.apply(this, arguments).then(function(buffer) {
                // Add tiny noise to the first channel
                try {
                    const data = buffer.getChannelData(0);
                    for (let i = 0; i < Math.min(data.length, 100); i++) {
                        data[i] += (Math.random() - 0.5) * 0.0000001;
                    }
                } catch(e) {}
                return buffer;
            });
        };
    }
})();

// === iframe contentWindow protection ===
// Ensure iframes don't leak automation signals through contentWindow
(function() {
    const origContentWindow = Object.getOwnPropertyDescriptor(HTMLIFrameElement.prototype, 'contentWindow');
    if (origContentWindow && origContentWindow.get) {
        Object.defineProperty(HTMLIFrameElement.prototype, 'contentWindow', {
            get: function() {
                const win = origContentWindow.get.call(this);
                // For same-origin iframes, ensure chrome object is consistent
                try {
                    if (win && win.chrome === undefined) {
                        win.chrome = window.chrome;
                    }
                } catch(e) { /* cross-origin, expected */ }
                return win;
            },
            configurable: true,
        });
    }
})();
"#;

/// Returns the full stealth JavaScript payload.
/// Every Tivana session gets this — no flags, no config.
pub fn get_stealth_script() -> (s: String)
    ensures
        s@ == STEALTH_SCRIPT@,
{
    String::from_str(STEALTH_SCRIPT)
}

} // verus!
