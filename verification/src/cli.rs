//! Command-line options of the runtime.

use vstd::prelude::*;

verus! {

/// Tivana - Streaming browser perception protocol for AI agents
#[derive(Debug)]
pub struct Args {
    /// Port to run the WebSocket server on
    pub port: u16,
    /// Run browser in headless mode
    pub headless: bool,
    /// Run browser in headed mode (visible window)
    pub headed: bool,
    /// Path to Chrome/Chromium executable
    pub chrome_path: Option<std::path::PathBuf>,
    /// Host to bind the WebSocket server to
    pub host: String,
    /// Connect to an existing Chrome (a debugging port or a ws:// URL)
    pub connect: Option<String>,
    /// Use the default browser profile (highest reCAPTCHA trust)
    pub use_default_browser: bool,
    /// Chrome user data directory
    pub user_data_dir: Option<std::path::PathBuf>,
}

impl Default for Args {
    /// The values the command line takes when no option is given.
    fn default() -> (a: Self)
        ensures
            a.port == 9876,
            !a.headless,
            a.headed,
            a.chrome_path is None,
            a.host@ == "127.0.0.1"@,
            a.connect is None,
            !a.use_default_browser,
            a.user_data_dir is None,
    {
        Args {
            port: 9876,
            headless: false,
            headed: true,
            chrome_path: None,
            host: String::from_str("127.0.0.1"),
            connect: None,
            use_default_browser: false,
            user_data_dir: None,
        }
    }
}

impl Args {
    /// Returns true if browser should run in headless mode
    pub fn is_headless(&self) -> (b: bool)
        ensures
            b == (self.headless || !self.headed),
    {
        self.headless || !self.headed
    }
}

} // verus!
