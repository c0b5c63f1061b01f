//! Zero-config CAPTCHA detection and solving decisions.
//!
//! Supports reCAPTCHA v2/v3, hCaptcha, and Cloudflare Turnstile. Strategy:
//! 1. Stealth solve — click the checkbox (works when fingerprint is trusted)
//! 2. Audio solve — transcribe the audio challenge with Whisper (reCAPTCHA v2)
//!
//! This module reads what the page scripts report, picks the route, words the
//! outcome, and sequences the attempts to run Whisper; the driver clicks, waits,
//! downloads and runs the commands.

use vstd::prelude::*;
use crate::error::{code_name, ErrorCode, ProtocolError};
use crate::json::JsonValue;
use crate::perceive::opt_view;
use crate::text::{is_unicode_whitespace, is_whitespace, str_eq};

verus! {

/// Types of CAPTCHA that can be detected
#[derive(Debug, Clone, Copy, PartialEq, Eq, Structural)]
pub enum CaptchaType {
    RecaptchaV2,
    RecaptchaV3,
    HCaptcha,
    Turnstile,
    NoCaptcha,
}

/// The name of a CAPTCHA type as the detection script and responses write it.
pub open spec fn captcha_type_name(t: CaptchaType) -> Seq<char> {
    match t {
        CaptchaType::RecaptchaV2 => "recaptcha_v2"@,
        CaptchaType::RecaptchaV3 => "recaptcha_v3"@,
        CaptchaType::HCaptcha => "hcaptcha"@,
        CaptchaType::Turnstile => "turnstile"@,
        CaptchaType::NoCaptcha => "none"@,
    }
}

/// The CAPTCHA type a detection reports: a known name, else none.
pub open spec fn captcha_type_of(name: Option<Seq<char>>) -> CaptchaType {
    match name {
        Some(n) => if n == "recaptcha_v2"@ {
            CaptchaType::RecaptchaV2
        } else if n == "recaptcha_v3"@ {
            CaptchaType::RecaptchaV3
        } else if n == "hcaptcha"@ {
            CaptchaType::HCaptcha
        } else if n == "turnstile"@ {
            CaptchaType::Turnstile
        } else {
            CaptchaType::NoCaptcha
        },
        None => CaptchaType::NoCaptcha,
    }
}

impl CaptchaType {
    /// The type's wire name ("recaptcha_v2", "recaptcha_v3", "hcaptcha", "turnstile", "none").
    pub fn wire_name(self) -> (s: String)
        ensures
            s@ == captcha_type_name(self),
    {
        match self {
            CaptchaType::RecaptchaV2 => String::from_str("recaptcha_v2"),
            CaptchaType::RecaptchaV3 => String::from_str("recaptcha_v3"),
            CaptchaType::HCaptcha => String::from_str("hcaptcha"),
            CaptchaType::Turnstile => String::from_str("turnstile"),
            CaptchaType::NoCaptcha => String::from_str("none"),
        }
    }
}

/// Information about a detected CAPTCHA
#[derive(Debug)]
pub struct CaptchaInfo {
    pub captcha_type: CaptchaType,
    pub sitekey: Option<String>,
    pub iframe_selector: Option<String>,
    pub is_visible: bool,
}

/// Result of a CAPTCHA solve attempt
#[derive(Debug)]
pub struct CaptchaSolveResult {
    pub solved: bool,
    pub method: String,
    pub duration_ms: u64,
    pub error: Option<String>,
}

/// Zero-config CAPTCHA solver
pub struct CaptchaSolver;

/// The CAPTCHA information in what the detection script reports.
pub fn captcha_info_from(report: &JsonValue) -> (info: CaptchaInfo)
    ensures
        info.captcha_type == captcha_type_of(report.str_member("type"@)),
        opt_view(info.sitekey) == report.str_member("sitekey"@),
        opt_view(info.iframe_selector) == report.str_member("iframeSelector"@),
        info.is_visible == (report.bool_member("isVisible"@) == Some(true)),
{
    let captcha_type = match report.get_str("type") {
        Some(t) => {
            let n = t.as_str();
            if str_eq(n, "recaptcha_v2") {
                CaptchaType::RecaptchaV2
            } else if str_eq(n, "recaptcha_v3") {
                CaptchaType::RecaptchaV3
            } else if str_eq(n, "hcaptcha") {
                CaptchaType::HCaptcha
            } else if str_eq(n, "turnstile") {
                CaptchaType::Turnstile
            } else {
                CaptchaType::NoCaptcha
            }
        },
        None => CaptchaType::NoCaptcha,
    };
    CaptchaInfo {
        captcha_type,
        sitekey: report.get_str("sitekey"),
        iframe_selector: report.get_str("iframeSelector"),
        is_visible: match report.get_bool("isVisible") {
            Some(b) => b,
            None => false,
        },
    }
}

/// A detection report's type name is read as the CAPTCHA type of that name, and only
/// that one: for every CAPTCHA type, a report names it exactly when its type text is
/// the type's wire name (any other text means no CAPTCHA).
pub proof fn law_reported_type_round_trips(name: Seq<char>, t: CaptchaType)
    requires
        t != CaptchaType::NoCaptcha,
    ensures
        captcha_type_of(Some(name)) == t <==> name == captcha_type_name(t),
        captcha_type_of(Some(name)) != CaptchaType::NoCaptcha ==> captcha_type_name(
            captcha_type_of(Some(name)),
        ) == name,
{
    reveal_strlit("recaptcha_v2");
    reveal_strlit("recaptcha_v3");
    reveal_strlit("hcaptcha");
    reveal_strlit("turnstile");
    assert("recaptcha_v2"@.len() == 12 && "recaptcha_v3"@.len() == 12 && "hcaptcha"@.len() == 8
        && "turnstile"@.len() == 9);
    assert("recaptcha_v2"@[11] != "recaptcha_v3"@[11]);
}

/// A finished solve attempt: solved, or not with the given reason.
pub fn solve_outcome(method: &str, solved: bool, failure: &str, duration_ms: u64) -> (r: CaptchaSolveResult)
    ensures
        r.solved == solved,
        r.method@ == method@,
        r.duration_ms == duration_ms,
        solved ==> r.error is None,
        !solved ==> opt_view(r.error) == Some(failure@),
{
    CaptchaSolveResult {
        solved,
        method: String::from_str(method),
        duration_ms,
        error: if solved {
            None
        } else {
            Some(String::from_str(failure))
        },
    }
}

/// A solve attempt that stopped on a problem: a prefix and the problem's text.
pub fn solve_failure(method: &str, prefix: &str, problem: &str, duration_ms: u64) -> (r: CaptchaSolveResult)
    ensures
        !r.solved,
        r.method@ == method@,
        r.duration_ms == duration_ms,
        opt_view(r.error) == Some(prefix@ + problem@),
{
    CaptchaSolveResult {
        solved: false,
        method: String::from_str(method),
        duration_ms,
        error: Some(String::from_str(prefix).concat(problem)),
    }
}

/// What solving does for a detected CAPTCHA.
#[derive(Debug)]
pub enum SolveRoute {
    /// Nothing to solve, or solved by the stealth patches alone: this is the result.
    Done(CaptchaSolveResult),
    /// Stealth click on the reCAPTCHA v2 checkbox, then the audio challenge.
    RecaptchaV2,
    /// Stealth click on the hCaptcha checkbox.
    HCaptcha,
    /// Click on the Turnstile widget.
    Turnstile,
}

/// Picks how to solve a detected CAPTCHA: none is solved at once ("none"), reCAPTCHA v3
/// is score-based and invisible, so the stealth patches solve it ("stealth"); the others
/// need clicks.
pub fn solve_route(info: &CaptchaInfo, duration_ms: u64) -> (r: SolveRoute)
    ensures
        info.captcha_type == CaptchaType::NoCaptcha ==> (r matches SolveRoute::Done(res) && res.solved
            && res.method@ == "none"@ && res.duration_ms == duration_ms && res.error is None),
        info.captcha_type == CaptchaType::RecaptchaV3 ==> (r matches SolveRoute::Done(res)
            && res.solved && res.method@ == "stealth"@ && res.duration_ms == duration_ms
            && res.error is None),
        info.captcha_type == CaptchaType::RecaptchaV2 ==> r is RecaptchaV2,
        info.captcha_type == CaptchaType::HCaptcha ==> r is HCaptcha,
        info.captcha_type == CaptchaType::Turnstile ==> r is Turnstile,
{
    match info.captcha_type {
        CaptchaType::NoCaptcha => SolveRoute::Done(solve_outcome("none", true, "", duration_ms)),
        CaptchaType::RecaptchaV3 => SolveRoute::Done(solve_outcome("stealth", true, "", duration_ms)),
        CaptchaType::RecaptchaV2 => SolveRoute::RecaptchaV2,
        CaptchaType::HCaptcha => SolveRoute::HCaptcha,
        CaptchaType::Turnstile => SolveRoute::Turnstile,
    }
}

/// The problem a page script reports in its `error` member, if any.
pub fn reported_error(answer: &JsonValue) -> (r: Option<String>)
    ensures
        opt_view(r) == answer.str_member("error"@),
{
    answer.get_str("error")
}

/// The display text of a protocol error, as solve results quote it.
pub open spec fn protocol_error_text(e: ProtocolError) -> Seq<char> {
    "["@ + code_name(e.code) + "] "@ + e.message@
}

/// The result when the reCAPTCHA checkbox could not be clicked.
pub fn checkbox_not_located(e: &ProtocolError, duration_ms: u64) -> (r: CaptchaSolveResult)
    ensures
        !r.solved,
        r.method@ == "stealth"@,
        r.duration_ms == duration_ms,
        opt_view(r.error) == Some("Could not locate reCAPTCHA checkbox: "@ + protocol_error_text(*e)),
{
    let text = e.to_string();
    solve_failure("stealth", "Could not locate reCAPTCHA checkbox: ", text.as_str(), duration_ms)
}

/// The text with leading and trailing whitespace removed, as `str::trim` does.
pub open spec fn trimmed(s: Seq<char>, start: int, end: int) -> bool {
    &&& 0 <= start <= end <= s.len()
    &&& forall|i: int| 0 <= i < start ==> is_unicode_whitespace(#[trigger] s[i])
    &&& forall|i: int| end <= i < s.len() ==> is_unicode_whitespace(#[trigger] s[i])
    &&& start < end ==> !is_unicode_whitespace(s[start]) && !is_unicode_whitespace(s[end - 1])
    &&& start == end ==> start == 0
}

/// Removes leading and trailing whitespace.
pub fn trim_text(text: &str) -> (r: String)
    ensures
        exists|start: int, end: int| #[trigger] trimmed(text@, start, end) && r@ == text@.subrange(start, end),
{
    let n = text.unicode_len();
    let mut start: usize = 0;
    while start < n && is_whitespace(text.get_char(start))
        invariant
            n == text@.len(),
            start <= n,
            forall|i: int| 0 <= i < start ==> is_unicode_whitespace(#[trigger] text@[i]),
        decreases n - start,
    {
        start = start + 1;
    }
    if start == n {
        proof {
            reveal_strlit("");
            assert(trimmed(text@, 0, 0));
            assert(text@.subrange(0, 0) =~= ""@);
        }
        return String::from_str("");
    }
    let mut end: usize = n;
    while end > start && is_whitespace(text.get_char(end - 1))
        invariant
            n == text@.len(),
            start < n,
            start <= end <= n,
            !is_unicode_whitespace(text@[start as int]),
            forall|i: int| end <= i < n ==> is_unicode_whitespace(#[trigger] text@[i]),
        decreases end - start,
    {
        end = end - 1;
    }
    let r = text.substring_char(start, end);
    proof {
        assert(trimmed(text@, start as int, end as int));
    }
    r.to_string()
}

/// The steps of running Whisper: its command-line tool, else its Python module, else
/// installing it and running the tool once more.
#[derive(Debug, Clone, Copy, PartialEq, Eq, Structural)]
pub enum WhisperStage {
    Cli,
    PythonModule,
    Install,
    CliAfterInstall,
}

/// What follows a Whisper step.
#[derive(Debug)]
pub enum WhisperNext {
    /// The transcript was read.
    Done,
    /// Go on with this step.
    Then(WhisperStage),
    /// Whisper cannot be had.
    GiveUp(ProtocolError),
}

/// The step after one that succeeded (a transcript read, or the install done) or failed.
pub fn whisper_next(stage: WhisperStage, succeeded: bool) -> (r: WhisperNext)
    ensures
        match stage {
            WhisperStage::Cli => if succeeded {
                r is Done
            } else {
                r == WhisperNext::Then(WhisperStage::PythonModule)
            },
            WhisperStage::PythonModule => if succeeded {
                r is Done
            } else {
                r == WhisperNext::Then(WhisperStage::Install)
            },
            WhisperStage::Install => if succeeded {
                r == WhisperNext::Then(WhisperStage::CliAfterInstall)
            } else {
                r matches WhisperNext::GiveUp(e) && e.code == ErrorCode::InternalError
                    && e.message@ == "Whisper not available. Install with: pip install openai-whisper"@
                    && e.data is None
            },
            WhisperStage::CliAfterInstall => if succeeded {
                r is Done
            } else {
                r matches WhisperNext::GiveUp(e) && e.code == ErrorCode::InternalError
                    && e.message@ == "Whisper not available. Install with: pip install openai-whisper"@
                    && e.data is None
            },
        },
{
    match stage {
        WhisperStage::Cli => if succeeded {
            WhisperNext::Done
        } else {
            WhisperNext::Then(WhisperStage::PythonModule)
        },
        WhisperStage::PythonModule => if succeeded {
            WhisperNext::Done
        } else {
            WhisperNext::Then(WhisperStage::Install)
        },
        WhisperStage::Install => if succeeded {
            WhisperNext::Then(WhisperStage::CliAfterInstall)
        } else {
            WhisperNext::GiveUp(
                ProtocolError::internal(
                    String::from_str("Whisper not available. Install with: pip install openai-whisper"),
                ),
            )
        },
        WhisperStage::CliAfterInstall => if succeeded {
            WhisperNext::Done
        } else {
            WhisperNext::GiveUp(
                ProtocolError::internal(
                    String::from_str("Whisper not available. Install with: pip install openai-whisper"),
                ),
            )
        },
    }
}

/// The arguments that transcribe an audio file with Whisper's base English model into
/// a text file in `output_dir`.
pub open spec fn whisper_args_spec(audio: Seq<char>, output_dir: Seq<char>) -> Seq<Seq<char>> {
    seq![
        audio,
        "--model"@,
        "base"@,
        "--output_format"@,
        "txt"@,
        "--output_dir"@,
        output_dir,
        "--language"@,
        "en"@,
    ]
}

/// The program and arguments of a Whisper step.
pub fn whisper_command(stage: WhisperStage, audio: &str, output_dir: &str) -> (r: (String, Vec<String>))
    ensures
        r.0@ == (match stage {
            WhisperStage::Cli | WhisperStage::CliAfterInstall => "whisper"@,
            WhisperStage::PythonModule => "python3"@,
            WhisperStage::Install => "pip3"@,
        }),
        r.1@.map_values(|s: String| s@) == (match stage {
            WhisperStage::Cli | WhisperStage::CliAfterInstall => whisper_args_spec(audio@, output_dir@),
            WhisperStage::PythonModule => seq!["-m"@, "whisper"@] + whisper_args_spec(audio@, output_dir@),
            WhisperStage::Install => seq!["install"@, "-q"@, "openai-whisper"@],
        }),
{
    let mut args: Vec<String> = Vec::new();
    match stage {
        WhisperStage::Install => {
            args.push(String::from_str("install"));
            args.push(String::from_str("-q"));
            args.push(String::from_str("openai-whisper"));
            assert(args@.map_values(|s: String| s@) =~= seq!["install"@, "-q"@, "openai-whisper"@]);
            return (String::from_str("pip3"), args);
        },
        WhisperStage::PythonModule => {
            args.push(String::from_str("-m"));
            args.push(String::from_str("whisper"));
        },
        _ => {},
    }
    let ghost before = args@.map_values(|s: String| s@);
    args.push(String::from_str(audio));
    args.push(String::from_str("--model"));
    args.push(String::from_str("base"));
    args.push(String::from_str("--output_format"));
    args.push(String::from_str("txt"));
    args.push(String::from_str("--output_dir"));
    args.push(String::from_str(output_dir));
    args.push(String::from_str("--language"));
    args.push(String::from_str("en"));
    assert(args@.map_values(|s: String| s@) =~= before + whisper_args_spec(audio@, output_dir@));
    let program = match stage {
        WhisperStage::PythonModule => String::from_str("python3"),
        _ => String::from_str("whisper"),
    };
    (program, args)
}

/// Page script: the CAPTCHA on the page (type, sitekey, iframe selector, visibility).
pub const DETECT_CAPTCHA_JS: &'static str = r#"(() => {
  const result = { type: 'none', sitekey: null, iframeSelector: null, isVisible: false };
  const visible = (el) => { const r = el.getBoundingClientRect(); return r.width > 0 && r.height > 0; };
  const anchor = document.querySelector('iframe[src*="google.com/recaptcha/api2/anchor"], iframe[src*="recaptcha/enterprise/anchor"]');
  if (anchor) {
    result.type = 'recaptcha_v2';
    const k = anchor.src.match(/[?&]k=([^&]+)/);
    if (k) result.sitekey = k[1];
    result.iframeSelector = 'iframe[src*="recaptcha/api2/anchor"], iframe[src*="recaptcha/enterprise/anchor"]';
    result.isVisible = visible(anchor);
    return result;
  }
  const g = document.querySelector('.g-recaptcha[data-sitekey]');
  if (g) {
    result.type = 'recaptcha_v2'; result.sitekey = g.getAttribute('data-sitekey');
    result.iframeSelector = '.g-recaptcha'; result.isVisible = visible(g);
    return result;
  }
  const v3 = document.querySelector('script[src*="recaptcha/api.js"][src*="render="]');
  if (v3) {
    result.type = 'recaptcha_v3';
    const m = v3.src.match(/render=([^&]+)/);
    if (m) result.sitekey = m[1];
    return result;
  }
  const hc = document.querySelector('iframe[src*="hcaptcha.com"]');
  if (hc) {
    result.type = 'hcaptcha';
    const d = document.querySelector('.h-captcha[data-sitekey]');
    if (d) result.sitekey = d.getAttribute('data-sitekey');
    result.iframeSelector = 'iframe[src*="hcaptcha.com"]'; result.isVisible = visible(hc);
    return result;
  }
  const ts = document.querySelector('script[src*="challenges.cloudflare.com/turnstile"]');
  const ti = document.querySelector('iframe[src*="challenges.cloudflare.com"]');
  const td = document.querySelector('.cf-turnstile[data-sitekey]');
  if (ts || ti || td) {
    result.type = 'turnstile';
    if (td) result.sitekey = td.getAttribute('data-sitekey');
    if (ti) { result.iframeSelector = 'iframe[src*="challenges.cloudflare.com"]'; result.isVisible = visible(ti); }
    else if (td) { result.iframeSelector = '.cf-turnstile'; result.isVisible = visible(td); }
    return result;
  }
  return result;
})()"#;

/// Page script: the reCAPTCHA anchor iframe's rectangle, or an error.
pub const RECAPTCHA_STEALTH_CLICK_JS: &'static str = r#"(() => {
  const iframe = document.querySelector('iframe[src*="google.com/recaptcha/api2/anchor"], iframe[src*="recaptcha/enterprise/anchor"]');
  if (!iframe) return { error: 'anchor iframe not found' };
  const rect = iframe.getBoundingClientRect();
  if (rect.width === 0 || rect.height === 0) return { error: 'iframe not visible' };
  return { x: rect.left, y: rect.top, width: rect.width, height: rect.height };
})()"#;

/// Page script: the reCAPTCHA anchor iframe's bounds.
pub const GET_RECAPTCHA_IFRAME_BOUNDS_JS: &'static str = r#"(() => {
  const iframe = document.querySelector('iframe[src*="google.com/recaptcha/api2/anchor"], iframe[src*="recaptcha/enterprise/anchor"]');
  if (!iframe) return { error: 'not found' };
  const rect = iframe.getBoundingClientRect();
  return { x: rect.left, y: rect.top, width: rect.width, height: rect.height };
})()"#;

/// Page script: whether the reCAPTCHA response is filled in.
pub const CHECK_RECAPTCHA_SOLVED_JS: &'static str = r#"(() => {
  const t = document.querySelector('#g-recaptcha-response, [name="g-recaptcha-response"]');
  if (t && t.value && t.value.length > 0) return true;
  const iframe = document.querySelector('iframe[src*="google.com/recaptcha/api2/anchor"], iframe[src*="recaptcha/enterprise/anchor"]');
  if (iframe) { try { const d = iframe.contentDocument;
    if (d && d.querySelector('.recaptcha-checkbox-checked, #recaptcha-anchor[aria-checked="true"]')) return true; } catch (e) {} }
  return false;
})()"#;

/// Page script: where the audio button of the reCAPTCHA challenge is, or an error.
pub const RECAPTCHA_CLICK_AUDIO_JS: &'static str = r#"(() => {
  const b = document.querySelector('iframe[src*="recaptcha/api2/bframe"], iframe[src*="recaptcha/enterprise/bframe"]');
  if (!b) return { error: 'bframe not found' };
  const r = b.getBoundingClientRect();
  if (r.width === 0 || r.height === 0) return { error: 'bframe not visible' };
  return { x: r.left + 55, y: r.top + 310, frameX: r.left, frameY: r.top, frameWidth: r.width, frameHeight: r.height };
})()"#;

/// Page script: the audio challenge's source URL (empty when unreachable).
pub const GET_RECAPTCHA_AUDIO_URL_JS: &'static str = r#"(() => {
  const b = document.querySelector('iframe[src*="recaptcha/api2/bframe"], iframe[src*="recaptcha/enterprise/bframe"]');
  if (!b) return '';
  try { const d = b.contentDocument;
    if (d) { const a = d.querySelector('#audio-source, audio source, .rc-audiochallenge-tdownload-link'); if (a) return a.src || a.href || ''; } } catch (e) {}
  return '';
})()"#;

/// Page script: the challenge frame and the audio answer field's position.
pub const GET_RECAPTCHA_BFRAME_BOUNDS_JS: &'static str = r#"(() => {
  const b = document.querySelector('iframe[src*="recaptcha/api2/bframe"], iframe[src*="recaptcha/enterprise/bframe"]');
  if (!b) return { error: 'bframe not found' };
  const r = b.getBoundingClientRect();
  return { frameX: r.left, frameY: r.top, inputX: r.left + r.width / 2, inputY: r.top + 200, verifyX: r.left + r.width / 2, verifyY: r.top + 280 };
})()"#;

/// Page script: the position of the challenge's verify button.
pub const GET_RECAPTCHA_VERIFY_BOUNDS_JS: &'static str = r#"(() => {
  const b = document.querySelector('iframe[src*="recaptcha/api2/bframe"], iframe[src*="recaptcha/enterprise/bframe"]');
  if (!b) return { error: 'bframe not found' };
  const r = b.getBoundingClientRect();
  return { x: r.left + r.width - 80, y: r.top + r.height - 35 };
})()"#;

/// Page script: the hCaptcha iframe's bounds, or an error.
pub const GET_HCAPTCHA_BOUNDS_JS: &'static str = r#"(() => {
  const iframe = document.querySelector('iframe[src*="hcaptcha.com/captcha"]') || document.querySelector('.h-captcha iframe');
  if (!iframe) return { error: 'hCaptcha iframe not found' };
  const r = iframe.getBoundingClientRect();
  return { x: r.left, y: r.top, width: r.width, height: r.height };
})()"#;

/// Page script: whether the hCaptcha response is filled in.
pub const CHECK_HCAPTCHA_SOLVED_JS: &'static str = r#"(() => {
  const t = document.querySelector('[name="h-captcha-response"], [name="g-recaptcha-response"]');
  if (t && t.value && t.value.length > 0) return true;
  const iframe = document.querySelector('iframe[src*="hcaptcha.com"]');
  if (iframe) { try { const d = iframe.contentDocument; if (d && d.querySelector('[aria-checked="true"]')) return true; } catch (e) {} }
  return false;
})()"#;

/// Page script: the Turnstile widget's bounds, or an error.
pub const GET_TURNSTILE_BOUNDS_JS: &'static str = r#"(() => {
  const iframe = document.querySelector('iframe[src*="challenges.cloudflare.com"]');
  if (iframe) { const r = iframe.getBoundingClientRect(); if (r.width > 0 && r.height > 0) return { x: r.left, y: r.top, width: r.width, height: r.height }; }
  const c = document.querySelector('.cf-turnstile');
  if (c) { const r = c.getBoundingClientRect(); return { x: r.left, y: r.top, width: r.width, height: r.height }; }
  return { error: 'Turnstile widget not found' };
})()"#;

/// Page script: whether the Turnstile response is filled in.
pub const CHECK_TURNSTILE_SOLVED_JS: &'static str = r#"(() => {
  const input = document.querySelector('[name="cf-turnstile-response"]');
  if (input && input.value && input.value.length > 0) return true;
  const c = document.querySelector('.cf-turnstile');
  if (c && c.getAttribute('data-status') === 'solved') return true;
  if (window.turnstile) { try { for (const w of document.querySelectorAll('.cf-turnstile')) {
    const id = w.getAttribute('data-widget-id');
    if (id) { const resp = window.turnstile.getResponse(id); if (resp && resp.length > 0) return true; } } } catch (e) {} }
  return false;
})()"#;

} // verus!
