use tivana::captcha::{
    captcha_info_from, checkbox_not_located, reported_error, solve_failure, solve_outcome, solve_route,
    trim_text, whisper_command, whisper_next, CaptchaInfo, CaptchaType, SolveRoute, WhisperNext, WhisperStage,
};
use tivana::error::{ErrorCode, ProtocolError};
use tivana::json::JsonValue;

fn s(x: &str) -> JsonValue {
    JsonValue::Str(x.to_string())
}

fn obj(entries: Vec<(&str, JsonValue)>) -> JsonValue {
    JsonValue::Object(entries.into_iter().map(|(k, v)| (k.to_string(), v)).collect())
}

#[test]
fn test_all_captcha_types() {
    let types = vec![
        (CaptchaType::RecaptchaV2, "recaptcha_v2"),
        (CaptchaType::RecaptchaV3, "recaptcha_v3"),
        (CaptchaType::HCaptcha, "hcaptcha"),
        (CaptchaType::Turnstile, "turnstile"),
        (CaptchaType::NoCaptcha, "none"),
    ];
    for (captcha_type, expected) in types {
        assert_eq!(captcha_type.wire_name(), expected);
    }
}

#[test]
fn detection_reports() {
    let info = captcha_info_from(&obj(vec![("type", s("recaptcha_v2")), ("sitekey", s("6LcX")), ("isVisible", JsonValue::Bool(true))]));
    assert_eq!(info.captcha_type, CaptchaType::RecaptchaV2);
    assert_eq!(info.sitekey, Some("6LcX".to_string()));
    assert!(info.iframe_selector.is_none());
    assert!(info.is_visible);
    let none = captcha_info_from(&obj(vec![("type", s("mystery"))]));
    assert_eq!(none.captcha_type, CaptchaType::NoCaptcha);
    assert!(!none.is_visible);
    assert_eq!(captcha_info_from(&obj(vec![("type", s("turnstile"))])).captcha_type, CaptchaType::Turnstile);
    assert_eq!(captcha_info_from(&obj(vec![("type", s("hcaptcha"))])).captcha_type, CaptchaType::HCaptcha);
}

#[test]
fn solve_routes() {
    let info = |t| CaptchaInfo { captcha_type: t, sitekey: None, iframe_selector: None, is_visible: false };
    match solve_route(&info(CaptchaType::NoCaptcha), 5) {
        SolveRoute::Done(r) => {
            assert!(r.solved);
            assert_eq!(r.method, "none");
            assert_eq!(r.duration_ms, 5);
            assert!(r.error.is_none());
        }
        _ => panic!("expected done"),
    }
    match solve_route(&info(CaptchaType::RecaptchaV3), 7) {
        SolveRoute::Done(r) => assert_eq!(r.method, "stealth"),
        _ => panic!("expected done"),
    }
    assert!(matches!(solve_route(&info(CaptchaType::RecaptchaV2), 0), SolveRoute::RecaptchaV2));
    assert!(matches!(solve_route(&info(CaptchaType::HCaptcha), 0), SolveRoute::HCaptcha));
    assert!(matches!(solve_route(&info(CaptchaType::Turnstile), 0), SolveRoute::Turnstile));
}

#[test]
fn solve_results() {
    let r = solve_outcome("stealth", false, "Turnstile challenge not resolved", 4000);
    assert!(!r.solved);
    assert_eq!(r.error, Some("Turnstile challenge not resolved".to_string()));
    assert!(solve_outcome("audio", true, "ignored", 1).error.is_none());
    let f = solve_failure("stealth", "hCaptcha iframe not found: ", "no iframe", 10);
    assert_eq!(f.error, Some("hCaptcha iframe not found: no iframe".to_string()));
    let c = checkbox_not_located(&ProtocolError::internal("No x coordinate for reCAPTCHA iframe".to_string()), 3);
    assert_eq!(c.error, Some("Could not locate reCAPTCHA checkbox: [InternalError] No x coordinate for reCAPTCHA iframe".to_string()));
    assert_eq!(reported_error(&obj(vec![("error", s("no frame"))])), Some("no frame".to_string()));
    assert_eq!(reported_error(&obj(vec![])), None);
}

#[test]
fn whisper_steps() {
    assert!(matches!(whisper_next(WhisperStage::Cli, true), WhisperNext::Done));
    assert!(matches!(whisper_next(WhisperStage::Cli, false), WhisperNext::Then(WhisperStage::PythonModule)));
    assert!(matches!(whisper_next(WhisperStage::PythonModule, false), WhisperNext::Then(WhisperStage::Install)));
    assert!(matches!(whisper_next(WhisperStage::Install, true), WhisperNext::Then(WhisperStage::CliAfterInstall)));
    match whisper_next(WhisperStage::CliAfterInstall, false) {
        WhisperNext::GiveUp(e) => {
            assert_eq!(e.code, ErrorCode::InternalError);
            assert_eq!(e.message, "Whisper not available. Install with: pip install openai-whisper");
        }
        _ => panic!("expected give up"),
    }
    let (program, args) = whisper_command(WhisperStage::PythonModule, "/tmp/a.mp3", "/tmp");
    assert_eq!(program, "python3");
    assert_eq!(args, vec!["-m", "whisper", "/tmp/a.mp3", "--model", "base", "--output_format", "txt", "--output_dir", "/tmp", "--language", "en"]);
    let (program, args) = whisper_command(WhisperStage::Install, "/tmp/a.mp3", "/tmp");
    assert_eq!(program, "pip3");
    assert_eq!(args, vec!["install", "-q", "openai-whisper"]);
    assert_eq!(whisper_command(WhisperStage::Cli, "a", "b").0, "whisper");
}

#[test]
fn transcripts_are_trimmed() {
    assert_eq!(trim_text("  hello world \n"), "hello world");
    assert_eq!(trim_text("\t\n "), "");
    assert_eq!(trim_text("x"), "x");
    assert_eq!(trim_text("\u{3000}42\u{a0}"), "42");
}
