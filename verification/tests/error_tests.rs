use tivana::error::{ErrorCode, ProtocolError, TivanaError};
use tivana::json::JsonValue;

#[test]
fn test_error_codes() {
    assert_eq!(ErrorCode::InvalidMessage.as_i32(), 1001);
    assert_eq!(ErrorCode::TargetNotFound.as_i32(), 4001);
}

#[test]
fn test_error_display() {
    let err = ProtocolError::session_not_found("abc123");
    let display = err.to_string();
    assert!(display.contains("abc123"));
}

#[test]
fn all_error_codes_and_names() {
    let cases = vec![
        (ErrorCode::InvalidMessage, 1001, "InvalidMessage"),
        (ErrorCode::MissingField, 1002, "MissingField"),
        (ErrorCode::InvalidField, 1003, "InvalidField"),
        (ErrorCode::UnknownMethod, 1004, "UnknownMethod"),
        (ErrorCode::SessionNotFound, 2001, "SessionNotFound"),
        (ErrorCode::SessionClosed, 2002, "SessionClosed"),
        (ErrorCode::SessionExists, 2003, "SessionExists"),
        (ErrorCode::InvalidSessionState, 2004, "InvalidSessionState"),
        (ErrorCode::BrowserLaunchFailed, 3001, "BrowserLaunchFailed"),
        (ErrorCode::BrowserCrashed, 3002, "BrowserCrashed"),
        (ErrorCode::BrowserDisconnected, 3003, "BrowserDisconnected"),
        (ErrorCode::NavigationFailed, 3004, "NavigationFailed"),
        (ErrorCode::TargetNotFound, 4001, "TargetNotFound"),
        (ErrorCode::TargetAmbiguous, 4002, "TargetAmbiguous"),
        (ErrorCode::ActionFailed, 4003, "ActionFailed"),
        (ErrorCode::ActionTimeout, 4004, "ActionTimeout"),
        (ErrorCode::PerceptionFailed, 5001, "PerceptionFailed"),
        (ErrorCode::ElementNotAccessible, 5002, "ElementNotAccessible"),
        (ErrorCode::StyleComputationFailed, 5003, "StyleComputationFailed"),
        (ErrorCode::InternalError, 9001, "InternalError"),
    ];
    for (code, number, name) in cases {
        assert_eq!(code.as_i32(), number);
        assert_eq!(code.name(), name);
    }
}

#[test]
fn protocol_error_messages() {
    assert_eq!(ProtocolError::missing_field("url").message, "Missing required field: url");
    assert_eq!(ProtocolError::target_not_found("#x").message, "Target element not found: #x");
    assert_eq!(ProtocolError::session_not_found("s1").to_string(), "[SessionNotFound] Session not found: s1");
    assert_eq!(ProtocolError::internal("boom".to_string()).code, ErrorCode::InternalError);
    assert_eq!(ProtocolError::browser_launch_failed("no chrome".to_string()).code, ErrorCode::BrowserLaunchFailed);
    assert_eq!(ProtocolError::invalid_message("bad".to_string()).code, ErrorCode::InvalidMessage);
}

#[test]
fn target_ambiguous_carries_match_count() {
    let err = ProtocolError::target_ambiguous("button[Submit]", 3);
    assert_eq!(err.code, ErrorCode::TargetAmbiguous);
    assert_eq!(err.message, "Target selector matched 3 elements: button[Submit]");
    let data = err.data.expect("match count data");
    assert_eq!(data.get_u64("matchCount"), Some(3));
    assert_eq!(data.get_i64("matchCount"), Some(3));
}

#[test]
fn internal_errors_display_and_convert() {
    assert_eq!(TivanaError::Browser("x".to_string()).to_string(), "Browser error: x");
    assert_eq!(TivanaError::Session("y".to_string()).to_string(), "Session error: y");
    assert_eq!(TivanaError::Json("z".to_string()).to_string(), "JSON error: z");
    assert_eq!(TivanaError::Io("w".to_string()).to_string(), "IO error: w");
    assert_eq!(TivanaError::WebSocket("v".to_string()).to_string(), "WebSocket error: v");
    let p = TivanaError::Protocol(ProtocolError::missing_field("id"));
    assert_eq!(p.to_string(), "Protocol error: [MissingField] Missing required field: id");
    assert_eq!(TivanaError::Browser("crash".to_string()).into_protocol_error().code, ErrorCode::BrowserCrashed);
    assert_eq!(TivanaError::Session("gone".to_string()).into_protocol_error().code, ErrorCode::SessionNotFound);
    assert_eq!(TivanaError::Json("bad".to_string()).into_protocol_error().code, ErrorCode::InvalidMessage);
    assert_eq!(TivanaError::Io("disk".to_string()).into_protocol_error().code, ErrorCode::InternalError);
}

#[test]
fn with_data_keeps_code_and_message() {
    let err = ProtocolError::new(ErrorCode::ActionFailed, "nope".to_string()).with_data(JsonValue::Bool(true));
    assert_eq!(err.code, ErrorCode::ActionFailed);
    assert_eq!(err.message, "nope");
    assert!(matches!(err.data, Some(JsonValue::Bool(true))));
}
