//! Error types for Tivana.
//!
//! Errors are categorized by source:
//! - protocol errors: malformed messages, missing fields
//! - session errors: invalid session, session closed
//! - browser errors: launch failed, crashed, disconnected
//! - action errors: target not found, action failed
//! - perception errors: failed to read page state

use vstd::prelude::*;
use crate::json::{JsonNumber, JsonValue};
use crate::text::{decimal, u64_to_string};

verus! {

/// Error codes for protocol responses.
#[derive(Debug, Clone, Copy, PartialEq, Eq, Structural)]
pub enum ErrorCode {
    // Protocol errors (1xxx)
    InvalidMessage,
    MissingField,
    InvalidField,
    UnknownMethod,
    // Session errors (2xxx)
    SessionNotFound,
    SessionClosed,
    SessionExists,
    InvalidSessionState,
    // Browser errors (3xxx)
    BrowserLaunchFailed,
    BrowserCrashed,
    BrowserDisconnected,
    NavigationFailed,
    // Action errors (4xxx)
    TargetNotFound,
    TargetAmbiguous,
    ActionFailed,
    ActionTimeout,
    // Perception errors (5xxx)
    PerceptionFailed,
    ElementNotAccessible,
    StyleComputationFailed,
    // Internal errors (9xxx)
    InternalError,
}

/// The numeric code of each error kind.
pub open spec fn code_number(c: ErrorCode) -> i32 {
    match c {
        ErrorCode::InvalidMessage => 1001,
        ErrorCode::MissingField => 1002,
        ErrorCode::InvalidField => 1003,
        ErrorCode::UnknownMethod => 1004,
        ErrorCode::SessionNotFound => 2001,
        ErrorCode::SessionClosed => 2002,
        ErrorCode::SessionExists => 2003,
        ErrorCode::InvalidSessionState => 2004,
        ErrorCode::BrowserLaunchFailed => 3001,
        ErrorCode::BrowserCrashed => 3002,
        ErrorCode::BrowserDisconnected => 3003,
        ErrorCode::NavigationFailed => 3004,
        ErrorCode::TargetNotFound => 4001,
        ErrorCode::TargetAmbiguous => 4002,
        ErrorCode::ActionFailed => 4003,
        ErrorCode::ActionTimeout => 4004,
        ErrorCode::PerceptionFailed => 5001,
        ErrorCode::ElementNotAccessible => 5002,
        ErrorCode::StyleComputationFailed => 5003,
        ErrorCode::InternalError => 9001,
    }
}

/// The name of each error kind, as `{:?}` prints it.
pub open spec fn code_name(c: ErrorCode) -> Seq<char> {
    match c {
        ErrorCode::InvalidMessage => "InvalidMessage"@,
        ErrorCode::MissingField => "MissingField"@,
        ErrorCode::InvalidField => "InvalidField"@,
        ErrorCode::UnknownMethod => "UnknownMethod"@,
        ErrorCode::SessionNotFound => "SessionNotFound"@,
        ErrorCode::SessionClosed => "SessionClosed"@,
        ErrorCode::SessionExists => "SessionExists"@,
        ErrorCode::InvalidSessionState => "InvalidSessionState"@,
        ErrorCode::BrowserLaunchFailed => "BrowserLaunchFailed"@,
        ErrorCode::BrowserCrashed => "BrowserCrashed"@,
        ErrorCode::BrowserDisconnected => "BrowserDisconnected"@,
        ErrorCode::NavigationFailed => "NavigationFailed"@,
        ErrorCode::TargetNotFound => "TargetNotFound"@,
        ErrorCode::TargetAmbiguous => "TargetAmbiguous"@,
        ErrorCode::ActionFailed => "ActionFailed"@,
        ErrorCode::ActionTimeout => "ActionTimeout"@,
        ErrorCode::PerceptionFailed => "PerceptionFailed"@,
        ErrorCode::ElementNotAccessible => "ElementNotAccessible"@,
        ErrorCode::StyleComputationFailed => "StyleComputationFailed"@,
        ErrorCode::InternalError => "InternalError"@,
    }
}

impl ErrorCode {
    /// The numeric code, grouped by source (1xxx protocol, 2xxx session, 3xxx browser,
    /// 4xxx action, 5xxx perception, 9xxx internal).
    pub fn as_i32(self) -> (n: i32)
        ensures
            n == code_number(self),
    {
        match self {
            ErrorCode::InvalidMessage => 1001,
            ErrorCode::MissingField => 1002,
            ErrorCode::InvalidField => 1003,
            ErrorCode::UnknownMethod => 1004,
            ErrorCode::SessionNotFound => 2001,
            ErrorCode::SessionClosed => 2002,
            ErrorCode::SessionExists => 2003,
            ErrorCode::InvalidSessionState => 2004,
            ErrorCode::BrowserLaunchFailed => 3001,
            ErrorCode::BrowserCrashed => 3002,
            ErrorCode::BrowserDisconnected => 3003,
            ErrorCode::NavigationFailed => 3004,
            ErrorCode::TargetNotFound => 4001,
            ErrorCode::TargetAmbiguous => 4002,
            ErrorCode::ActionFailed => 4003,
            ErrorCode::ActionTimeout => 4004,
            ErrorCode::PerceptionFailed => 5001,
            ErrorCode::ElementNotAccessible => 5002,
            ErrorCode::StyleComputationFailed => 5003,
            ErrorCode::InternalError => 9001,
        }
    }

    /// The variant's name, as `{:?}` prints it.
    pub fn name(self) -> (s: String)
        ensures
            s@ == code_name(self),
    {
        let n = match self {
            ErrorCode::InvalidMessage => "InvalidMessage",
            ErrorCode::MissingField => "MissingField",
            ErrorCode::InvalidField => "InvalidField",
            ErrorCode::UnknownMethod => "UnknownMethod",
            ErrorCode::SessionNotFound => "SessionNotFound",
            ErrorCode::SessionClosed => "SessionClosed",
            ErrorCode::SessionExists => "SessionExists",
            ErrorCode::InvalidSessionState => "InvalidSessionState",
            ErrorCode::BrowserLaunchFailed => "BrowserLaunchFailed",
            ErrorCode::BrowserCrashed => "BrowserCrashed",
            ErrorCode::BrowserDisconnected => "BrowserDisconnected",
            ErrorCode::NavigationFailed => "NavigationFailed",
            ErrorCode::TargetNotFound => "TargetNotFound",
            ErrorCode::TargetAmbiguous => "TargetAmbiguous",
            ErrorCode::ActionFailed => "ActionFailed",
            ErrorCode::ActionTimeout => "ActionTimeout",
            ErrorCode::PerceptionFailed => "PerceptionFailed",
            ErrorCode::ElementNotAccessible => "ElementNotAccessible",
            ErrorCode::StyleComputationFailed => "StyleComputationFailed",
            ErrorCode::InternalError => "InternalError",
        };
        String::from_str(n)
    }
}

/// Structured error for protocol responses.
#[derive(Debug)]
pub struct ProtocolError {
    pub code: ErrorCode,
    pub message: String,
    pub data: Option<JsonValue>,
}

/// The data attached to an ambiguous-target error: `{"matchCount": count}`.
pub open spec fn is_match_count_data(data: Option<JsonValue>, count: usize) -> bool {
    match data {
        Some(JsonValue::Object(entries)) => entries@.len() == 1 && entries@[0].0@
            == "matchCount"@ && match entries@[0].1 {
            JsonValue::Number(n) => n.as_u64 == Some(count as u64) && n.as_i64 == (if count
                <= i64::MAX {
                Some(count as i64)
            } else {
                None
            }) && n.float_text@ == decimal(count as nat),
            _ => false,
        },
        _ => false,
    }
}

impl ProtocolError {
    /// An error with a code and a message and no data.
    pub fn new(code: ErrorCode, message: String) -> (e: Self)
        ensures
            e.code == code,
            e.message@ == message@,
            e.data is None,
    {
        ProtocolError { code, message, data: None }
    }

    /// The same error with data attached.
    pub fn with_data(self, data: JsonValue) -> (e: Self)
        ensures
            e.code == self.code,
            e.message == self.message,
            e.data == Some(data),
    {
        ProtocolError { code: self.code, message: self.message, data: Some(data) }
    }

    /// A malformed message.
    pub fn invalid_message(message: String) -> (e: Self)
        ensures
            e.code == ErrorCode::InvalidMessage,
            e.message@ == message@,
            e.data is None,
    {
        Self::new(ErrorCode::InvalidMessage, message)
    }

    /// A required field is missing.
    pub fn missing_field(field: &str) -> (e: Self)
        ensures
            e.code == ErrorCode::MissingField,
            e.message@ == "Missing required field: "@ + field@,
            e.data is None,
    {
        Self::new(ErrorCode::MissingField, String::from_str("Missing required field: ").concat(field))
    }

    /// No session has this ID.
    pub fn session_not_found(session_id: &str) -> (e: Self)
        ensures
            e.code == ErrorCode::SessionNotFound,
            e.message@ == "Session not found: "@ + session_id@,
            e.data is None,
    {
        Self::new(
            ErrorCode::SessionNotFound,
            String::from_str("Session not found: ").concat(session_id),
        )
    }

    /// No element matches the target.
    pub fn target_not_found(target: &str) -> (e: Self)
        ensures
            e.code == ErrorCode::TargetNotFound,
            e.message@ == "Target element not found: "@ + target@,
            e.data is None,
    {
        Self::new(
            ErrorCode::TargetNotFound,
            String::from_str("Target element not found: ").concat(target),
        )
    }

    /// The target matches several elements; the count travels as `matchCount`.
    pub fn target_ambiguous(target: &str, count: usize) -> (e: Self)
        ensures
            e.code == ErrorCode::TargetAmbiguous,
            e.message@ == "Target selector matched "@ + decimal(count as nat) + " elements: "@
                + target@,
            is_match_count_data(e.data, count),
    {
        let n = u64_to_string(count as u64);
        let message = String::from_str("Target selector matched ").concat(n.as_str()).concat(
            " elements: ",
        ).concat(target);
        let number = JsonNumber {
            as_u64: Some(count as u64),
            as_i64: if count as u64 <= 9223372036854775807u64 {
                Some(count as i64)
            } else {
                None
            },
            float_text: u64_to_string(count as u64),
            float_bits: None,
        };
        let mut entries: Vec<(String, JsonValue)> = Vec::new();
        entries.push((String::from_str("matchCount"), JsonValue::Number(number)));
        Self::new(ErrorCode::TargetAmbiguous, message).with_data(JsonValue::Object(entries))
    }

    /// The browser could not be launched.
    pub fn browser_launch_failed(reason: String) -> (e: Self)
        ensures
            e.code == ErrorCode::BrowserLaunchFailed,
            e.message@ == reason@,
            e.data is None,
    {
        Self::new(ErrorCode::BrowserLaunchFailed, reason)
    }

    /// An internal failure.
    pub fn internal(message: String) -> (e: Self)
        ensures
            e.code == ErrorCode::InternalError,
            e.message@ == message@,
            e.data is None,
    {
        Self::new(ErrorCode::InternalError, message)
    }

    /// The display text: `[Code] message`.
    pub fn to_string(&self) -> (s: String)
        ensures
            s@ == "["@ + code_name(self.code) + "] "@ + self.message@,
    {
        let name = self.code.name();
        String::from_str("[").concat(name.as_str()).concat("] ").concat(self.message.as_str())
    }
}

/// Main error type for internal use. Errors raised by the socket, the JSON codec
/// and the file system travel as their display text.
#[derive(Debug)]
pub enum TivanaError {
    Protocol(ProtocolError),
    WebSocket(String),
    Json(String),
    Browser(String),
    Io(String),
    Session(String),
}

/// The display text of each internal error.
pub open spec fn tivana_error_text(e: TivanaError) -> Seq<char> {
    match e {
        TivanaError::Protocol(p) => "Protocol error: "@ + "["@ + code_name(p.code) + "] "@
            + p.message@,
        TivanaError::WebSocket(m) => "WebSocket error: "@ + m@,
        TivanaError::Json(m) => "JSON error: "@ + m@,
        TivanaError::Browser(m) => "Browser error: "@ + m@,
        TivanaError::Io(m) => "IO error: "@ + m@,
        TivanaError::Session(m) => "Session error: "@ + m@,
    }
}

impl TivanaError {
    /// The display text, prefixed by the error's source.
    pub fn to_string(&self) -> (s: String)
        ensures
            s@ == tivana_error_text(*self),
    {
        match self {
            TivanaError::Protocol(p) => String::from_str("Protocol error: ").concat(
                p.to_string().as_str(),
            ),
            TivanaError::WebSocket(m) => String::from_str("WebSocket error: ").concat(m.as_str()),
            TivanaError::Json(m) => String::from_str("JSON error: ").concat(m.as_str()),
            TivanaError::Browser(m) => String::from_str("Browser error: ").concat(m.as_str()),
            TivanaError::Io(m) => String::from_str("IO error: ").concat(m.as_str()),
            TivanaError::Session(m) => String::from_str("Session error: ").concat(m.as_str()),
        }
    }

    /// The protocol error that answers a request that failed with this error: protocol
    /// errors pass through; JSON errors are invalid messages; browser errors are crashes;
    /// session errors are unknown sessions; socket and file errors are internal.
    pub fn into_protocol_error(self) -> (p: ProtocolError)
        ensures
            match self {
                TivanaError::Protocol(e) => p == e,
                TivanaError::WebSocket(m) => p.code == ErrorCode::InternalError && p.message@
                    == m@ && p.data is None,
                TivanaError::Json(m) => p.code == ErrorCode::InvalidMessage && p.message@ == m@
                    && p.data is None,
                TivanaError::Browser(m) => p.code == ErrorCode::BrowserCrashed && p.message@
                    == m@ && p.data is None,
                TivanaError::Io(m) => p.code == ErrorCode::InternalError && p.message@ == m@
                    && p.data is None,
                TivanaError::Session(m) => p.code == ErrorCode::SessionNotFound && p.message@
                    == m@ && p.data is None,
            },
    {
        match self {
            TivanaError::Protocol(e) => e,
            TivanaError::WebSocket(m) => ProtocolError::internal(m),
            TivanaError::Json(m) => ProtocolError::invalid_message(m),
            TivanaError::Browser(m) => ProtocolError::new(ErrorCode::BrowserCrashed, m),
            TivanaError::Io(m) => ProtocolError::internal(m),
            TivanaError::Session(m) => ProtocolError::new(ErrorCode::SessionNotFound, m),
        }
    }
}

} // verus!
