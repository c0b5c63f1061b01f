//! Protocol envelope types for Tivana WebSocket communication.
//!
//! The protocol uses JSON-RPC-like messages with correlated request/response pairs
//! and asynchronous events.

use vstd::prelude::*;
use crate::error::ProtocolError;
use crate::json::JsonValue;

verus! {

/// Protocol version
pub const PROTOCOL_VERSION: &'static str = "1.0";

/// Whether a character is a lowercase hexadecimal digit.
pub open spec fn is_lower_hex(c: char) -> bool {
    ('0' <= c <= '9') || ('a' <= c <= 'f')
}

/// The text of a random (version 4, RFC 4122 variant) UUID in hyphenated lowercase
/// form, e.g. `67e55044-10b1-426f-9247-bb680e5fe0c8`.
pub open spec fn is_uuid_v4_text(s: Seq<char>) -> bool {
    &&& s.len() == 36
    &&& forall|i: int|
        0 <= i < 36 ==> (if i == 8 || i == 13 || i == 18 || i == 23 {
            s[i] == '-'
        } else {
            is_lower_hex(#[trigger] s[i])
        })
    &&& s[14] == '4'
    &&& (s[19] == '8' || s[19] == '9' || s[19] == 'a' || s[19] == 'b')
}

/// Draws a random UUID with `uuid::Uuid::new_v4` and formats it with `to_string`.
/// Claimed: the text is a hyphenated lowercase version-4 UUID (the crate masks the
/// version and variant bits and formats the sixteen bytes as lowercase hex).
#[verifier::external_body]
pub(crate) fn new_uuid() -> (s: String)
    ensures
        is_uuid_v4_text(s@),
{
    uuid::Uuid::new_v4().to_string()
}

/// Message type discriminator
#[derive(Debug, Clone, Copy, PartialEq, Eq, Structural)]
pub enum MessageType {
    /// Client-to-server request expecting a response
    Request,
    /// Server-to-client response to a request
    Response,
    /// Server-to-client asynchronous event
    Event,
}

/// Inbound message from client (request only)
#[derive(Debug)]
pub struct RequestMessage {
    /// Unique message ID for correlation
    pub id: String,
    /// Message type (always "request" for inbound)
    pub message_type: MessageType,
    /// Method to invoke (e.g., "session.create", "browser.navigate")
    pub method: String,
    /// Session ID (optional, required for session-scoped methods)
    pub session_id: Option<String>,
    /// Method-specific parameters
    pub params: JsonValue,
    /// Protocol version
    pub version: String,
}

/// Outbound response message
#[derive(Debug)]
pub struct ResponseMessage {
    /// Correlated request ID
    pub id: String,
    /// Message type (always "response")
    pub message_type: MessageType,
    /// Result payload (present on success)
    pub result: Option<JsonValue>,
    /// Error details (present on failure)
    pub error: Option<ProtocolError>,
    /// Protocol version
    pub version: String,
}

/// A fresh random id (a v4 uuid), as pages and extension-backed sessions get.
pub fn fresh_id() -> (s: String)
    ensures
        is_uuid_v4_text(s@),
{
    new_uuid()
}

/// The version a request carries when it names none.
pub fn default_version() -> (s: String)
    ensures
        s@ == "1.0"@,
{
    String::from_str("1.0")
}

impl ResponseMessage {
    /// Create a success response
    pub fn success(id: &str, result: JsonValue) -> (r: Self)
        ensures
            r.id@ == id@,
            r.message_type == MessageType::Response,
            r.result == Some(result),
            r.error is None,
            r.version@ == "1.0"@,
    {
        ResponseMessage {
            id: String::from_str(id),
            message_type: MessageType::Response,
            result: Some(result),
            error: None,
            version: default_version(),
        }
    }

    /// Create an error response
    pub fn error(id: &str, error: ProtocolError) -> (r: Self)
        ensures
            r.id@ == id@,
            r.message_type == MessageType::Response,
            r.result is None,
            r.error == Some(error),
            r.version@ == "1.0"@,
    {
        ResponseMessage {
            id: String::from_str(id),
            message_type: MessageType::Response,
            result: None,
            error: Some(error),
            version: default_version(),
        }
    }
}

/// Server-initiated event message
#[derive(Debug)]
pub struct EventMessage {
    /// Unique event ID
    pub id: String,
    /// Message type (always "event")
    pub message_type: MessageType,
    /// Event name (e.g., "session.stateChanged", "browser.pageLoaded")
    pub event: String,
    /// Session ID this event relates to
    pub session_id: Option<String>,
    /// Event payload
    pub data: JsonValue,
    /// Protocol version
    pub version: String,
}

impl EventMessage {
    /// Create a new event with a fresh random id.
    pub fn new(event: &str, data: JsonValue) -> (e: Self)
        ensures
            is_uuid_v4_text(e.id@),
            e.message_type == MessageType::Event,
            e.event@ == event@,
            e.session_id is None,
            e.data == data,
            e.version@ == "1.0"@,
    {
        EventMessage {
            id: new_uuid(),
            message_type: MessageType::Event,
            event: String::from_str(event),
            session_id: None,
            data,
            version: default_version(),
        }
    }

    /// Create a session-scoped event with a fresh random id.
    pub fn for_session(session_id: &str, event: &str, data: JsonValue) -> (e: Self)
        ensures
            is_uuid_v4_text(e.id@),
            e.message_type == MessageType::Event,
            e.event@ == event@,
            e.session_id matches Some(s) && s@ == session_id@,
            e.data == data,
            e.version@ == "1.0"@,
    {
        EventMessage {
            id: new_uuid(),
            message_type: MessageType::Event,
            event: String::from_str(event),
            session_id: Some(String::from_str(session_id)),
            data,
            version: default_version(),
        }
    }
}

/// Unified outbound message type for serialization
#[derive(Debug)]
pub enum OutboundMessage {
    Response(ResponseMessage),
    Event(EventMessage),
}

} // verus!
