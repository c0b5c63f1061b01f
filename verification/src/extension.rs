//! Extension bridge: Chrome extension-connected tabs as Tivana sessions.
//!
//! When the Tivana Chrome extension connects, it forwards CDP commands through the
//! extension's chrome.debugger API instead of a direct browser connection. This module
//! keeps the bridge's books: the attached tabs, which Tivana sessions they back, the
//! CDP requests awaiting an answer, and the messages exchanged. It is generic over the
//! driver's connection writer `W` and the responder `P` of a pending request.

use vstd::prelude::*;
use crate::json::{
    entry_lookup, lemma_entry_lookup_at, member, object_keys, parse_json, parsed_json_value, JsonValue,
};
use crate::text::{decimal, str_eq, u64_to_string};

verus! {

/// Info about an extension-connected tab
#[derive(Debug)]
pub struct ExtensionTab {
    pub tab_id: i64,
    pub target_id: String,
    pub session_id: String,
    pub url: String,
    pub title: String,
}

impl ExtensionTab {
    /// A copy of the tab info.
    pub fn duplicate(&self) -> (t: Self)
        ensures
            t == *self,
    {
        ExtensionTab {
            tab_id: self.tab_id,
            target_id: self.target_id.clone(),
            session_id: self.session_id.clone(),
            url: self.url.clone(),
            title: self.title.clone(),
        }
    }
}

/// Response from a CDP command forwarded through the extension
#[derive(Debug)]
pub struct CdpResponse {
    pub result: Option<JsonValue>,
    pub error: Option<String>,
}

/// A string member of the parameters, or "" when missing.
pub open spec fn text_or_empty(params: JsonValue, key: Seq<char>) -> Seq<char> {
    match params.str_member(key) {
        Some(s) => s,
        None => Seq::empty(),
    }
}

fn member_text(params: &JsonValue, key: &str) -> (s: String)
    ensures
        s@ == text_or_empty(*params, key@),
{
    match params.get_str(key) {
        Some(s) => s,
        None => String::new(),
    }
}

/// The tab a `tab.attached` message describes; missing members default to 0 and "".
pub fn tab_from_params(params: &JsonValue) -> (t: ExtensionTab)
    ensures
        t.tab_id == (match params.i64_member("tabId"@) {
            Some(n) => n,
            None => 0,
        }),
        t.target_id@ == text_or_empty(*params, "targetId"@),
        t.session_id@ == text_or_empty(*params, "sessionId"@),
        t.url@ == text_or_empty(*params, "url"@),
        t.title@ == text_or_empty(*params, "title"@),
{
    ExtensionTab {
        tab_id: match params.get_i64("tabId") {
            Some(n) => n,
            None => 0,
        },
        target_id: member_text(params, "targetId"),
        session_id: member_text(params, "sessionId"),
        url: member_text(params, "url"),
        title: member_text(params, "title"),
    }
}

/// The first position of the tab attached under a session id.
pub open spec fn tab_position(tabs: Seq<ExtensionTab>, sid: Seq<char>, from: int) -> Option<int>
    decreases tabs.len() - from,
{
    if from < 0 || from >= tabs.len() {
        None
    } else if tabs[from].session_id@ == sid {
        Some(from)
    } else {
        tab_position(tabs, sid, from + 1)
    }
}

/// The first position of the mapping for a Tivana session id.
pub open spec fn mapping_position(map: Seq<(String, String)>, tid: Seq<char>, from: int) -> Option<
    int,
>
    decreases map.len() - from,
{
    if from < 0 || from >= map.len() {
        None
    } else if map[from].0@ == tid {
        Some(from)
    } else {
        mapping_position(map, tid, from + 1)
    }
}

/// The mappings without those of Tivana session `tid`, the others kept in order.
pub open spec fn without_mapping(map: Seq<(String, String)>, tid: Seq<char>) -> Seq<(String, String)>
    decreases map.len(),
{
    if map.len() == 0 {
        map
    } else if map.last().0@ == tid {
        without_mapping(map.drop_last(), tid)
    } else {
        without_mapping(map.drop_last(), tid).push(map.last())
    }
}

/// The first position of a pending request by id.
pub open spec fn pending_position<P>(pending: Seq<(String, P)>, id: Seq<char>, from: int) -> Option<
    int,
>
    decreases pending.len() - from,
{
    if from < 0 || from >= pending.len() {
        None
    } else if pending[from].0@ == id {
        Some(from)
    } else {
        pending_position(pending, id, from + 1)
    }
}

/// The id of a CDP response: a string id as it is, a number id in decimal.
pub open spec fn response_id(msg: JsonValue) -> Option<Seq<char>> {
    match msg.str_member("id"@) {
        Some(s) => Some(s),
        None => match msg.u64_member("id"@) {
            Some(n) => Some(decimal(n as nat)),
            None => None,
        },
    }
}

/// The id a CDP response answers.
pub fn cdp_response_id(msg: &JsonValue) -> (r: Option<String>)
    ensures
        match r {
            Some(s) => response_id(*msg) == Some(s@),
            None => response_id(*msg) is None,
        },
{
    match msg.get_str("id") {
        Some(s) => Some(s),
        None => match msg.get_u64("id") {
            Some(n) => Some(u64_to_string(n)),
            None => None,
        },
    }
}

/// The outcome of a forwarded CDP command: its error, else its result (null when none).
pub fn cdp_outcome(response: CdpResponse) -> (r: Result<JsonValue, String>)
    ensures
        match response.error {
            Some(e) => r == Err::<JsonValue, String>(e),
            None => match response.result {
                Some(v) => r == Ok::<JsonValue, String>(v),
                None => r == Ok::<JsonValue, String>(JsonValue::Null),
            },
        },
{
    match response.error {
        Some(e) => Err(e),
        None => match response.result {
            Some(v) => Ok(v),
            None => Ok(JsonValue::Null),
        },
    }
}

/// The CDP parameters of `Runtime.evaluate` for an expression whose value is returned
/// (awaiting promises).
pub fn evaluate_params(expression: &str) -> (v: JsonValue)
    ensures
        object_keys(v) == seq!["expression"@, "returnByValue"@, "awaitPromise"@],
        v.str_member("expression"@) == Some(expression@),
        v.bool_member("returnByValue"@) == Some(true),
        v.bool_member("awaitPromise"@) == Some(true),
{
    let mut entries: Vec<(String, JsonValue)> = Vec::new();
    entries.push(member("expression", JsonValue::text(expression)));
    entries.push(member("returnByValue", JsonValue::Bool(true)));
    entries.push(member("awaitPromise", JsonValue::Bool(true)));
    proof {
        reveal_strlit("expression");
        reveal_strlit("returnByValue");
        reveal_strlit("awaitPromise");
        let e = entries@;
        assert("expression"@.len() == 10 && "returnByValue"@.len() == 13);
        assert("awaitPromise"@.len() == 12);
        assert(e[0].0@ != "returnByValue"@ && e[0].0@ != "awaitPromise"@);
        assert(e[1].0@ != "awaitPromise"@);
        lemma_entry_lookup_at(e, 0, "expression"@);
        lemma_entry_lookup_at(e, 1, "returnByValue"@);
        lemma_entry_lookup_at(e, 2, "awaitPromise"@);
    }
    let v = JsonValue::Object(entries);
    proof {
        assert(object_keys(v) =~= seq!["expression"@, "returnByValue"@, "awaitPromise"@]);
    }
    v
}

/// What the `result.value` of a `Runtime.evaluate` answer holds.
#[derive(Debug)]
pub enum EvaluatedValue {
    /// A string, to be read as JSON text.
    Text(String),
    /// Another value.
    Value(JsonValue),
    /// No `result.value`: the whole answer.
    Whole(JsonValue),
}

/// The value nested in a `Runtime.evaluate` answer.
pub open spec fn evaluated_ok(answer: JsonValue, r: EvaluatedValue) -> bool {
    match answer.lookup("result"@) {
        Some(inner) => match inner.lookup("value"@) {
            Some(JsonValue::Str(s)) => r matches EvaluatedValue::Text(t) && t@ == s@,
            Some(v) => r == EvaluatedValue::Value(v),
            None => r == EvaluatedValue::Whole(answer),
        },
        None => r == EvaluatedValue::Whole(answer),
    }
}

/// Takes the value out of a `Runtime.evaluate` answer.
pub fn evaluated_value(answer: JsonValue) -> (r: EvaluatedValue)
    ensures
        evaluated_ok(answer, r),
{
    let has_value = match answer.get("result") {
        Some(inner) => inner.has("value"),
        None => false,
    };
    if !has_value {
        return EvaluatedValue::Whole(answer);
    }
    let ghost whole = answer;
    let inner = answer.into_member("result");
    match inner {
        Some(i) => match i.into_member("value") {
            Some(JsonValue::Str(s)) => EvaluatedValue::Text(s),
            Some(v) => EvaluatedValue::Value(v),
            None => EvaluatedValue::Whole(JsonValue::Null),
        },
        None => EvaluatedValue::Whole(JsonValue::Null),
    }
}

/// The key events that type one character: raw key down (with its text), char, key up.
pub fn key_events_for(ch: &str) -> (events: Vec<JsonValue>)
    ensures
        events@.len() == 3,
        object_keys(events@[0]) == seq!["type"@, "key"@, "text"@],
        events@[0].str_member("type"@) == Some("rawKeyDown"@),
        events@[0].str_member("key"@) == Some(ch@),
        events@[0].str_member("text"@) == Some(ch@),
        object_keys(events@[1]) == seq!["type"@, "text"@],
        events@[1].str_member("type"@) == Some("char"@),
        events@[1].str_member("text"@) == Some(ch@),
        object_keys(events@[2]) == seq!["type"@, "key"@],
        events@[2].str_member("type"@) == Some("keyUp"@),
        events@[2].str_member("key"@) == Some(ch@),
{
    proof {
        reveal_strlit("type");
        reveal_strlit("key");
        reveal_strlit("text");
    }
    let mut down: Vec<(String, JsonValue)> = Vec::new();
    down.push(member("type", JsonValue::text("rawKeyDown")));
    down.push(member("key", JsonValue::text(ch)));
    down.push(member("text", JsonValue::text(ch)));
    let mut char_event: Vec<(String, JsonValue)> = Vec::new();
    char_event.push(member("type", JsonValue::text("char")));
    char_event.push(member("text", JsonValue::text(ch)));
    let mut up: Vec<(String, JsonValue)> = Vec::new();
    up.push(member("type", JsonValue::text("keyUp")));
    up.push(member("key", JsonValue::text(ch)));
    proof {
        let d = down@;
        let c = char_event@;
        let u = up@;
        assert("type"@.len() == 4 && "key"@.len() == 3 && "text"@.len() == 4);
        assert("type"@[1] == 'y' && "text"@[1] == 'e');
        assert(d[0].0@ != "key"@ && d[0].0@ != "text"@ && d[1].0@ != "text"@);
        lemma_entry_lookup_at(d, 0, "type"@);
        lemma_entry_lookup_at(d, 1, "key"@);
        lemma_entry_lookup_at(d, 2, "text"@);
        assert(c[0].0@ != "text"@);
        lemma_entry_lookup_at(c, 0, "type"@);
        lemma_entry_lookup_at(c, 1, "text"@);
        assert(u[0].0@ != "key"@);
        lemma_entry_lookup_at(u, 0, "type"@);
        lemma_entry_lookup_at(u, 1, "key"@);
    }
    let mut events: Vec<JsonValue> = Vec::new();
    events.push(JsonValue::Object(down));
    events.push(JsonValue::Object(char_event));
    events.push(JsonValue::Object(up));
    proof {
        assert(object_keys(events@[0]) =~= seq!["type"@, "key"@, "text"@]);
        assert(object_keys(events@[1]) =~= seq!["type"@, "text"@]);
        assert(object_keys(events@[2]) =~= seq!["type"@, "key"@]);
    }
    events
}

/// What a message from the extension is, by its method.
#[derive(Debug, Clone, Copy, PartialEq, Eq, Structural)]
pub enum ExtensionEvent {
    TabAttached,
    TabDetached,
    TabNavigated,
    CdpEvent,
    Hello,
    TabError,
    Pong,
    /// No method: the answer to a forwarded CDP command.
    CdpResponse,
    Unknown,
}

/// The kind of an extension message with the given method (the empty text when the
/// message has none).
pub open spec fn extension_event_for(method: Seq<char>) -> ExtensionEvent {
    if method == "tab.attached"@ {
        ExtensionEvent::TabAttached
    } else if method == "tab.detached"@ {
        ExtensionEvent::TabDetached
    } else if method == "tab.navigated"@ {
        ExtensionEvent::TabNavigated
    } else if method == "cdp.event"@ {
        ExtensionEvent::CdpEvent
    } else if method == "extension.hello"@ {
        ExtensionEvent::Hello
    } else if method == "tab.error"@ {
        ExtensionEvent::TabError
    } else if method == "pong"@ {
        ExtensionEvent::Pong
    } else if method.len() == 0 {
        ExtensionEvent::CdpResponse
    } else {
        ExtensionEvent::Unknown
    }
}

/// Classifies an extension message by its method.
pub fn extension_event(method: &str) -> (e: ExtensionEvent)
    ensures
        e == extension_event_for(method@),
{
    if str_eq(method, "tab.attached") {
        ExtensionEvent::TabAttached
    } else if str_eq(method, "tab.detached") {
        ExtensionEvent::TabDetached
    } else if str_eq(method, "tab.navigated") {
        ExtensionEvent::TabNavigated
    } else if str_eq(method, "cdp.event") {
        ExtensionEvent::CdpEvent
    } else if str_eq(method, "extension.hello") {
        ExtensionEvent::Hello
    } else if str_eq(method, "tab.error") {
        ExtensionEvent::TabError
    } else if str_eq(method, "pong") {
        ExtensionEvent::Pong
    } else if method.unicode_len() == 0 {
        ExtensionEvent::CdpResponse
    } else {
        ExtensionEvent::Unknown
    }
}

/// Whether a message from a socket comes from the extension rather than an SDK client:
/// it is JSON without a `type` member and either names one of the extension's methods
/// or is a response (`id` with `result` or `error`). `message` is the parsed text, or
/// `None` when the text is not JSON.
pub open spec fn extension_message_spec(message: Option<JsonValue>) -> bool {
    match message {
        None => false,
        Some(v) => v.lookup("type"@) is None && match v.str_member("method"@) {
            Some(m) => m == "extension.hello"@ || m == "tab.attached"@ || m == "tab.detached"@
                || m == "tab.navigated"@ || m == "cdp.event"@ || m == "pong"@,
            None => v.lookup("id"@) is Some && (v.lookup("result"@) is Some || v.lookup(
                "error"@,
            ) is Some),
        },
    }
}

/// Whether a parsed socket message (`None`: the text is not JSON) looks like it's from
/// the extension rather than an SDK client.
pub fn is_extension_json(message: Option<&JsonValue>) -> (b: bool)
    ensures
        b == extension_message_spec(
            match message {
                Some(v) => Some(*v),
                None => None,
            },
        ),
{
    match message {
        None => false,
        Some(v) => {
            if v.has("type") {
                return false;
            }
            match v.get_str("method") {
                Some(m) => {
                    let m = m.as_str();
                    str_eq(m, "extension.hello") || str_eq(m, "tab.attached") || str_eq(
                        m,
                        "tab.detached",
                    ) || str_eq(m, "tab.navigated") || str_eq(m, "cdp.event") || str_eq(m, "pong")
                },
                None => v.has("id") && (v.has("result") || v.has("error")),
            }
        },
    }
}

/// Check if an incoming WebSocket message looks like it's from the extension
/// (as opposed to a regular Tivana SDK client): its text parses as JSON, and the
/// document passes the extension check.
pub fn is_extension_message(text: &str) -> (b: bool)
    ensures
        b == extension_message_spec(parsed_json_value(text@)),
{
    match parse_json(text) {
        Ok(v) => is_extension_json(Some(&v)),
        Err(_) => is_extension_json(None),
    }
}

/// Where a text frame of a socket goes.
#[derive(Debug)]
pub enum FrameRoute {
    /// To the extension bridge. `detected` when this frame turns the connection into the
    /// extension's; `message` is the parsed frame (`None` when it is not JSON, and then
    /// nothing is handled).
    Extension { detected: bool, message: Option<JsonValue> },
    /// To the SDK request handling.
    Client,
}

/// Routes a text frame on a connection that is (`extension_conn`) or is not yet the
/// extension's: a connection becomes the extension's at its first frame that passes the
/// extension check, and from then on every frame goes to the bridge.
pub fn route_frame(extension_conn: bool, text: &str) -> (r: FrameRoute)
    ensures
        (extension_conn || extension_message_spec(parsed_json_value(text@))) ==> (r matches
            FrameRoute::Extension { detected, message } && detected == !extension_conn
            && message == parsed_json_value(text@)),
        !(extension_conn || extension_message_spec(parsed_json_value(text@))) ==> r is Client,
{
    let parsed = match parse_json(text) {
        Ok(v) => Some(v),
        Err(_) => None,
    };
    let passes = match &parsed {
        Some(v) => is_extension_json(Some(v)),
        None => is_extension_json(None),
    };
    if extension_conn {
        FrameRoute::Extension { detected: false, message: parsed }
    } else if passes {
        FrameRoute::Extension { detected: true, message: parsed }
    } else {
        FrameRoute::Client
    }
}

/// The books of the extension bridge.
pub struct ExtensionManager<W, P> {
    /// Extension tabs, no two under the same session id
    tabs: Vec<ExtensionTab>,
    /// The writer of the extension's WebSocket, while it is connected
    connection: Option<W>,
    /// CDP requests awaiting an answer, by request id
    pending: Vec<(String, P)>,
    /// Counter for CDP request IDs
    id_counter: u64,
    /// Tivana session ID → extension session ID
    session_map: Vec<(String, String)>,
}

impl<W, P> ExtensionManager<W, P> {
    /// The attached tabs.
    pub closed spec fn tabs(&self) -> Seq<ExtensionTab> {
        self.tabs@
    }

    /// The connection writer, while connected.
    pub closed spec fn connection(&self) -> Option<W> {
        self.connection
    }

    /// The pending requests.
    pub closed spec fn pending(&self) -> Seq<(String, P)> {
        self.pending@
    }

    /// The number of requests sent so far.
    pub closed spec fn counter(&self) -> u64 {
        self.id_counter
    }

    /// The session mappings.
    pub closed spec fn mappings(&self) -> Seq<(String, String)> {
        self.session_map@
    }

    /// A bridge with nothing attached and no connection.
    pub fn new() -> (m: Self)
        ensures
            m.tabs().len() == 0,
            m.connection() is None,
            m.pending().len() == 0,
            m.counter() == 0,
            m.mappings().len() == 0,
    {
        ExtensionManager {
            tabs: Vec::new(),
            connection: None,
            pending: Vec::new(),
            id_counter: 0,
            session_map: Vec::new(),
        }
    }

    /// Register an extension WebSocket connection
    pub fn set_connection(&mut self, writer: W)
        ensures
            final(self).connection() == Some(writer),
            final(self).tabs() == old(self).tabs(),
            final(self).pending() == old(self).pending(),
            final(self).counter() == old(self).counter(),
            final(self).mappings() == old(self).mappings(),
    {
        self.connection = Some(writer);
    }

    /// Clear the extension connection (on disconnect): the tabs go, and the pending
    /// requests are handed back to be answered "Extension disconnected".
    pub fn clear_connection(&mut self) -> (pending: Vec<(String, P)>)
        ensures
            pending@ == old(self).pending(),
            final(self).connection() is None,
            final(self).tabs().len() == 0,
            final(self).pending().len() == 0,
            final(self).counter() == old(self).counter(),
            final(self).mappings() == old(self).mappings(),
    {
        self.connection = None;
        self.tabs = Vec::new();
        let mut drained: Vec<(String, P)> = Vec::new();
        std::mem::swap(&mut drained, &mut self.pending);
        drained
    }

    /// The error a pending request is answered with when the extension disconnects.
    pub fn disconnected_response() -> (r: CdpResponse)
        ensures
            r.result is None,
            r.error matches Some(e) && e@ == "Extension disconnected"@,
    {
        CdpResponse { result: None, error: Some(String::from_str("Extension disconnected")) }
    }

    fn tab_index(&self, sid: &str) -> (r: Option<usize>)
        ensures
            match r {
                Some(i) => tab_position(self.tabs@, sid@, 0) == Some(i as int) && i < self.tabs@.len(),
                None => tab_position(self.tabs@, sid@, 0) is None,
            },
    {
        let mut i: usize = 0;
        while i < self.tabs.len()
            invariant
                i <= self.tabs@.len(),
                tab_position(self.tabs@, sid@, 0) == tab_position(self.tabs@, sid@, i as int),
            decreases self.tabs.len() - i,
        {
            if str_eq(self.tabs[i].session_id.as_str(), sid) {
                return Some(i);
            }
            i = i + 1;
        }
        None
    }

    /// Handle a tab.attached message: the tab replaces any attached under its session id.
    pub fn handle_tab_attached(&mut self, params: &JsonValue)
        ensures
            ({
                let t = final(self).tabs();
                match tab_position(old(self).tabs(), text_or_empty(*params, "sessionId"@), 0) {
                    Some(i) => t.len() == old(self).tabs().len() && t == old(self).tabs().update(
                        i,
                        t[i],
                    ),
                    None => t.len() == old(self).tabs().len() + 1 && t.drop_last() == old(
                        self,
                    ).tabs(),
                }
            }),
            ({
                let t = final(self).tabs();
                let i = match tab_position(old(self).tabs(), text_or_empty(*params, "sessionId"@), 0) {
                    Some(i) => i,
                    None => t.len() - 1,
                };
                &&& t[i].tab_id == (match params.i64_member("tabId"@) {
                    Some(n) => n,
                    None => 0,
                })
                &&& t[i].target_id@ == text_or_empty(*params, "targetId"@)
                &&& t[i].session_id@ == text_or_empty(*params, "sessionId"@)
                &&& t[i].url@ == text_or_empty(*params, "url"@)
                &&& t[i].title@ == text_or_empty(*params, "title"@)
            }),
            final(self).connection() == old(self).connection(),
            final(self).pending() == old(self).pending(),
            final(self).counter() == old(self).counter(),
            final(self).mappings() == old(self).mappings(),
    {
        let tab = tab_from_params(params);
        match self.tab_index(tab.session_id.as_str()) {
            Some(i) => {
                self.tabs.set(i, tab);
            },
            None => {
                self.tabs.push(tab);
                assert(self.tabs@.drop_last() =~= old(self).tabs@);
            },
        }
    }

    /// Handle a tab.detached message: the tab under its session id goes.
    pub fn handle_tab_detached(&mut self, params: &JsonValue)
        ensures
            final(self).tabs() == (match tab_position(
                old(self).tabs(),
                text_or_empty(*params, "sessionId"@),
                0,
            ) {
                Some(i) => old(self).tabs().remove(i),
                None => old(self).tabs(),
            }),
            final(self).connection() == old(self).connection(),
            final(self).pending() == old(self).pending(),
            final(self).counter() == old(self).counter(),
            final(self).mappings() == old(self).mappings(),
    {
        let sid = member_text(params, "sessionId");
        match self.tab_index(sid.as_str()) {
            Some(i) => {
                self.tabs.remove(i);
            },
            None => {},
        }
    }

    /// Handle a tab.navigated message: the tab under its session id takes the new URL and
    /// title ("" when missing).
    pub fn handle_tab_navigated(&mut self, params: &JsonValue)
        ensures
            ({
                let t = final(self).tabs();
                let o = old(self).tabs();
                match tab_position(o, text_or_empty(*params, "sessionId"@), 0) {
                    Some(i) => t.len() == o.len() && t == o.update(i, t[i]) && t[i].url@
                        == text_or_empty(*params, "url"@) && t[i].title@ == text_or_empty(
                        *params,
                        "title"@,
                    ) && t[i].tab_id == o[i].tab_id && t[i].target_id == o[i].target_id
                        && t[i].session_id == o[i].session_id,
                    None => t == o,
                }
            }),
            final(self).connection() == old(self).connection(),
            final(self).pending() == old(self).pending(),
            final(self).counter() == old(self).counter(),
            final(self).mappings() == old(self).mappings(),
    {
        let sid = member_text(params, "sessionId");
        match self.tab_index(sid.as_str()) {
            Some(i) => {
                let old_tab = self.tabs.remove(i);
                let tab = ExtensionTab {
                    tab_id: old_tab.tab_id,
                    target_id: old_tab.target_id,
                    session_id: old_tab.session_id,
                    url: member_text(params, "url"),
                    title: member_text(params, "title"),
                };
                self.tabs.insert(i, tab);
                assert(self.tabs@ =~= old(self).tabs@.update(i as int, self.tabs@[i as int]));
            },
            None => {},
        }
    }

    /// List all extension-connected tabs
    pub fn list_tabs(&self) -> (r: Vec<ExtensionTab>)
        ensures
            r@ == self.tabs(),
    {
        let mut r: Vec<ExtensionTab> = Vec::new();
        let mut i: usize = 0;
        while i < self.tabs.len()
            invariant
                i <= self.tabs@.len(),
                r@ == self.tabs@.subrange(0, i as int),
            decreases self.tabs.len() - i,
        {
            r.push(self.tabs[i].duplicate());
            i = i + 1;
            assert(r@ =~= self.tabs@.subrange(0, i as int));
        }
        assert(r@ =~= self.tabs@);
        r
    }

    /// Get a specific tab by session ID
    pub fn get_tab(&self, session_id: &str) -> (r: Option<ExtensionTab>)
        ensures
            match tab_position(self.tabs(), session_id@, 0) {
                Some(i) => r == Some(self.tabs()[i]),
                None => r is None,
            },
    {
        match self.tab_index(session_id) {
            Some(i) => Some(self.tabs[i].duplicate()),
            None => None,
        }
    }

    /// Check if the extension is connected
    pub fn is_connected(&self) -> (b: bool)
        ensures
            b == (self.connection() is Some),
    {
        self.connection.is_some()
    }

    /// How many CDP requests have been issued so far (the last request id).
    pub fn requests_issued(&self) -> (n: u64)
        ensures
            n == self.counter(),
    {
        self.id_counter
    }

    /// The connection writer, while connected.
    pub fn writer(&self) -> (r: Option<&W>)
        ensures
            match self.connection() {
                Some(w) => r == Some(&w),
                None => r is None,
            },
    {
        match &self.connection {
            Some(w) => Some(w),
            None => None,
        }
    }

    fn mapping_index(&self, tid: &str) -> (r: Option<usize>)
        ensures
            match r {
                Some(i) => mapping_position(self.session_map@, tid@, 0) == Some(i as int) && i
                    < self.session_map@.len(),
                None => mapping_position(self.session_map@, tid@, 0) is None,
            },
    {
        let mut i: usize = 0;
        while i < self.session_map.len()
            invariant
                i <= self.session_map@.len(),
                mapping_position(self.session_map@, tid@, 0) == mapping_position(
                    self.session_map@,
                    tid@,
                    i as int,
                ),
            decreases self.session_map.len() - i,
        {
            if str_eq(self.session_map[i].0.as_str(), tid) {
                return Some(i);
            }
            i = i + 1;
        }
        None
    }

    /// Register a mapping from Tivana session ID to extension session ID; a mapping of
    /// the same Tivana session is replaced.
    pub fn register_session_mapping(&mut self, tivana_id: &str, extension_id: &str)
        ensures
            ({
                let m = final(self).mappings();
                match mapping_position(old(self).mappings(), tivana_id@, 0) {
                    Some(i) => m.len() == old(self).mappings().len() && m == old(self).mappings().update(
                        i,
                        m[i],
                    ) && m[i].0@ == tivana_id@ && m[i].1@ == extension_id@,
                    None => m.len() == old(self).mappings().len() + 1 && m.drop_last() == old(
                        self,
                    ).mappings() && m.last().0@ == tivana_id@ && m.last().1@ == extension_id@,
                }
            }),
            final(self).tabs() == old(self).tabs(),
            final(self).connection() == old(self).connection(),
            final(self).pending() == old(self).pending(),
            final(self).counter() == old(self).counter(),
    {
        let entry = (String::from_str(tivana_id), String::from_str(extension_id));
        match self.mapping_index(tivana_id) {
            Some(i) => {
                self.session_map.set(i, entry);
            },
            None => {
                self.session_map.push(entry);
                assert(self.session_map@.drop_last() =~= old(self).session_map@);
            },
        }
    }

    /// Remove the mapping of a Tivana session, leaving its extension tab open: the
    /// session is no longer backed by the extension.
    pub fn unregister_session_mapping(&mut self, tivana_id: &str)
        ensures
            final(self).mappings() == without_mapping(old(self).mappings(), tivana_id@),
            final(self).tabs() == old(self).tabs(),
            final(self).connection() == old(self).connection(),
            final(self).pending() == old(self).pending(),
            final(self).counter() == old(self).counter(),
    {
        let mut rest: Vec<(String, String)> = Vec::new();
        std::mem::swap(&mut rest, &mut self.session_map);
        let ghost all = rest@;
        let total = rest.len();
        let ghost n = all.len();
        let mut k: usize = 0;
        assert(all.subrange(0, 0) =~= Seq::<(String, String)>::empty());
        assert(rest@ =~= all.subrange(0, n as int));
        while rest.len() > 0
            invariant
                n == all.len(),
                n == total,
                k + rest@.len() == n,
                rest@ == all.subrange(k as int, n as int),
                self.session_map@ == without_mapping(all.subrange(0, k as int), tivana_id@),
                all == old(self).session_map@,
                self.tabs == old(self).tabs,
                self.connection == old(self).connection,
                self.pending == old(self).pending,
                self.id_counter == old(self).id_counter,
            decreases rest.len(),
        {
            let x = rest.remove(0);
            let ghost prefix = all.subrange(0, k + 1);
            assert(prefix.drop_last() =~= all.subrange(0, k as int));
            assert(prefix.last() == x);
            if !str_eq(x.0.as_str(), tivana_id) {
                self.session_map.push(x);
            }
            k = k + 1;
            assert(rest@ =~= all.subrange(k as int, n as int));
        }
        assert(all.subrange(0, n as int) =~= all);
    }

    /// Check if a Tivana session ID is backed by an extension tab
    pub fn is_extension_session(&self, tivana_id: &str) -> (b: bool)
        ensures
            b == (mapping_position(self.mappings(), tivana_id@, 0) is Some),
    {
        self.mapping_index(tivana_id).is_some()
    }

    /// Get extension session ID for a Tivana session
    pub fn get_extension_session_id(&self, tivana_id: &str) -> (r: Option<String>)
        ensures
            match mapping_position(self.mappings(), tivana_id@, 0) {
                Some(i) => r matches Some(s) && s@ == self.mappings()[i].1@,
                None => r is None,
            },
    {
        match self.mapping_index(tivana_id) {
            Some(i) => Some(self.session_map[i].1.clone()),
            None => None,
        }
    }

    /// Registers a CDP command to send through the extension: the request gets the next
    /// id, its responder waits under that id, and the message to send is returned.
    /// Fails when the extension is not connected.
    pub fn begin_cdp_request(
        &mut self,
        session_id: &str,
        method: &str,
        params: JsonValue,
        responder: P,
    ) -> (r: Result<(String, JsonValue), String>)
        requires
            old(self).counter() < u64::MAX,
        ensures
            old(self).connection() is None ==> (r matches Err(e) && e@ == "Extension not connected"@)
                && final(self).pending() == old(self).pending() && final(self).counter() == old(
                self,
            ).counter(),
            old(self).connection() is Some ==> (r matches Ok((id, msg)) && id@ == decimal(
                (old(self).counter() + 1) as nat,
            ) && final(self).counter() == old(self).counter() + 1 && final(self).pending()
                == old(self).pending().push((id, responder)) && cdp_message_ok(
                msg,
                id@,
                method@,
                params,
                session_id@,
            )),
            final(self).tabs() == old(self).tabs(),
            final(self).connection() == old(self).connection(),
            final(self).mappings() == old(self).mappings(),
    {
        if self.connection.is_none() {
            return Err(String::from_str("Extension not connected"));
        }
        self.id_counter = self.id_counter + 1;
        let id = u64_to_string(self.id_counter);
        self.pending.push((id.clone(), responder));
        let msg = cdp_message(id.as_str(), method, params, session_id);
        Ok((id, msg))
    }

    /// Hands back the responder of the request a CDP response answers, with the response.
    pub fn take_response(&mut self, msg: JsonValue) -> (r: Option<(P, CdpResponse)>)
        ensures
            final(self).tabs() == old(self).tabs(),
            final(self).connection() == old(self).connection(),
            final(self).counter() == old(self).counter(),
            final(self).mappings() == old(self).mappings(),
            match response_id(msg) {
                None => r is None && final(self).pending() == old(self).pending(),
                Some(id) => match pending_position(old(self).pending(), id, 0) {
                    None => r is None && final(self).pending() == old(self).pending(),
                    Some(i) => r matches Some((p, resp)) && p == old(self).pending()[i].1
                        && final(self).pending() == old(self).pending().remove(i) && resp.result
                        == msg.lookup("result"@) && opt_text(resp.error) == msg.str_member(
                        "error"@,
                    ),
                },
            },
    {
        let id = match cdp_response_id(&msg) {
            Some(id) => id,
            None => return None,
        };
        match self.pending_index(id.as_str()) {
            None => None,
            Some(i) => {
                let (_, responder) = self.pending.remove(i);
                let error = msg.get_str("error");
                let result = msg.into_member("result");
                Some((responder, CdpResponse { result, error }))
            },
        }
    }

    fn pending_index(&self, id: &str) -> (r: Option<usize>)
        ensures
            match r {
                Some(i) => pending_position(self.pending@, id@, 0) == Some(i as int) && i
                    < self.pending@.len(),
                None => pending_position(self.pending@, id@, 0) is None,
            },
    {
        let mut i: usize = 0;
        while i < self.pending.len()
            invariant
                i <= self.pending@.len(),
                pending_position(self.pending@, id@, 0) == pending_position(
                    self.pending@,
                    id@,
                    i as int,
                ),
            decreases self.pending.len() - i,
        {
            if str_eq(self.pending[i].0.as_str(), id) {
                return Some(i);
            }
            i = i + 1;
        }
        None
    }

    /// Forgets a request that timed out; returns its responder, if it was still waiting.
    pub fn cancel_request(&mut self, id: &str) -> (r: Option<P>)
        ensures
            match pending_position(old(self).pending(), id@, 0) {
                None => r is None && final(self).pending() == old(self).pending(),
                Some(i) => r == Some(old(self).pending()[i].1) && final(self).pending() == old(
                    self,
                ).pending().remove(i),
            },
            final(self).tabs() == old(self).tabs(),
            final(self).connection() == old(self).connection(),
            final(self).counter() == old(self).counter(),
            final(self).mappings() == old(self).mappings(),
    {
        match self.pending_index(id) {
            None => None,
            Some(i) => {
                let (_, responder) = self.pending.remove(i);
                Some(responder)
            },
        }
    }
}

/// The views of an optional string.
pub open spec fn opt_text(o: Option<String>) -> Option<Seq<char>> {
    match o {
        Some(s) => Some(s@),
        None => None,
    }
}

/// The message that forwards a CDP command through the extension:
/// `{"id", "method": "cdp", "params": {"method", "params", "sessionId"}}`.
pub open spec fn cdp_message_ok(
    msg: JsonValue,
    id: Seq<char>,
    method: Seq<char>,
    params: JsonValue,
    session_id: Seq<char>,
) -> bool {
    &&& object_keys(msg) == seq!["id"@, "method"@, "params"@]
    &&& msg.str_member("id"@) == Some(id)
    &&& msg.str_member("method"@) == Some("cdp"@)
    &&& msg.lookup("params"@) matches Some(inner) && object_keys(inner) == seq![
        "method"@,
        "params"@,
        "sessionId"@,
    ] && inner.str_member("method"@) == Some(method) && inner.lookup("params"@) == Some(params)
        && inner.str_member("sessionId"@) == Some(session_id)
}

/// Builds the message that forwards a CDP command through the extension.
pub fn cdp_message(id: &str, method: &str, params: JsonValue, session_id: &str) -> (msg: JsonValue)
    ensures
        cdp_message_ok(msg, id@, method@, params, session_id@),
{
    proof {
        reveal_strlit("id");
        reveal_strlit("method");
        reveal_strlit("params");
        reveal_strlit("sessionId");
        reveal_strlit("cdp");
    }
    let mut inner: Vec<(String, JsonValue)> = Vec::new();
    inner.push(member("method", JsonValue::text(method)));
    inner.push(member("params", params));
    inner.push(member("sessionId", JsonValue::text(session_id)));
    proof {
        let e = inner@;
        assert("method"@.len() == 6 && "params"@.len() == 6 && "sessionId"@.len() == 9);
        assert("method"@[0] == 'm' && "params"@[0] == 'p');
        assert(e[0].0@ != "params"@ && e[0].0@ != "sessionId"@ && e[1].0@ != "sessionId"@);
        lemma_entry_lookup_at(e, 0, "method"@);
        lemma_entry_lookup_at(e, 1, "params"@);
        lemma_entry_lookup_at(e, 2, "sessionId"@);
    }
    let inner_value = JsonValue::Object(inner);
    let mut outer: Vec<(String, JsonValue)> = Vec::new();
    outer.push(member("id", JsonValue::text(id)));
    outer.push(member("method", JsonValue::text("cdp")));
    outer.push(member("params", inner_value));
    proof {
        let e = outer@;
        assert("id"@.len() == 2 && "method"@.len() == 6 && "params"@.len() == 6);
        assert("method"@[0] == 'm' && "params"@[0] == 'p');
        assert(e[0].0@ != "method"@ && e[0].0@ != "params"@ && e[1].0@ != "params"@);
        lemma_entry_lookup_at(e, 0, "id"@);
        lemma_entry_lookup_at(e, 1, "method"@);
        lemma_entry_lookup_at(e, 2, "params"@);
    }
    let msg = JsonValue::Object(outer);
    proof {
        assert(object_keys(inner_value) =~= seq!["method"@, "params"@, "sessionId"@]);
        assert(object_keys(msg) =~= seq!["id"@, "method"@, "params"@]);
    }
    msg
}

proof fn lemma_mapping_position(m: Seq<(String, String)>, tid: Seq<char>, from: int)
    requires
        0 <= from,
    ensures
        match mapping_position(m, tid, from) {
            Some(k) => from <= k < m.len() && m[k].0@ == tid && forall|i: int|
                from <= i < k ==> (#[trigger] m[i]).0@ != tid,
            None => forall|i: int| from <= i < m.len() ==> (#[trigger] m[i]).0@ != tid,
        },
    decreases m.len() - from,
{
    if from < m.len() {
        lemma_mapping_position(m, tid, from + 1);
    }
}

proof fn lemma_mapping_position_at(m: Seq<(String, String)>, tid: Seq<char>, k: int, from: int)
    requires
        0 <= from <= k < m.len(),
        m[k].0@ == tid,
        forall|i: int| from <= i < k ==> (#[trigger] m[i]).0@ != tid,
    ensures
        mapping_position(m, tid, from) == Some(k),
    decreases k - from,
{
    if from < k {
        lemma_mapping_position_at(m, tid, k, from + 1);
    }
}

proof fn lemma_without_mapping_keys(m: Seq<(String, String)>, tid: Seq<char>)
    ensures
        forall|i: int|
            0 <= i < without_mapping(m, tid).len() ==> (#[trigger] without_mapping(m, tid)[i]).0@
                != tid,
    decreases m.len(),
{
    if m.len() > 0 {
        let t = m.drop_last();
        lemma_without_mapping_keys(t, tid);
        let w = without_mapping(t, tid);
        assert forall|i: int| 0 <= i < without_mapping(m, tid).len() implies (
        #[trigger] without_mapping(m, tid)[i]).0@ != tid by {
            if i < w.len() {
                assert(without_mapping(m, tid)[i] == w[i]);
            }
        }
    }
}

/// An unregistered mapping is gone: after a Tivana session's mapping is removed,
/// looking the session up finds no extension session.
pub proof fn law_unregistered_mapping_gone(before: Seq<(String, String)>, tivana_id: Seq<char>)
    ensures
        mapping_position(without_mapping(before, tivana_id), tivana_id, 0) is None,
{
    let w = without_mapping(before, tivana_id);
    lemma_without_mapping_keys(before, tivana_id);
    lemma_mapping_position(w, tivana_id, 0);
}

/// A registered mapping is read back: after registering an extension session under a
/// Tivana session id, looking the id up gives that extension session.
pub proof fn law_mapping_read_back(
    before: Seq<(String, String)>,
    after: Seq<(String, String)>,
    tivana_id: Seq<char>,
    extension_id: Seq<char>,
)
    requires
        match mapping_position(before, tivana_id, 0) {
            Some(i) => after.len() == before.len() && after == before.update(i, after[i])
                && after[i].0@ == tivana_id && after[i].1@ == extension_id,
            None => after.len() == before.len() + 1 && after.drop_last() == before
                && after.last().0@ == tivana_id && after.last().1@ == extension_id,
        },
    ensures
        mapping_position(after, tivana_id, 0) matches Some(k) && after[k].1@ == extension_id,
{
    lemma_mapping_position(before, tivana_id, 0);
    match mapping_position(before, tivana_id, 0) {
        Some(i) => {
            assert forall|j: int| 0 <= j < i implies (#[trigger] after[j]).0@ != tivana_id by {
                assert(after[j] == before[j]);
            }
            lemma_mapping_position_at(after, tivana_id, i, 0);
        },
        None => {
            let k = after.len() - 1;
            assert forall|j: int| 0 <= j < k implies (#[trigger] after[j]).0@ != tivana_id by {
                assert(after[j] == before[j]);
            }
            lemma_mapping_position_at(after, tivana_id, k, 0);
        },
    }
}

proof fn lemma_pending_position_at<P>(p: Seq<(String, P)>, id: Seq<char>, k: int, from: int)
    requires
        0 <= from <= k < p.len(),
        p[k].0@ == id,
        forall|i: int| from <= i < k ==> (#[trigger] p[i]).0@ != id,
    ensures
        pending_position(p, id, from) == Some(k),
    decreases k - from,
{
    if from < k {
        lemma_pending_position_at(p, id, k, from + 1);
    }
}

/// A response reaches its request: once a request waits under an id no other pending
/// request has, the response carrying that id is handed to that request's responder.
pub proof fn law_response_reaches_request<P>(
    before: Seq<(String, P)>,
    id: String,
    responder: P,
)
    requires
        forall|i: int| 0 <= i < before.len() ==> (#[trigger] before[i]).0@ != id@,
    ensures
        pending_position(before.push((id, responder)), id@, 0) == Some(before.len() as int),
        before.push((id, responder))[before.len() as int].1 == responder,
        before.push((id, responder)).remove(before.len() as int) == before,
{
    let after = before.push((id, responder));
    assert forall|j: int| 0 <= j < before.len() implies (#[trigger] after[j]).0@ != id@ by {
        assert(after[j] == before[j]);
    }
    lemma_pending_position_at(after, id@, before.len() as int, 0);
    assert(after.remove(before.len() as int) =~= before);
}

proof fn lemma_tab_position(t: Seq<ExtensionTab>, sid: Seq<char>, from: int)
    requires
        0 <= from,
    ensures
        match tab_position(t, sid, from) {
            Some(k) => from <= k < t.len() && t[k].session_id@ == sid && forall|i: int|
                from <= i < k ==> (#[trigger] t[i]).session_id@ != sid,
            None => forall|i: int| from <= i < t.len() ==> (#[trigger] t[i]).session_id@ != sid,
        },
    decreases t.len() - from,
{
    if from < t.len() {
        lemma_tab_position(t, sid, from + 1);
    }
}

proof fn lemma_tab_position_at(t: Seq<ExtensionTab>, sid: Seq<char>, k: int, from: int)
    requires
        0 <= from <= k < t.len(),
        t[k].session_id@ == sid,
        forall|i: int| from <= i < k ==> (#[trigger] t[i]).session_id@ != sid,
    ensures
        tab_position(t, sid, from) == Some(k),
    decreases k - from,
{
    if from < k {
        lemma_tab_position_at(t, sid, k, from + 1);
    }
}

/// An attached tab is found: after a tab attaches under a session id, looking the id up
/// gives that tab.
pub proof fn law_attached_tab_found(
    before: Seq<ExtensionTab>,
    after: Seq<ExtensionTab>,
    sid: Seq<char>,
    tab: ExtensionTab,
)
    requires
        tab.session_id@ == sid,
        match tab_position(before, sid, 0) {
            Some(i) => after.len() == before.len() && after == before.update(i, tab),
            None => after == before.push(tab),
        },
    ensures
        tab_position(after, sid, 0) matches Some(k) && after[k] == tab,
{
    lemma_tab_position(before, sid, 0);
    match tab_position(before, sid, 0) {
        Some(i) => {
            assert forall|j: int| 0 <= j < i implies (#[trigger] after[j]).session_id@ != sid by {
                assert(after[j] == before[j]);
            }
            lemma_tab_position_at(after, sid, i, 0);
        },
        None => {
            let k = after.len() - 1;
            assert forall|j: int| 0 <= j < k implies (#[trigger] after[j]).session_id@ != sid by {
                assert(after[j] == before[j]);
            }
            lemma_tab_position_at(after, sid, k, 0);
        },
    }
}

/// A detached tab is gone: when at most one tab is attached under a session id,
/// detaching it leaves none under that id.
pub proof fn law_detached_tab_gone(before: Seq<ExtensionTab>, sid: Seq<char>)
    requires
        forall|i: int, j: int|
            0 <= i < before.len() && 0 <= j < before.len() && (#[trigger] before[i]).session_id@
                == sid && (#[trigger] before[j]).session_id@ == sid ==> i == j,
    ensures
        tab_position(
            match tab_position(before, sid, 0) {
                Some(i) => before.remove(i),
                None => before,
            },
            sid,
            0,
        ) is None,
{
    lemma_tab_position(before, sid, 0);
    let after = match tab_position(before, sid, 0) {
        Some(i) => before.remove(i),
        None => before,
    };
    lemma_tab_position(after, sid, 0);
    match tab_position(before, sid, 0) {
        Some(i) => {
            if tab_position(after, sid, 0) is Some {
                let k = tab_position(after, sid, 0)->0;
                let j = if k < i {
                    k
                } else {
                    k + 1
                };
                assert(after[k] == before[j]);
            }
        },
        None => {},
    }
}

/// No two attached tabs share a session id.
pub open spec fn tab_ids_unique(t: Seq<ExtensionTab>) -> bool {
    forall|i: int, j: int|
        0 <= i < t.len() && 0 <= j < t.len() && i != j ==> (#[trigger] t[i]).session_id@
            != (#[trigger] t[j]).session_id@
}

/// Attaching and detaching tabs keeps session ids unique among the attached tabs.
pub proof fn law_tab_ids_stay_unique(
    before: Seq<ExtensionTab>,
    sid: Seq<char>,
    tab: ExtensionTab,
)
    requires
        tab_ids_unique(before),
        tab.session_id@ == sid,
    ensures
        tab_ids_unique(
            match tab_position(before, sid, 0) {
                Some(i) => before.update(i, tab),
                None => before.push(tab),
            },
        ),
        tab_ids_unique(
            match tab_position(before, sid, 0) {
                Some(i) => before.remove(i),
                None => before,
            },
        ),
{
    lemma_tab_position(before, sid, 0);
    match tab_position(before, sid, 0) {
        Some(k) => {
            let u = before.update(k, tab);
            assert forall|i: int, j: int|
                0 <= i < u.len() && 0 <= j < u.len() && i != j implies (#[trigger] u[i]).session_id@
                != (#[trigger] u[j]).session_id@ by {
                if i != k && j != k {
                    assert(before[i].session_id@ != before[j].session_id@);
                } else if i == k {
                    assert(before[k].session_id@ != before[j].session_id@);
                } else {
                    assert(before[i].session_id@ != before[k].session_id@);
                }
            }
            let r = before.remove(k);
            assert forall|i: int, j: int|
                0 <= i < r.len() && 0 <= j < r.len() && i != j implies (#[trigger] r[i]).session_id@
                != (#[trigger] r[j]).session_id@ by {
                let i2 = if i < k {
                    i
                } else {
                    i + 1
                };
                let j2 = if j < k {
                    j
                } else {
                    j + 1
                };
                assert(r[i] == before[i2] && r[j] == before[j2]);
                assert(before[i2].session_id@ != before[j2].session_id@);
            }
        },
        None => {
            let p = before.push(tab);
            assert forall|i: int, j: int|
                0 <= i < p.len() && 0 <= j < p.len() && i != j implies (#[trigger] p[i]).session_id@
                != (#[trigger] p[j]).session_id@ by {
                if i < before.len() && j < before.len() {
                    assert(before[i].session_id@ != before[j].session_id@);
                } else if i < before.len() {
                    assert(p[i] == before[i]);
                } else {
                    assert(p[j] == before[j]);
                }
            }
        },
    }
}

} // verus!
