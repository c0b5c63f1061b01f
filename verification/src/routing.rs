//! Request routing and the shaping of requests and replies: which handler serves an
//! SDK method, how an extension-backed session serves it, what a request names (its
//! session, its target, the configuration of a new session), and the fixed replies.

use vstd::prelude::*;
use crate::act::ActionTarget;
use crate::error::{tivana_error_text, ErrorCode, ProtocolError, TivanaError};
use crate::extension::{
    law_unregistered_mapping_gone, mapping_position, without_mapping, ExtensionManager,
    ExtensionTab,
};
use crate::json::{lemma_entry_lookup_at, member, object_keys, parse_json, parsed_json, JsonNumber, JsonValue};
use crate::perceive::opt_view;
use crate::protocol::RequestMessage;
use crate::proxy::ProxyConfig;
use crate::session::SessionConfig;
use crate::text::{
    chars_eq, chars_of, decimal, join, join_seq, push_char, str_eq, to_uppercase, u64_to_string, uppercase, views,
};

verus! {

/// The handler of each SDK method.
#[derive(Debug, Clone, Copy, PartialEq, Eq, Structural)]
pub enum Handler {
    SessionCreate,
    SessionClose,
    SessionList,
    SessionTabs,
    SessionSwitchTab,
    SessionNewTab,
    SessionCloseTab,
    SessionGet,
    SessionCleanTabs,
    SessionFromExtension,
    ExtensionTabs,
    BrowserNavigate,
    BrowserUrl,
    PerceivePageState,
    PerceiveElements,
    PerceiveAccessibility,
    PerceiveText,
    PerceiveMetadata,
    PerceiveFindElements,
    PerceiveMutations,
    PerceiveMutationsPoll,
    PerceiveMutationsStop,
    PerceiveObserve,
    PerceiveUnobserve,
    PerceiveFormFields,
    PerceiveEvaluate,
    PerceiveEvaluateVoid,
    ActClick,
    ActType,
    ActPress,
    ActScroll,
    ActHover,
    ActFocus,
    ActSelect,
    ActWaitFor,
    ActWaitForSelector,
    ActWaitForNavigation,
    ActWaitForFunction,
    ActBatch,
    ActFillForm,
    ActSmartFill,
    PerceiveScreenshot,
    NetworkEnable,
    NetworkRequests,
    NetworkClear,
    ActHandleDialog,
    ActUploadFile,
    StorageGetCookies,
    StorageSetCookie,
    StorageClearCookies,
    StorageGetLocalStorage,
    StorageSetLocalStorage,
    StorageGetSessionStorage,
    StorageSetSessionStorage,
    StorageClear,
    CaptchaDetect,
    CaptchaSolve,
    ProxySet,
    ProxyPool,
    ProxyRotate,
    ProxyCurrent,
}

/// The handler an SDK method is routed to (`act.navigate` shares `browser.navigate`'s,
/// the accessibility and text methods have two names each).
pub open spec fn handler_for(method: Seq<char>) -> Option<Handler> {
    if method == "session.create"@ {
        Some(Handler::SessionCreate)
    } else if method == "session.close"@ {
        Some(Handler::SessionClose)
    } else if method == "session.list"@ {
        Some(Handler::SessionList)
    } else if method == "session.tabs"@ {
        Some(Handler::SessionTabs)
    } else if method == "session.switchTab"@ {
        Some(Handler::SessionSwitchTab)
    } else if method == "session.newTab"@ {
        Some(Handler::SessionNewTab)
    } else if method == "session.closeTab"@ {
        Some(Handler::SessionCloseTab)
    } else if method == "session.get"@ {
        Some(Handler::SessionGet)
    } else if method == "session.cleanTabs"@ {
        Some(Handler::SessionCleanTabs)
    } else if method == "session.fromExtension"@ {
        Some(Handler::SessionFromExtension)
    } else if method == "extension.tabs"@ {
        Some(Handler::ExtensionTabs)
    } else if method == "browser.navigate"@ {
        Some(Handler::BrowserNavigate)
    } else if method == "browser.url"@ {
        Some(Handler::BrowserUrl)
    } else if method == "perceive.pageState"@ {
        Some(Handler::PerceivePageState)
    } else if method == "perceive.elements"@ {
        Some(Handler::PerceiveElements)
    } else if method == "perceive.accessibility"@ {
        Some(Handler::PerceiveAccessibility)
    } else if method == "perceive.accessibilitySnapshot"@ {
        Some(Handler::PerceiveAccessibility)
    } else if method == "perceive.text"@ {
        Some(Handler::PerceiveText)
    } else if method == "perceive.textContent"@ {
        Some(Handler::PerceiveText)
    } else if method == "perceive.metadata"@ {
        Some(Handler::PerceiveMetadata)
    } else if method == "perceive.findElements"@ {
        Some(Handler::PerceiveFindElements)
    } else if method == "perceive.mutations"@ {
        Some(Handler::PerceiveMutations)
    } else if method == "perceive.mutations.poll"@ {
        Some(Handler::PerceiveMutationsPoll)
    } else if method == "perceive.mutations.stop"@ {
        Some(Handler::PerceiveMutationsStop)
    } else if method == "perceive.observe"@ {
        Some(Handler::PerceiveObserve)
    } else if method == "perceive.unobserve"@ {
        Some(Handler::PerceiveUnobserve)
    } else if method == "perceive.formFields"@ {
        Some(Handler::PerceiveFormFields)
    } else if method == "perceive.evaluate"@ {
        Some(Handler::PerceiveEvaluate)
    } else if method == "perceive.evaluateVoid"@ {
        Some(Handler::PerceiveEvaluateVoid)
    } else if method == "act.click"@ {
        Some(Handler::ActClick)
    } else if method == "act.type"@ {
        Some(Handler::ActType)
    } else if method == "act.press"@ {
        Some(Handler::ActPress)
    } else if method == "act.scroll"@ {
        Some(Handler::ActScroll)
    } else if method == "act.navigate"@ {
        Some(Handler::BrowserNavigate)
    } else if method == "act.hover"@ {
        Some(Handler::ActHover)
    } else if method == "act.focus"@ {
        Some(Handler::ActFocus)
    } else if method == "act.select"@ {
        Some(Handler::ActSelect)
    } else if method == "act.waitFor"@ {
        Some(Handler::ActWaitFor)
    } else if method == "act.waitForSelector"@ {
        Some(Handler::ActWaitForSelector)
    } else if method == "act.waitForNavigation"@ {
        Some(Handler::ActWaitForNavigation)
    } else if method == "act.waitForFunction"@ {
        Some(Handler::ActWaitForFunction)
    } else if method == "act.batch"@ {
        Some(Handler::ActBatch)
    } else if method == "act.fillForm"@ {
        Some(Handler::ActFillForm)
    } else if method == "act.smartFill"@ {
        Some(Handler::ActSmartFill)
    } else if method == "perceive.screenshot"@ {
        Some(Handler::PerceiveScreenshot)
    } else if method == "network.enable"@ {
        Some(Handler::NetworkEnable)
    } else if method == "network.requests"@ {
        Some(Handler::NetworkRequests)
    } else if method == "network.clear"@ {
        Some(Handler::NetworkClear)
    } else if method == "act.handleDialog"@ {
        Some(Handler::ActHandleDialog)
    } else if method == "act.uploadFile"@ {
        Some(Handler::ActUploadFile)
    } else if method == "storage.getCookies"@ {
        Some(Handler::StorageGetCookies)
    } else if method == "storage.setCookie"@ {
        Some(Handler::StorageSetCookie)
    } else if method == "storage.clearCookies"@ {
        Some(Handler::StorageClearCookies)
    } else if method == "storage.getLocalStorage"@ {
        Some(Handler::StorageGetLocalStorage)
    } else if method == "storage.setLocalStorage"@ {
        Some(Handler::StorageSetLocalStorage)
    } else if method == "storage.getSessionStorage"@ {
        Some(Handler::StorageGetSessionStorage)
    } else if method == "storage.setSessionStorage"@ {
        Some(Handler::StorageSetSessionStorage)
    } else if method == "storage.clear"@ {
        Some(Handler::StorageClear)
    } else if method == "captcha.detect"@ {
        Some(Handler::CaptchaDetect)
    } else if method == "captcha.solve"@ {
        Some(Handler::CaptchaSolve)
    } else if method == "proxy.set"@ {
        Some(Handler::ProxySet)
    } else if method == "proxy.pool"@ {
        Some(Handler::ProxyPool)
    } else if method == "proxy.rotate"@ {
        Some(Handler::ProxyRotate)
    } else if method == "proxy.current"@ {
        Some(Handler::ProxyCurrent)
    } else {
        None
    }
}

/// Routes an SDK method to its handler; `None` for an unknown method.
pub fn route_method(method: &str) -> (r: Option<Handler>)
    ensures
        r == handler_for(method@),
{
    if str_eq(method, "session.create") {
        Some(Handler::SessionCreate)
    } else if str_eq(method, "session.close") {
        Some(Handler::SessionClose)
    } else if str_eq(method, "session.list") {
        Some(Handler::SessionList)
    } else if str_eq(method, "session.tabs") {
        Some(Handler::SessionTabs)
    } else if str_eq(method, "session.switchTab") {
        Some(Handler::SessionSwitchTab)
    } else if str_eq(method, "session.newTab") {
        Some(Handler::SessionNewTab)
    } else if str_eq(method, "session.closeTab") {
        Some(Handler::SessionCloseTab)
    } else if str_eq(method, "session.get") {
        Some(Handler::SessionGet)
    } else if str_eq(method, "session.cleanTabs") {
        Some(Handler::SessionCleanTabs)
    } else if str_eq(method, "session.fromExtension") {
        Some(Handler::SessionFromExtension)
    } else if str_eq(method, "extension.tabs") {
        Some(Handler::ExtensionTabs)
    } else if str_eq(method, "browser.navigate") {
        Some(Handler::BrowserNavigate)
    } else if str_eq(method, "browser.url") {
        Some(Handler::BrowserUrl)
    } else if str_eq(method, "perceive.pageState") {
        Some(Handler::PerceivePageState)
    } else if str_eq(method, "perceive.elements") {
        Some(Handler::PerceiveElements)
    } else if str_eq(method, "perceive.accessibility") {
        Some(Handler::PerceiveAccessibility)
    } else if str_eq(method, "perceive.accessibilitySnapshot") {
        Some(Handler::PerceiveAccessibility)
    } else if str_eq(method, "perceive.text") {
        Some(Handler::PerceiveText)
    } else if str_eq(method, "perceive.textContent") {
        Some(Handler::PerceiveText)
    } else if str_eq(method, "perceive.metadata") {
        Some(Handler::PerceiveMetadata)
    } else if str_eq(method, "perceive.findElements") {
        Some(Handler::PerceiveFindElements)
    } else if str_eq(method, "perceive.mutations") {
        Some(Handler::PerceiveMutations)
    } else if str_eq(method, "perceive.mutations.poll") {
        Some(Handler::PerceiveMutationsPoll)
    } else if str_eq(method, "perceive.mutations.stop") {
        Some(Handler::PerceiveMutationsStop)
    } else if str_eq(method, "perceive.observe") {
        Some(Handler::PerceiveObserve)
    } else if str_eq(method, "perceive.unobserve") {
        Some(Handler::PerceiveUnobserve)
    } else if str_eq(method, "perceive.formFields") {
        Some(Handler::PerceiveFormFields)
    } else if str_eq(method, "perceive.evaluate") {
        Some(Handler::PerceiveEvaluate)
    } else if str_eq(method, "perceive.evaluateVoid") {
        Some(Handler::PerceiveEvaluateVoid)
    } else if str_eq(method, "act.click") {
        Some(Handler::ActClick)
    } else if str_eq(method, "act.type") {
        Some(Handler::ActType)
    } else if str_eq(method, "act.press") {
        Some(Handler::ActPress)
    } else if str_eq(method, "act.scroll") {
        Some(Handler::ActScroll)
    } else if str_eq(method, "act.navigate") {
        Some(Handler::BrowserNavigate)
    } else if str_eq(method, "act.hover") {
        Some(Handler::ActHover)
    } else if str_eq(method, "act.focus") {
        Some(Handler::ActFocus)
    } else if str_eq(method, "act.select") {
        Some(Handler::ActSelect)
    } else if str_eq(method, "act.waitFor") {
        Some(Handler::ActWaitFor)
    } else if str_eq(method, "act.waitForSelector") {
        Some(Handler::ActWaitForSelector)
    } else if str_eq(method, "act.waitForNavigation") {
        Some(Handler::ActWaitForNavigation)
    } else if str_eq(method, "act.waitForFunction") {
        Some(Handler::ActWaitForFunction)
    } else if str_eq(method, "act.batch") {
        Some(Handler::ActBatch)
    } else if str_eq(method, "act.fillForm") {
        Some(Handler::ActFillForm)
    } else if str_eq(method, "act.smartFill") {
        Some(Handler::ActSmartFill)
    } else if str_eq(method, "perceive.screenshot") {
        Some(Handler::PerceiveScreenshot)
    } else if str_eq(method, "network.enable") {
        Some(Handler::NetworkEnable)
    } else if str_eq(method, "network.requests") {
        Some(Handler::NetworkRequests)
    } else if str_eq(method, "network.clear") {
        Some(Handler::NetworkClear)
    } else if str_eq(method, "act.handleDialog") {
        Some(Handler::ActHandleDialog)
    } else if str_eq(method, "act.uploadFile") {
        Some(Handler::ActUploadFile)
    } else if str_eq(method, "storage.getCookies") {
        Some(Handler::StorageGetCookies)
    } else if str_eq(method, "storage.setCookie") {
        Some(Handler::StorageSetCookie)
    } else if str_eq(method, "storage.clearCookies") {
        Some(Handler::StorageClearCookies)
    } else if str_eq(method, "storage.getLocalStorage") {
        Some(Handler::StorageGetLocalStorage)
    } else if str_eq(method, "storage.setLocalStorage") {
        Some(Handler::StorageSetLocalStorage)
    } else if str_eq(method, "storage.getSessionStorage") {
        Some(Handler::StorageGetSessionStorage)
    } else if str_eq(method, "storage.setSessionStorage") {
        Some(Handler::StorageSetSessionStorage)
    } else if str_eq(method, "storage.clear") {
        Some(Handler::StorageClear)
    } else if str_eq(method, "captcha.detect") {
        Some(Handler::CaptchaDetect)
    } else if str_eq(method, "captcha.solve") {
        Some(Handler::CaptchaSolve)
    } else if str_eq(method, "proxy.set") {
        Some(Handler::ProxySet)
    } else if str_eq(method, "proxy.pool") {
        Some(Handler::ProxyPool)
    } else if str_eq(method, "proxy.rotate") {
        Some(Handler::ProxyRotate)
    } else if str_eq(method, "proxy.current") {
        Some(Handler::ProxyCurrent)
    } else {
        None
    }
}

/// How a method on an extension-backed session is served.
#[derive(Debug, Clone, Copy, PartialEq, Eq, Structural)]
pub enum ExtRoute {
    PageState,
    Evaluate,
    EvaluateVoid,
    Elements,
    Text,
    Navigate,
    Click,
    Type,
    Scroll,
    Screenshot,
    Closed,
    Tabs,
    PlainOk,
    ParsedElements,
    Press,
    FormNote,
    WaitThenOk,
    UploadNote,
    UrlOrNavigate,
    CaptchaNote,
}

/// The way an extension-backed session serves a method, in the order the cases are
/// tried.
pub open spec fn ext_route_for(method: Seq<char>) -> Option<ExtRoute> {
    if method == "perceive.pageState"@ {
        Some(ExtRoute::PageState)
    } else if method == "perceive.evaluate"@ {
        Some(ExtRoute::Evaluate)
    } else if method == "perceive.evaluateVoid"@ {
        Some(ExtRoute::EvaluateVoid)
    } else if method == "perceive.elements"@ {
        Some(ExtRoute::Elements)
    } else if method == "perceive.text"@ {
        Some(ExtRoute::Text)
    } else if method == "perceive.textContent"@ {
        Some(ExtRoute::Text)
    } else if method == "act.navigate"@ {
        Some(ExtRoute::Navigate)
    } else if method == "browser.navigate"@ {
        Some(ExtRoute::Navigate)
    } else if method == "act.click"@ {
        Some(ExtRoute::Click)
    } else if method == "act.type"@ {
        Some(ExtRoute::Type)
    } else if method == "act.scroll"@ {
        Some(ExtRoute::Scroll)
    } else if method == "perceive.screenshot"@ {
        Some(ExtRoute::Screenshot)
    } else if method == "screenshot.capture"@ {
        Some(ExtRoute::Screenshot)
    } else if method == "session.close"@ {
        Some(ExtRoute::Closed)
    } else if method == "session.tabs"@ {
        Some(ExtRoute::Tabs)
    } else if method == "session.switchTab"@ {
        Some(ExtRoute::PlainOk)
    } else if method == "session.newTab"@ {
        Some(ExtRoute::PlainOk)
    } else if method == "session.closeTab"@ {
        Some(ExtRoute::PlainOk)
    } else if method == "session.cleanTabs"@ {
        Some(ExtRoute::PlainOk)
    } else if method == "perceive.formFields"@ {
        Some(ExtRoute::ParsedElements)
    } else if method == "act.press"@ {
        Some(ExtRoute::Press)
    } else if method == "act.smartFill"@ {
        Some(ExtRoute::FormNote)
    } else if method == "act.fillForm"@ {
        Some(ExtRoute::FormNote)
    } else if method == "act.batch"@ {
        Some(ExtRoute::FormNote)
    } else if method == "act.waitForSelector"@ {
        Some(ExtRoute::WaitThenOk)
    } else if method == "act.waitForNavigation"@ {
        Some(ExtRoute::WaitThenOk)
    } else if method == "act.waitForFunction"@ {
        Some(ExtRoute::WaitThenOk)
    } else if method == "act.uploadFile"@ {
        Some(ExtRoute::UploadNote)
    } else if method == "perceive.accessibility"@ {
        Some(ExtRoute::ParsedElements)
    } else if method == "perceive.accessibilitySnapshot"@ {
        Some(ExtRoute::ParsedElements)
    } else if method == "perceive.metadata"@ {
        Some(ExtRoute::PageState)
    } else if method == "browser.url"@ {
        Some(ExtRoute::UrlOrNavigate)
    } else if method == "act.hover"@ {
        Some(ExtRoute::PlainOk)
    } else if method == "act.focus"@ {
        Some(ExtRoute::PlainOk)
    } else if method == "act.select"@ {
        Some(ExtRoute::PlainOk)
    } else if method == "act.waitFor"@ {
        Some(ExtRoute::PlainOk)
    } else if method == "captcha.detect"@ {
        Some(ExtRoute::CaptchaNote)
    } else if method == "captcha.solve"@ {
        Some(ExtRoute::CaptchaNote)
    } else if method == "network.enable"@ {
        Some(ExtRoute::PlainOk)
    } else if method == "network.clear"@ {
        Some(ExtRoute::PlainOk)
    } else if method == "network.requests"@ {
        Some(ExtRoute::PlainOk)
    } else if method == "storage.getCookies"@ {
        Some(ExtRoute::PlainOk)
    } else if method == "storage.setCookie"@ {
        Some(ExtRoute::PlainOk)
    } else if method == "storage.clearCookies"@ {
        Some(ExtRoute::PlainOk)
    } else if method == "storage.getLocalStorage"@ {
        Some(ExtRoute::PlainOk)
    } else if method == "storage.setLocalStorage"@ {
        Some(ExtRoute::PlainOk)
    } else if method == "storage.getSessionStorage"@ {
        Some(ExtRoute::PlainOk)
    } else if method == "storage.setSessionStorage"@ {
        Some(ExtRoute::PlainOk)
    } else if method == "storage.clear"@ {
        Some(ExtRoute::PlainOk)
    } else {
        None
    }
}

/// How an extension-backed session serves a method; `None` when it does not.
pub fn ext_route(method: &str) -> (r: Option<ExtRoute>)
    ensures
        r == ext_route_for(method@),
{
    if str_eq(method, "perceive.pageState") {
        Some(ExtRoute::PageState)
    } else if str_eq(method, "perceive.evaluate") {
        Some(ExtRoute::Evaluate)
    } else if str_eq(method, "perceive.evaluateVoid") {
        Some(ExtRoute::EvaluateVoid)
    } else if str_eq(method, "perceive.elements") {
        Some(ExtRoute::Elements)
    } else if str_eq(method, "perceive.text") {
        Some(ExtRoute::Text)
    } else if str_eq(method, "perceive.textContent") {
        Some(ExtRoute::Text)
    } else if str_eq(method, "act.navigate") {
        Some(ExtRoute::Navigate)
    } else if str_eq(method, "browser.navigate") {
        Some(ExtRoute::Navigate)
    } else if str_eq(method, "act.click") {
        Some(ExtRoute::Click)
    } else if str_eq(method, "act.type") {
        Some(ExtRoute::Type)
    } else if str_eq(method, "act.scroll") {
        Some(ExtRoute::Scroll)
    } else if str_eq(method, "perceive.screenshot") {
        Some(ExtRoute::Screenshot)
    } else if str_eq(method, "screenshot.capture") {
        Some(ExtRoute::Screenshot)
    } else if str_eq(method, "session.close") {
        Some(ExtRoute::Closed)
    } else if str_eq(method, "session.tabs") {
        Some(ExtRoute::Tabs)
    } else if str_eq(method, "session.switchTab") {
        Some(ExtRoute::PlainOk)
    } else if str_eq(method, "session.newTab") {
        Some(ExtRoute::PlainOk)
    } else if str_eq(method, "session.closeTab") {
        Some(ExtRoute::PlainOk)
    } else if str_eq(method, "session.cleanTabs") {
        Some(ExtRoute::PlainOk)
    } else if str_eq(method, "perceive.formFields") {
        Some(ExtRoute::ParsedElements)
    } else if str_eq(method, "act.press") {
        Some(ExtRoute::Press)
    } else if str_eq(method, "act.smartFill") {
        Some(ExtRoute::FormNote)
    } else if str_eq(method, "act.fillForm") {
        Some(ExtRoute::FormNote)
    } else if str_eq(method, "act.batch") {
        Some(ExtRoute::FormNote)
    } else if str_eq(method, "act.waitForSelector") {
        Some(ExtRoute::WaitThenOk)
    } else if str_eq(method, "act.waitForNavigation") {
        Some(ExtRoute::WaitThenOk)
    } else if str_eq(method, "act.waitForFunction") {
        Some(ExtRoute::WaitThenOk)
    } else if str_eq(method, "act.uploadFile") {
        Some(ExtRoute::UploadNote)
    } else if str_eq(method, "perceive.accessibility") {
        Some(ExtRoute::ParsedElements)
    } else if str_eq(method, "perceive.accessibilitySnapshot") {
        Some(ExtRoute::ParsedElements)
    } else if str_eq(method, "perceive.metadata") {
        Some(ExtRoute::PageState)
    } else if str_eq(method, "browser.url") {
        Some(ExtRoute::UrlOrNavigate)
    } else if str_eq(method, "act.hover") {
        Some(ExtRoute::PlainOk)
    } else if str_eq(method, "act.focus") {
        Some(ExtRoute::PlainOk)
    } else if str_eq(method, "act.select") {
        Some(ExtRoute::PlainOk)
    } else if str_eq(method, "act.waitFor") {
        Some(ExtRoute::PlainOk)
    } else if str_eq(method, "captcha.detect") {
        Some(ExtRoute::CaptchaNote)
    } else if str_eq(method, "captcha.solve") {
        Some(ExtRoute::CaptchaNote)
    } else if str_eq(method, "network.enable") {
        Some(ExtRoute::PlainOk)
    } else if str_eq(method, "network.clear") {
        Some(ExtRoute::PlainOk)
    } else if str_eq(method, "network.requests") {
        Some(ExtRoute::PlainOk)
    } else if str_eq(method, "storage.getCookies") {
        Some(ExtRoute::PlainOk)
    } else if str_eq(method, "storage.setCookie") {
        Some(ExtRoute::PlainOk)
    } else if str_eq(method, "storage.clearCookies") {
        Some(ExtRoute::PlainOk)
    } else if str_eq(method, "storage.getLocalStorage") {
        Some(ExtRoute::PlainOk)
    } else if str_eq(method, "storage.setLocalStorage") {
        Some(ExtRoute::PlainOk)
    } else if str_eq(method, "storage.getSessionStorage") {
        Some(ExtRoute::PlainOk)
    } else if str_eq(method, "storage.setSessionStorage") {
        Some(ExtRoute::PlainOk)
    } else if str_eq(method, "storage.clear") {
        Some(ExtRoute::PlainOk)
    } else {
        None
    }
}

/// Methods that never go to an extension-backed session.
pub open spec fn skips_extension(method: Seq<char>) -> bool {
    method == "session.create"@ || method == "session.fromExtension"@ || method == "session.list"@
        || method == "extension.tabs"@
}

/// Whether a method is served by the runtime even for an extension-backed session.
pub fn skip_extension_check(method: &str) -> (b: bool)
    ensures
        b == skips_extension(method@),
{
    str_eq(method, "session.create") || str_eq(method, "session.fromExtension") || str_eq(
        method,
        "session.list",
    ) || str_eq(method, "extension.tabs")
}

/// The session a request names: its `sessionId`, else the `sessionId` parameter.
pub open spec fn request_session(req: RequestMessage) -> Option<Seq<char>> {
    match req.session_id {
        Some(s) => Some(s@),
        None => req.params.str_member("sessionId"@),
    }
}

/// The session a request names, if any.
pub fn request_session_id(req: &RequestMessage) -> (r: Option<String>)
    ensures
        opt_view(r) == request_session(*req),
{
    match &req.session_id {
        Some(s) => Some(s.clone()),
        None => req.params.get_str("sessionId"),
    }
}

/// The session a request names, or the missing-field error.
pub fn extract_session_id(req: &RequestMessage) -> (r: Result<String, ProtocolError>)
    ensures
        match request_session(*req) {
            Some(s) => r matches Ok(id) && id@ == s,
            None => r matches Err(e) && e.code == ErrorCode::MissingField && e.message@
                == "Missing required field: "@ + "sessionId"@ && e.data is None,
        },
{
    match request_session_id(req) {
        Some(s) => Ok(s),
        None => Err(ProtocolError::missing_field("sessionId")),
    }
}

/// The error of a method no handler serves.
pub fn unknown_method(method: &str) -> (e: ProtocolError)
    ensures
        e.code == ErrorCode::UnknownMethod,
        e.message@ == "Unknown method: "@ + method@,
        e.data is None,
{
    ProtocolError::new(ErrorCode::UnknownMethod, String::from_str("Unknown method: ").concat(method))
}

/// The error of a method an extension-backed session does not serve.
pub fn unsupported_for_extension(method: &str) -> (e: ProtocolError)
    ensures
        e.code == ErrorCode::UnknownMethod,
        e.message@ == "Method '"@ + method@ + "' not yet supported for extension sessions"@,
        e.data is None,
{
    ProtocolError::new(
        ErrorCode::UnknownMethod,
        String::from_str("Method '").concat(method).concat("' not yet supported for extension sessions"),
    )
}

/// The target a request's parameters describe under `target`, if they have one; the
/// coordinates count only when both `x` and `y` are numbers.
pub open spec fn target_ok(params: JsonValue, r: Option<ActionTarget>) -> bool {
    match params.lookup("target"@) {
        None => r is None,
        Some(t) => r matches Some(a) && opt_view(a.element_id) == t.str_member("elementId"@)
            && opt_view(a.selector) == t.str_member("selector"@) && opt_view(a.text)
            == t.str_member("text"@) && opt_view(a.role) == t.str_member("role"@) && opt_view(
            a.label,
        ) == t.str_member("label"@) && a.coordinates == (match t.lookup("coordinates"@) {
            Some(c) => match (c.float_bits_member("x"@), c.float_bits_member("y"@)) {
                (Some(x), Some(y)) => Some((x, y)),
                _ => None,
            },
            None => None,
        }),
    }
}

/// Helper to parse action target from params
pub fn parse_action_target(params: &JsonValue) -> (r: Option<ActionTarget>)
    ensures
        target_ok(*params, r),
{
    let t = match params.get("target") {
        Some(t) => t,
        None => return None,
    };
    let coordinates = match t.get("coordinates") {
        Some(c) => match (c.get_float_bits("x"), c.get_float_bits("y")) {
            (Some(x), Some(y)) => Some((x, y)),
            _ => None,
        },
        None => None,
    };
    Some(
        ActionTarget {
            element_id: t.get_str("elementId"),
            selector: t.get_str("selector"),
            text: t.get_str("text"),
            role: t.get_str("role"),
            label: t.get_str("label"),
            coordinates,
        },
    )
}

/// The configuration of a session a `session.create` request asks for: its `url`, its
/// `headless` flag (else the server's default), its viewport (whole numbers, kept to
/// their low 32 bits) and the proxy read from its `proxy` member.
pub open spec fn session_config_ok(
    params: JsonValue,
    default_headless: bool,
    proxy: Option<ProxyConfig>,
    c: SessionConfig,
) -> bool {
    &&& opt_view(c.initial_url) == params.str_member("url"@)
    &&& c.headless == (match params.bool_member("headless"@) {
        Some(b) => b,
        None => default_headless,
    })
    &&& c.viewport_width == (match params.u64_member("viewportWidth"@) {
        Some(v) => Some(v as u32),
        None => None,
    })
    &&& c.viewport_height == (match params.u64_member("viewportHeight"@) {
        Some(v) => Some(v as u32),
        None => None,
    })
    &&& c.proxy == proxy
}

/// Reads a new session's configuration from its request.
pub fn session_config_from_params(
    params: &JsonValue,
    default_headless: bool,
    proxy: Option<ProxyConfig>,
) -> (c: SessionConfig)
    ensures
        session_config_ok(*params, default_headless, proxy, c),
{
    let width = match params.get_u64("viewportWidth") {
        Some(v) => Some(v as u32),
        None => None,
    };
    let height = match params.get_u64("viewportHeight") {
        Some(v) => Some(v as u32),
        None => None,
    };
    SessionConfig {
        initial_url: params.get_str("url"),
        headless: match params.get_bool("headless") {
            Some(b) => b,
            None => default_headless,
        },
        viewport_width: width,
        viewport_height: height,
        proxy,
    }
}

/// Where a new session's browser comes from.
#[derive(Debug)]
pub enum LaunchMode {
    /// Chrome on the user's default profile, debugging on this port.
    DefaultBrowser { port: u16 },
    /// A running Chrome, named by port or WebSocket URL.
    Connect(String),
    /// A newly launched Chrome.
    Launch { headless: bool, viewport_width: u32, viewport_height: u32 },
}

/// Where a new session's browser comes from: the default browser when the server uses
/// it, else the Chrome it connects to, else a new launch with the session's viewport
/// (1440x900 unless given).
pub fn launch_mode(use_default_browser: bool, connect_target: &Option<String>, config: &SessionConfig) -> (m: LaunchMode)
    ensures
        use_default_browser ==> m == (LaunchMode::DefaultBrowser { port: 9222 }),
        !use_default_browser && connect_target is Some ==> (m matches LaunchMode::Connect(t)
            && t@ == connect_target.unwrap()@),
        !use_default_browser && connect_target is None ==> m == (LaunchMode::Launch {
            headless: config.headless,
            viewport_width: match config.viewport_width {
                Some(w) => w,
                None => 1440,
            },
            viewport_height: match config.viewport_height {
                Some(h) => h,
                None => 900,
            },
        }),
{
    if use_default_browser {
        LaunchMode::DefaultBrowser { port: 9222 }
    } else {
        match connect_target {
            Some(t) => LaunchMode::Connect(t.clone()),
            None => LaunchMode::Launch {
                headless: config.headless,
                viewport_width: match config.viewport_width {
                    Some(w) => w,
                    None => 1440,
                },
                viewport_height: match config.viewport_height {
                    Some(h) => h,
                    None => 900,
                },
            },
        }
    }
}

/// The Chrome to reattach persisted sessions to: none unless the server connects to a
/// Chrome or uses the default browser; the connect target, else port 9222.
pub fn reattach_target(connect_target: &Option<String>, use_default_browser: bool) -> (r: Option<String>)
    ensures
        connect_target is None && !use_default_browser ==> r is None,
        connect_target matches Some(t) ==> (r matches Some(s) && s@ == t@),
        connect_target is None && use_default_browser ==> (r matches Some(s) && s@ == "9222"@),
{
    match connect_target {
        Some(t) => Some(t.clone()),
        None => if use_default_browser {
            Some(String::from_str("9222"))
        } else {
            None
        },
    }
}

/// Whether some target a session persisted is still alive.
pub fn has_live_target(persisted: &Vec<String>, live: &Vec<String>) -> (b: bool)
    ensures
        b == exists|i: int, j: int|
            0 <= i < persisted@.len() && 0 <= j < live@.len() && #[trigger] persisted@[i]@
                == #[trigger] live@[j]@,
{
    let mut i: usize = 0;
    while i < persisted.len()
        invariant
            i <= persisted@.len(),
            forall|a: int, j: int|
                0 <= a < i && 0 <= j < live@.len() ==> #[trigger] persisted@[a]@ != #[trigger] live@[j]@,
        decreases persisted.len() - i,
    {
        let mut j: usize = 0;
        while j < live.len()
            invariant
                i < persisted@.len(),
                j <= live@.len(),
                forall|a: int, k: int|
                    0 <= a < i && 0 <= k < live@.len() ==> #[trigger] persisted@[a]@
                        != #[trigger] live@[k]@,
                forall|k: int| 0 <= k < j ==> persisted@[i as int]@ != #[trigger] live@[k]@,
            decreases live.len() - j,
        {
            if str_eq(persisted[i].as_str(), live[j].as_str()) {
                return true;
            }
            j = j + 1;
        }
        i = i + 1;
    }
    false
}

/// Which server events start streaming after a request was answered.
#[derive(Debug, Clone, Copy, PartialEq, Eq, Structural)]
pub enum EventPushes {
    Nothing,
    Mutations,
    MutationsAndPageEvents,
}

/// The events that start streaming after a request: mutations after
/// `perceive.mutations`, mutations and page events after `perceive.observe`, when the
/// request names a session.
pub fn pushes_after(method: &str, has_session: bool) -> (p: EventPushes)
    ensures
        p == (if !has_session {
            EventPushes::Nothing
        } else if method@ == "perceive.mutations"@ {
            EventPushes::Mutations
        } else if method@ == "perceive.observe"@ {
            EventPushes::MutationsAndPageEvents
        } else {
            EventPushes::Nothing
        }),
{
    if !has_session {
        EventPushes::Nothing
    } else if str_eq(method, "perceive.mutations") {
        EventPushes::Mutations
    } else if str_eq(method, "perceive.observe") {
        EventPushes::MutationsAndPageEvents
    } else {
        EventPushes::Nothing
    }
}

/// The script an evaluate request runs: the expression, or an async function returning
/// it when the request awaits a promise.
pub fn evaluate_script(expression: &str, await_promise: bool) -> (s: String)
    ensures
        s@ == (if await_promise {
            "(async () => { return "@ + expression@ + "; })()"@
        } else {
            expression@
        }),
{
    if await_promise {
        String::from_str("(async () => { return ").concat(expression).concat("; })()")
    } else {
        String::from_str(expression)
    }
}

/// A request's `timeoutMs`, else 30 seconds.
pub fn timeout_param(params: &JsonValue) -> (ms: u64)
    ensures
        ms == (match params.u64_member("timeoutMs"@) {
            Some(t) => t,
            None => 30000,
        }),
{
    match params.get_u64("timeoutMs") {
        Some(t) => t,
        None => 30000,
    }
}

/// The error of an evaluation that ran out of time ("Evaluate" or "EvaluateVoid").
pub fn evaluation_timed_out(what: &str, timeout_ms: u64) -> (e: ProtocolError)
    ensures
        e.code == ErrorCode::PerceptionFailed,
        e.message@ == what@ + " timed out after "@ + decimal(timeout_ms as nat) + "ms"@,
        e.data is None,
{
    ProtocolError::new(
        ErrorCode::PerceptionFailed,
        String::from_str(what).concat(" timed out after ").concat(u64_to_string(timeout_ms).as_str()).concat("ms"),
    )
}

/// A lowercase hexadecimal digit.
pub open spec fn hex_digit(n: int) -> char {
    if n < 10 {
        (48 + n) as char
    } else {
        (87 + n) as char
    }
}

/// How one character is written inside a JSON string: the quote and the backslash
/// after a backslash, the named control characters as `\b`, `\t`, `\n`, `\f`, `\r`,
/// the other control characters below U+0020 as `\u00` and two lowercase hex digits,
/// every other character as itself.
pub open spec fn json_char_escape(c: char) -> Seq<char> {
    if c == '"' {
        seq!['\\', '"']
    } else if c == '\\' {
        seq!['\\', '\\']
    } else if c == '\u{8}' {
        seq!['\\', 'b']
    } else if c == '\t' {
        seq!['\\', 't']
    } else if c == '\n' {
        seq!['\\', 'n']
    } else if c == '\u{c}' {
        seq!['\\', 'f']
    } else if c == '\r' {
        seq!['\\', 'r']
    } else if (c as int) < 32 {
        seq!['\\', 'u', '0', '0', hex_digit((c as int) / 16), hex_digit((c as int) % 16)]
    } else {
        seq![c]
    }
}

/// The characters of a text, each written as inside a JSON string.
pub open spec fn json_escaped(s: Seq<char>) -> Seq<char>
    decreases s.len(),
{
    if s.len() == 0 {
        s
    } else {
        json_escaped(s.drop_last()) + json_char_escape(s.last())
    }
}

/// The JSON string literal of a text: the escaped text between double quotes.
pub open spec fn json_string_literal(s: Seq<char>) -> Seq<char> {
    seq!['"'] + json_escaped(s) + seq!['"']
}

/// Writes a text as a JSON string literal with `serde_json::to_string`. Claimed: the
/// text between double quotes, with the quote, the backslash and the control
/// characters below U+0020 escaped as serde_json's escape table does (the call cannot
/// fail on a string; the empty string stands in if it did).
#[verifier::external_body]
pub(crate) fn json_quote(s: &str) -> (r: String)
    ensures
        r@ == json_string_literal(s@),
{
    serde_json::to_string(s).unwrap_or_default()
}

/// The text without the double quotes at its ends (all of them), as
/// `str::trim_matches('"')` leaves it.
pub open spec fn quotes_trimmed(s: Seq<char>, start: int, end: int) -> bool {
    &&& 0 <= start <= end <= s.len()
    &&& forall|i: int| 0 <= i < start ==> #[trigger] s[i] == '"'
    &&& forall|i: int| end <= i < s.len() ==> #[trigger] s[i] == '"'
    &&& start < end ==> s[start] != '"' && s[end - 1] != '"'
    &&& start == end ==> start == 0
}

/// Strips the double quotes at both ends of a text.
pub fn trim_quotes(s: &str) -> (r: String)
    ensures
        exists|start: int, end: int| #[trigger] quotes_trimmed(s@, start, end) && r@ == s@.subrange(start, end),
{
    let n = s.unicode_len();
    let mut start: usize = 0;
    while start < n && s.get_char(start) == '"'
        invariant
            n == s@.len(),
            start <= n,
            forall|i: int| 0 <= i < start ==> #[trigger] s@[i] == '"',
        decreases n - start,
    {
        start = start + 1;
    }
    if start == n {
        proof {
            reveal_strlit("");
            assert(quotes_trimmed(s@, 0, 0));
            assert(s@.subrange(0, 0) =~= ""@);
        }
        return String::from_str("");
    }
    let mut end: usize = n;
    while end > start && s.get_char(end - 1) == '"'
        invariant
            n == s@.len(),
            start < n,
            start <= end <= n,
            s@[start as int] != '"',
            forall|i: int| end <= i < n ==> #[trigger] s@[i] == '"',
        decreases end - start,
    {
        end = end - 1;
    }
    let r = s.substring_char(start, end);
    proof {
        assert(quotes_trimmed(s@, start as int, end as int));
    }
    r.to_string()
}

/// The decimal text of a signed number.
pub open spec fn signed_decimal(n: i64) -> Seq<char> {
    if n < 0 {
        "-"@ + decimal((-n) as nat)
    } else {
        decimal(n as nat)
    }
}

/// The decimal text of a signed number, as `to_string` writes it.
pub fn i64_to_string(n: i64) -> (s: String)
    ensures
        s@ == signed_decimal(n),
{
    if n < 0 {
        let magnitude: u64 = if n == i64::MIN {
            9223372036854775808u64
        } else {
            (-n) as u64
        };
        String::from_str("-").concat(u64_to_string(magnitude).as_str())
    } else {
        u64_to_string(n as u64)
    }
}

/// The text of a quoted-and-trimmed cookie name or value.
pub open spec fn cookie_token(s: Seq<char>, t: Seq<char>) -> bool {
    exists|start: int, end: int| #[trigger] quotes_trimmed(json_string_literal(s), start, end) && t == json_string_literal(s).subrange(start, end)
}

/// The parts of a cookie string after `name=value`: the path, the domain when given,
/// the max-age when given, and `secure` when set.
pub open spec fn cookie_attributes(path: Seq<char>, domain: Seq<char>, max_age: Option<i64>, secure: bool) -> Seq<Seq<char>> {
    seq!["path="@ + path] + (if domain.len() > 0 {
        seq!["domain="@ + domain]
    } else {
        Seq::empty()
    }) + (match max_age {
        Some(a) => seq!["max-age="@ + signed_decimal(a)],
        None => Seq::empty(),
    }) + (if secure {
        seq!["secure"@]
    } else {
        Seq::empty()
    })
}

/// The script that sets a cookie: `document.cookie = "<name>=<value>; path=...; ..."`,
/// the name and value written as JSON strings without their quotes.
pub fn set_cookie_script(
    name: &str,
    value: &str,
    path: &str,
    domain: &str,
    max_age: Option<i64>,
    secure: bool,
) -> (s: String)
    ensures
        exists|n: Seq<char>, v: Seq<char>|
            #[trigger] cookie_token(name@, n) && #[trigger] cookie_token(value@, v) && s@
                == "document.cookie = "@ + json_string_literal(
                join_seq(seq![n + "="@ + v] + cookie_attributes(path@, domain@, max_age, secure), "; "@),
            ),
{
    let n = trim_quotes(json_quote(name).as_str());
    let v = trim_quotes(json_quote(value).as_str());
    let mut parts: Vec<String> = Vec::new();
    parts.push(n.concat("=").concat(v.as_str()));
    parts.push(String::from_str("path=").concat(path));
    if domain.unicode_len() > 0 {
        parts.push(String::from_str("domain=").concat(domain));
    }
    match max_age {
        Some(a) => parts.push(String::from_str("max-age=").concat(i64_to_string(a).as_str())),
        None => {},
    }
    if secure {
        parts.push(String::from_str("secure"));
    }
    proof {
        assert(views(parts@) =~= seq![n@ + "="@ + v@] + cookie_attributes(path@, domain@, max_age, secure));
        assert(cookie_token(name@, n@));
        assert(cookie_token(value@, v@));
    }
    let cookie = join(&parts, "; ");
    String::from_str("document.cookie = ").concat(json_quote(cookie.as_str()).as_str())
}

/// The script that stores a key in `localStorage` or `sessionStorage`.
pub fn storage_set_script(storage: &str, key: &str, value: &str) -> (s: String)
    ensures
        s@ == storage@ + ".setItem("@ + json_string_literal(key@) + ", "@ + json_string_literal(value@) + ")"@,
{
    String::from_str(storage).concat(".setItem(").concat(json_quote(key).as_str()).concat(", ").concat(
        json_quote(value).as_str(),
    ).concat(")")
}

/// A reply with one boolean member.
pub fn flag_reply(key: &str, flag: bool) -> (v: JsonValue)
    ensures
        object_keys(v) == seq![key@],
        v.bool_member(key@) == Some(flag),
{
    let mut entries: Vec<(String, JsonValue)> = Vec::new();
    entries.push(member(key, JsonValue::Bool(flag)));
    proof {
        lemma_entry_lookup_at(entries@, 0, key@);
    }
    let v = JsonValue::Object(entries);
    proof {
        assert(object_keys(v) =~= seq![key@]);
    }
    v
}

/// The reply `{"ok": true, "note": note}`.
pub fn note_reply(note: &str) -> (v: JsonValue)
    ensures
        object_keys(v) == seq!["ok"@, "note"@],
        v.bool_member("ok"@) == Some(true),
        v.str_member("note"@) == Some(note@),
{
    proof {
        reveal_strlit("ok");
        reveal_strlit("note");
        assert("ok"@.len() == 2 && "note"@.len() == 4);
    }
    let mut entries: Vec<(String, JsonValue)> = Vec::new();
    entries.push(member("ok", JsonValue::Bool(true)));
    entries.push(member("note", JsonValue::text(note)));
    proof {
        lemma_entry_lookup_at(entries@, 0, "ok"@);
        lemma_entry_lookup_at(entries@, 1, "note"@);
    }
    let v = JsonValue::Object(entries);
    proof {
        assert(object_keys(v) =~= seq!["ok"@, "note"@]);
    }
    v
}

/// A reply with one member holding a value.
pub fn single_reply(key: &str, value: JsonValue) -> (v: JsonValue)
    ensures
        object_keys(v) == seq![key@],
        v.lookup(key@) == Some(value),
{
    let mut entries: Vec<(String, JsonValue)> = Vec::new();
    entries.push(member(key, value));
    proof {
        lemma_entry_lookup_at(entries@, 0, key@);
    }
    let v = JsonValue::Object(entries);
    proof {
        assert(object_keys(v) =~= seq![key@]);
    }
    v
}

/// The reply to creating or closing a session: `{"sessionId": id, "state": state}`.
pub fn session_reply(session_id: &str, state: &str) -> (v: JsonValue)
    ensures
        object_keys(v) == seq!["sessionId"@, "state"@],
        v.str_member("sessionId"@) == Some(session_id@),
        v.str_member("state"@) == Some(state@),
{
    proof {
        reveal_strlit("sessionId");
        reveal_strlit("state");
        assert("sessionId"@.len() == 9 && "state"@.len() == 5);
    }
    let mut entries: Vec<(String, JsonValue)> = Vec::new();
    entries.push(member("sessionId", JsonValue::text(session_id)));
    entries.push(member("state", JsonValue::text(state)));
    proof {
        lemma_entry_lookup_at(entries@, 0, "sessionId"@);
        lemma_entry_lookup_at(entries@, 1, "state"@);
    }
    let v = JsonValue::Object(entries);
    proof {
        assert(object_keys(v) =~= seq!["sessionId"@, "state"@]);
    }
    v
}

/// The element an extension click aims at: the `target` parameter, else `elementId`,
/// when a string.
pub fn extension_click_target(params: &JsonValue) -> (r: Option<String>)
    ensures
        opt_view(r) == (match params.str_member("target"@) {
            Some(t) => Some(t),
            None => params.str_member("elementId"@),
        }),
{
    match params.get_str("target") {
        Some(t) => Some(t),
        None => params.get_str("elementId"),
    }
}

/// The key an extension key press sends: the `key` parameter, else Enter.
pub fn extension_press_key(params: &JsonValue) -> (k: String)
    ensures
        k@ == (match params.str_member("key"@) {
            Some(k) => k,
            None => "Enter"@,
        }),
{
    match params.get_str("key") {
        Some(k) => k,
        None => String::from_str("Enter"),
    }
}

/// The Windows virtual key code of a named key (Enter 13, Tab 9, Escape 27,
/// Backspace 8, other keys 0).
pub fn windows_key_code(key: &str) -> (c: i64)
    ensures
        c == (if key@ == "Enter"@ {
            13i64
        } else if key@ == "Tab"@ {
            9i64
        } else if key@ == "Escape"@ {
            27i64
        } else if key@ == "Backspace"@ {
            8i64
        } else {
            0i64
        }),
{
    if str_eq(key, "Enter") {
        13
    } else if str_eq(key, "Tab") {
        9
    } else if str_eq(key, "Escape") {
        27
    } else if str_eq(key, "Backspace") {
        8
    } else {
        0
    }
}

/// How often a WebSocket ping is sent, in milliseconds.
pub const HEARTBEAT_INTERVAL_MS: u64 = 60_000;

/// How long a connection may stay without a pong before it counts as stale, in
/// nanoseconds (five minutes).
pub const HEARTBEAT_TIMEOUT_NS: u64 = 300_000_000_000;

/// What the heartbeat does at a tick.
#[derive(Debug, Clone, Copy, PartialEq, Eq, Structural)]
pub enum HeartbeatAction {
    /// Send a ping.
    Ping,
    /// The connection is stale: close it.
    Close,
}

/// Decides the heartbeat's action, `since_pong_ns` nanoseconds after the last pong:
/// the connection is closed once that exceeds the timeout, else pinged.
pub fn heartbeat_action(since_pong_ns: u64) -> (a: HeartbeatAction)
    ensures
        a == (if since_pong_ns > HEARTBEAT_TIMEOUT_NS {
            HeartbeatAction::Close
        } else {
            HeartbeatAction::Ping
        }),
{
    if since_pong_ns > HEARTBEAT_TIMEOUT_NS {
        HeartbeatAction::Close
    } else {
        HeartbeatAction::Ping
    }
}

/// How many times an extension navigation probes the page state.
pub const NAVIGATE_PROBES: u32 = 3;

/// How long one page-state probe after an extension navigation may take, in ms.
pub const NAVIGATE_PROBE_TIMEOUT_MS: u64 = 5000;

/// The pause between two page-state probes, in ms.
pub const NAVIGATE_RETRY_PAUSE_MS: u64 = 2000;

/// What follows a page-state probe after an extension navigation.
#[derive(Debug, Clone, Copy, PartialEq, Eq, Structural)]
pub enum NavigateStep {
    /// The probe answered: reply with the page state.
    Answer,
    /// Pause this many ms, then probe again.
    Retry(u64),
    /// The probes are used up: reply that the navigation was sent.
    Fallback,
}

/// Decides after page-state probe number `probe` (from 0), which answered in time when
/// `answered`.
pub fn navigate_step(probe: u32, answered: bool) -> (r: NavigateStep)
    ensures
        r == (if answered {
            NavigateStep::Answer
        } else if probe + 1 < NAVIGATE_PROBES {
            NavigateStep::Retry(NAVIGATE_RETRY_PAUSE_MS)
        } else {
            NavigateStep::Fallback
        }),
{
    if answered {
        NavigateStep::Answer
    } else if (probe as u64) + 1 < NAVIGATE_PROBES as u64 {
        NavigateStep::Retry(NAVIGATE_RETRY_PAUSE_MS)
    } else {
        NavigateStep::Fallback
    }
}

/// The reply when no probe answered after an extension navigation:
/// `{"url": url, "title": "unknown", "navigated": true}`.
pub fn navigate_fallback_reply(url: &str) -> (v: JsonValue)
    ensures
        object_keys(v) == seq!["url"@, "title"@, "navigated"@],
        v.str_member("url"@) == Some(url@),
        v.str_member("title"@) == Some("unknown"@),
        v.bool_member("navigated"@) == Some(true),
{
    proof {
        reveal_strlit("url");
        reveal_strlit("title");
        reveal_strlit("navigated");
        reveal_strlit("unknown");
        assert("url"@.len() == 3 && "title"@.len() == 5 && "navigated"@.len() == 9);
        assert("url"@[0] != "title"@[0] && "url"@[0] != "navigated"@[0] && "title"@[0]
            != "navigated"@[0]);
    }
    let mut entries: Vec<(String, JsonValue)> = Vec::new();
    entries.push(member("url", JsonValue::text(url)));
    entries.push(member("title", JsonValue::text("unknown")));
    entries.push(member("navigated", JsonValue::Bool(true)));
    proof {
        lemma_entry_lookup_at(entries@, 0, "url"@);
        lemma_entry_lookup_at(entries@, 1, "title"@);
        lemma_entry_lookup_at(entries@, 2, "navigated"@);
    }
    let v = JsonValue::Object(entries);
    proof {
        assert(object_keys(v) =~= seq!["url"@, "title"@, "navigated"@]);
    }
    v
}

/// The message when no extension tab is attached.
pub const NO_EXTENSION_TABS: &'static str =
    "No extension tabs available. Make sure the Chrome extension is connected and a tab is attached.";

/// The position of the first tab whose extension session is `id`.
pub open spec fn tab_position(tabs: Seq<ExtensionTab>, id: Seq<char>) -> Option<int>
    decreases tabs.len(),
{
    if tabs.len() == 0 {
        None
    } else {
        match tab_position(tabs.drop_last(), id) {
            Some(i) => Some(i),
            None => if tabs.last().session_id@ == id {
                Some(tabs.len() - 1)
            } else {
                None
            },
        }
    }
}

proof fn lemma_tab_position_prefix(tabs: Seq<ExtensionTab>, id: Seq<char>, k: int)
    requires
        0 <= k < tabs.len(),
        tab_position(tabs.subrange(0, k), id) is None,
        tabs[k].session_id@ == id,
    ensures
        tab_position(tabs, id) == Some(k),
    decreases tabs.len() - k,
{
    if k + 1 == tabs.len() {
        assert(tabs.drop_last() =~= tabs.subrange(0, k));
    } else {
        let t = tabs.drop_last();
        assert(t.subrange(0, k) =~= tabs.subrange(0, k));
        lemma_tab_position_prefix(t, id, k);
        assert(tab_position(t, id) == Some(k));
    }
}

/// Picks the extension tab a new extension-backed session attaches to: the tab of the
/// requested extension session, or the first tab when none is requested. Fails with
/// `BrowserDisconnected` when no tab is attached, and with `SessionNotFound` when the
/// requested extension session has no tab.
pub fn choose_extension_tab(tabs: &Vec<ExtensionTab>, wanted: Option<&str>) -> (r: Result<
    usize,
    ProtocolError,
>)
    ensures
        tabs@.len() == 0 ==> (r matches Err(e) && e.code == ErrorCode::BrowserDisconnected
            && e.message@ == NO_EXTENSION_TABS@ && e.data is None),
        tabs@.len() > 0 ==> match wanted {
            None => r matches Ok(i) && i == 0,
            Some(id) => match tab_position(tabs@, id@) {
                Some(k) => r matches Ok(i) && i == k,
                None => r matches Err(e) && e.code == ErrorCode::SessionNotFound && e.message@
                    == "Session not found: "@ + id@ && e.data is None,
            },
        },
{
    if tabs.len() == 0 {
        return Err(
            ProtocolError::new(ErrorCode::BrowserDisconnected, String::from_str(NO_EXTENSION_TABS)),
        );
    }
    match wanted {
        None => Ok(0),
        Some(id) => {
            let mut i: usize = 0;
            assert(tabs@.subrange(0, 0).len() == 0);
            while i < tabs.len()
                invariant
                    i <= tabs@.len(),
                    tabs@.len() > 0,
                    wanted == Some(id),
                    tab_position(tabs@.subrange(0, i as int), id@) is None,
                decreases tabs.len() - i,
            {
                if str_eq(tabs[i].session_id.as_str(), id) {
                    proof {
                        lemma_tab_position_prefix(tabs@, id@, i as int);
                    }
                    return Ok(i);
                }
                proof {
                    assert(tabs@.subrange(0, i + 1).drop_last() =~= tabs@.subrange(0, i as int));
                }
                i = i + 1;
            }
            proof {
                assert(tabs@.subrange(0, tabs@.len() as int) =~= tabs@);
            }
            Err(ProtocolError::session_not_found(id))
        },
    }
}

/// Serves `session.close` on an extension-backed session: the session's mapping is
/// removed, so it is no longer backed by the extension, while its tab stays open and
/// attached; the reply is `{"closed": true}`.
pub fn close_extension_session<W, P>(bridge: &mut ExtensionManager<W, P>, session_id: &str) -> (v:
    JsonValue)
    ensures
        final(bridge).mappings() == without_mapping(old(bridge).mappings(), session_id@),
        mapping_position(final(bridge).mappings(), session_id@, 0) is None,
        final(bridge).tabs() == old(bridge).tabs(),
        final(bridge).connection() == old(bridge).connection(),
        final(bridge).pending() == old(bridge).pending(),
        final(bridge).counter() == old(bridge).counter(),
        object_keys(v) == seq!["closed"@],
        v.bool_member("closed"@) == Some(true),
{
    bridge.unregister_session_mapping(session_id);
    proof {
        law_unregistered_mapping_gone(old(bridge).mappings(), session_id@);
    }
    flag_reply("closed", true)
}

/// The stages of creating a session, after the registry has recorded it.
#[derive(Debug, Clone, Copy, PartialEq, Eq, Structural)]
pub enum CreateStage {
    /// Mark the session as launching.
    StartLaunch,
    /// Launch, connect to or relaunch the browser (per `launch_mode`).
    LaunchBrowser,
    /// Hand the browser to the session, which becomes active.
    CompleteLaunch,
    /// Get the session's page, to open the initial URL.
    OpenPage,
    /// Navigate the page to the initial URL.
    Navigate,
    /// Done: record the session on disk and reply.
    Finish,
}

/// The stage after `stage` succeeds: the initial URL's page is opened and navigated
/// only when the request names one.
pub open spec fn create_stage_after(stage: CreateStage, has_url: bool) -> CreateStage {
    match stage {
        CreateStage::StartLaunch => CreateStage::LaunchBrowser,
        CreateStage::LaunchBrowser => CreateStage::CompleteLaunch,
        CreateStage::CompleteLaunch => if has_url {
            CreateStage::OpenPage
        } else {
            CreateStage::Finish
        },
        CreateStage::OpenPage => CreateStage::Navigate,
        CreateStage::Navigate => CreateStage::Finish,
        CreateStage::Finish => CreateStage::Finish,
    }
}

/// The error code a failure at `stage` is answered with: a failed browser launch is
/// `BrowserLaunchFailed`, a failed navigation `NavigationFailed`, anything else internal.
pub open spec fn create_failure_code(stage: CreateStage) -> ErrorCode {
    match stage {
        CreateStage::LaunchBrowser => ErrorCode::BrowserLaunchFailed,
        CreateStage::Navigate => ErrorCode::NavigationFailed,
        _ => ErrorCode::InternalError,
    }
}

/// Decides what follows stage `stage` of a session creation, whose work ended with
/// `outcome`: the next stage, or the error the request is answered with (carrying the
/// failure's text).
pub fn session_create_step(stage: CreateStage, outcome: Result<(), TivanaError>, has_url: bool) -> (r:
    Result<CreateStage, ProtocolError>)
    ensures
        outcome is Ok ==> r == Ok::<CreateStage, ProtocolError>(create_stage_after(stage, has_url)),
        outcome matches Err(e) ==> (r matches Err(p) && p.code == create_failure_code(stage)
            && p.message@ == tivana_error_text(e) && p.data is None),
{
    match outcome {
        Ok(()) => Ok(
            match stage {
                CreateStage::StartLaunch => CreateStage::LaunchBrowser,
                CreateStage::LaunchBrowser => CreateStage::CompleteLaunch,
                CreateStage::CompleteLaunch => if has_url {
                    CreateStage::OpenPage
                } else {
                    CreateStage::Finish
                },
                CreateStage::OpenPage => CreateStage::Navigate,
                CreateStage::Navigate => CreateStage::Finish,
                CreateStage::Finish => CreateStage::Finish,
            },
        ),
        Err(e) => {
            let text = e.to_string();
            Err(
                match stage {
                    CreateStage::LaunchBrowser => ProtocolError::browser_launch_failed(text),
                    CreateStage::Navigate => ProtocolError::new(ErrorCode::NavigationFailed, text),
                    _ => ProtocolError::internal(text),
                },
            )
        },
    }
}

/// The floating-point reading (its bits) of a numeric parameter, or `default_bits` when
/// the parameter is absent or not a number.
pub open spec fn float_param_bits(params: JsonValue, key: Seq<char>, default_bits: u64) -> u64 {
    match params.float_bits_member(key) {
        Some(b) => b,
        None => default_bits,
    }
}

/// The decimal text of that reading, or `default_text`.
pub open spec fn float_param_text(params: JsonValue, key: Seq<char>, default_text: Seq<char>) -> Seq<
    char,
> {
    match params.lookup(key) {
        Some(JsonValue::Number(n)) => match n.float_bits {
            Some(_) => n.float_text@,
            None => default_text,
        },
        _ => default_text,
    }
}

/// Whether `v` holds, under `key`, a number read as a float only: the given bits and text.
pub open spec fn float_member_is(v: JsonValue, key: Seq<char>, bits: u64, text: Seq<char>) -> bool {
    v.lookup(key) matches Some(JsonValue::Number(n)) && n.as_u64 is None && n.as_i64 is None
        && n.float_bits == Some(bits) && n.float_text@ == text
}

/// The bits of 300.0, the default vertical scroll of an extension scroll.
pub const DEFAULT_WHEEL_DELTA_Y_BITS: u64 = 0x4072_C000_0000_0000;

/// A number read as a float: the parameter's floating-point reading, or the default.
fn float_param(params: &JsonValue, key: &str, default_bits: u64, default_text: &str) -> (n: JsonNumber)
    ensures
        n.as_u64 is None,
        n.as_i64 is None,
        n.float_bits == Some(float_param_bits(*params, key@, default_bits)),
        n.float_text@ == float_param_text(*params, key@, default_text@),
{
    let fallback = JsonNumber {
        as_u64: None,
        as_i64: None,
        float_text: String::from_str(default_text),
        float_bits: Some(default_bits),
    };
    match params.get(key) {
        Some(JsonValue::Number(m)) => match m.float_bits {
            Some(b) => JsonNumber {
                as_u64: None,
                as_i64: None,
                float_text: m.float_text.clone(),
                float_bits: Some(b),
            },
            None => fallback,
        },
        _ => fallback,
    }
}

/// The mouse-wheel event an extension scroll dispatches: at (400, 400), by the
/// `deltaX` and `deltaY` parameters read as floats (0 and 300 when absent).
pub fn extension_scroll_event(params: &JsonValue) -> (v: JsonValue)
    ensures
        object_keys(v) == seq!["type"@, "x"@, "y"@, "deltaX"@, "deltaY"@],
        v.str_member("type"@) == Some("mouseWheel"@),
        v.u64_member("x"@) == Some(400u64),
        v.u64_member("y"@) == Some(400u64),
        float_member_is(
            v,
            "deltaX"@,
            float_param_bits(*params, "deltaX"@, 0),
            float_param_text(*params, "deltaX"@, "0"@),
        ),
        float_member_is(
            v,
            "deltaY"@,
            float_param_bits(*params, "deltaY"@, DEFAULT_WHEEL_DELTA_Y_BITS),
            float_param_text(*params, "deltaY"@, "300"@),
        ),
{
    proof {
        reveal_strlit("type");
        reveal_strlit("x");
        reveal_strlit("y");
        reveal_strlit("deltaX");
        reveal_strlit("deltaY");
        assert("type"@.len() == 4 && "x"@.len() == 1 && "y"@.len() == 1 && "deltaX"@.len() == 6
            && "deltaY"@.len() == 6);
        assert("x"@[0] != "y"@[0] && "deltaX"@[5] != "deltaY"@[5]);
    }
    let dx = float_param(params, "deltaX", 0, "0");
    let dy = float_param(params, "deltaY", DEFAULT_WHEEL_DELTA_Y_BITS, "300");
    let mut entries: Vec<(String, JsonValue)> = Vec::new();
    entries.push(member("type", JsonValue::text("mouseWheel")));
    entries.push(member("x", JsonValue::unsigned(400)));
    entries.push(member("y", JsonValue::unsigned(400)));
    entries.push(member("deltaX", JsonValue::Number(dx)));
    entries.push(member("deltaY", JsonValue::Number(dy)));
    proof {
        lemma_entry_lookup_at(entries@, 0, "type"@);
        lemma_entry_lookup_at(entries@, 1, "x"@);
        lemma_entry_lookup_at(entries@, 2, "y"@);
        lemma_entry_lookup_at(entries@, 3, "deltaX"@);
        lemma_entry_lookup_at(entries@, 4, "deltaY"@);
    }
    let v = JsonValue::Object(entries);
    proof {
        assert(object_keys(v) =~= seq!["type"@, "x"@, "y"@, "deltaX"@, "deltaY"@]);
    }
    v
}

/// Where an extension click lands when it names no element: the `x` and `y`
/// parameters' float readings (bits), 0 when absent.
pub fn extension_click_point(params: &JsonValue) -> (r: (u64, u64))
    ensures
        r == (float_param_bits(*params, "x"@, 0), float_param_bits(*params, "y"@, 0)),
{
    let x = match params.get_float_bits("x") {
        Some(b) => b,
        None => 0,
    };
    let y = match params.get_float_bits("y") {
        Some(b) => b,
        None => 0,
    };
    (x, y)
}

/// What the locate script of an extension click answered.
#[derive(Debug)]
pub enum ClickLocate {
    /// The element's center (float bits of x and y; 0 when absent).
    Located { x_bits: u64, y_bits: u64 },
    /// The script reported this error value: the click fails.
    ScriptError(JsonValue),
    /// The answer is not JSON: the click fails with this internal error.
    Unreadable(ProtocolError),
}

/// Reads the locate script's answer: not JSON is an internal error with the parser's
/// message; an `error` member is the script's failure; else the center it reports.
pub fn extension_click_locate(answer: &str) -> (r: ClickLocate)
    ensures
        match parsed_json(answer@) {
            Err(e) => r matches ClickLocate::Unreadable(p) && p.code == ErrorCode::InternalError
                && p.message@ == e && p.data is None,
            Ok(v) => match v.lookup("error"@) {
                Some(err) => r == ClickLocate::ScriptError(err),
                None => r == (ClickLocate::Located {
                    x_bits: float_param_bits(v, "x"@, 0),
                    y_bits: float_param_bits(v, "y"@, 0),
                }),
            },
        },
{
    match parse_json(answer) {
        Err(e) => ClickLocate::Unreadable(ProtocolError::internal(e)),
        Ok(v) => {
            if v.has("error") {
                match v.into_member("error") {
                    Some(err) => ClickLocate::ScriptError(err),
                    None => ClickLocate::Located { x_bits: 0, y_bits: 0 },
                }
            } else {
                let (x_bits, y_bits) = extension_click_point(&v);
                ClickLocate::Located { x_bits, y_bits }
            }
        },
    }
}

/// The DOM `code` of a key an extension press sends: "Key" and the uppercase of the
/// key's first character ("A" for an empty key).
pub open spec fn key_code_text(key: Seq<char>) -> Seq<char> {
    "Key"@ + uppercase(
        if key.len() > 0 {
            seq![key[0]]
        } else {
            seq!['A']
        },
    )
}

/// The key-down event an extension press dispatches.
pub fn extension_key_down(key: &str) -> (v: JsonValue)
    ensures
        object_keys(v) == seq!["type"@, "key"@, "code"@, "windowsVirtualKeyCode"@],
        v.str_member("type"@) == Some("rawKeyDown"@),
        v.str_member("key"@) == Some(key@),
        v.str_member("code"@) == Some(key_code_text(key@)),
        v.u64_member("windowsVirtualKeyCode"@) == Some(
            (if key@ == "Enter"@ {
                13u64
            } else if key@ == "Tab"@ {
                9u64
            } else if key@ == "Escape"@ {
                27u64
            } else if key@ == "Backspace"@ {
                8u64
            } else {
                0u64
            }),
        ),
{
    proof {
        reveal_strlit("type");
        reveal_strlit("key");
        reveal_strlit("code");
        reveal_strlit("windowsVirtualKeyCode");
        assert("type"@.len() == 4 && "key"@.len() == 3 && "code"@.len() == 4
            && "windowsVirtualKeyCode"@.len() == 21);
        assert("type"@[0] != "code"@[0]);
    }
    let chars = chars_of(key);
    let mut first = String::new();
    if chars.len() > 0 {
        push_char(&mut first, chars[0]);
    } else {
        push_char(&mut first, 'A');
    }
    assert(first@ =~= (if key@.len() > 0 {
        seq![key@[0]]
    } else {
        seq!['A']
    }));
    let code = String::from_str("Key").concat(to_uppercase(first.as_str()).as_str());
    let wcode = windows_key_code(key);
    let mut entries: Vec<(String, JsonValue)> = Vec::new();
    entries.push(member("type", JsonValue::text("rawKeyDown")));
    entries.push(member("key", JsonValue::text(key)));
    entries.push(member("code", JsonValue::Str(code)));
    entries.push(member("windowsVirtualKeyCode", JsonValue::unsigned(wcode as u64)));
    proof {
        lemma_entry_lookup_at(entries@, 0, "type"@);
        lemma_entry_lookup_at(entries@, 1, "key"@);
        lemma_entry_lookup_at(entries@, 2, "code"@);
        lemma_entry_lookup_at(entries@, 3, "windowsVirtualKeyCode"@);
    }
    let v = JsonValue::Object(entries);
    proof {
        assert(object_keys(v) =~= seq!["type"@, "key"@, "code"@, "windowsVirtualKeyCode"@]);
    }
    v
}

/// The key-up event an extension press dispatches.
pub fn extension_key_up(key: &str) -> (v: JsonValue)
    ensures
        object_keys(v) == seq!["type"@, "key"@],
        v.str_member("type"@) == Some("keyUp"@),
        v.str_member("key"@) == Some(key@),
{
    proof {
        reveal_strlit("type");
        reveal_strlit("key");
        assert("type"@.len() == 4 && "key"@.len() == 3);
    }
    let mut entries: Vec<(String, JsonValue)> = Vec::new();
    entries.push(member("type", JsonValue::text("keyUp")));
    entries.push(member("key", JsonValue::text(key)));
    proof {
        lemma_entry_lookup_at(entries@, 0, "type"@);
        lemma_entry_lookup_at(entries@, 1, "key"@);
    }
    let v = JsonValue::Object(entries);
    proof {
        assert(object_keys(v) =~= seq!["type"@, "key"@]);
    }
    v
}

/// The SDK method a handler is named after.
pub open spec fn handler_method(h: Handler) -> Seq<char> {
    match h {
        Handler::SessionCreate => "session.create"@,
        Handler::SessionClose => "session.close"@,
        Handler::SessionList => "session.list"@,
        Handler::SessionTabs => "session.tabs"@,
        Handler::SessionSwitchTab => "session.switchTab"@,
        Handler::SessionNewTab => "session.newTab"@,
        Handler::SessionCloseTab => "session.closeTab"@,
        Handler::SessionGet => "session.get"@,
        Handler::SessionCleanTabs => "session.cleanTabs"@,
        Handler::SessionFromExtension => "session.fromExtension"@,
        Handler::ExtensionTabs => "extension.tabs"@,
        Handler::BrowserNavigate => "browser.navigate"@,
        Handler::BrowserUrl => "browser.url"@,
        Handler::PerceivePageState => "perceive.pageState"@,
        Handler::PerceiveElements => "perceive.elements"@,
        Handler::PerceiveAccessibility => "perceive.accessibility"@,
        Handler::PerceiveText => "perceive.text"@,
        Handler::PerceiveMetadata => "perceive.metadata"@,
        Handler::PerceiveFindElements => "perceive.findElements"@,
        Handler::PerceiveMutations => "perceive.mutations"@,
        Handler::PerceiveMutationsPoll => "perceive.mutations.poll"@,
        Handler::PerceiveMutationsStop => "perceive.mutations.stop"@,
        Handler::PerceiveObserve => "perceive.observe"@,
        Handler::PerceiveUnobserve => "perceive.unobserve"@,
        Handler::PerceiveFormFields => "perceive.formFields"@,
        Handler::PerceiveEvaluate => "perceive.evaluate"@,
        Handler::PerceiveEvaluateVoid => "perceive.evaluateVoid"@,
        Handler::ActClick => "act.click"@,
        Handler::ActType => "act.type"@,
        Handler::ActPress => "act.press"@,
        Handler::ActScroll => "act.scroll"@,
        Handler::ActHover => "act.hover"@,
        Handler::ActFocus => "act.focus"@,
        Handler::ActSelect => "act.select"@,
        Handler::ActWaitFor => "act.waitFor"@,
        Handler::ActWaitForSelector => "act.waitForSelector"@,
        Handler::ActWaitForNavigation => "act.waitForNavigation"@,
        Handler::ActWaitForFunction => "act.waitForFunction"@,
        Handler::ActBatch => "act.batch"@,
        Handler::ActFillForm => "act.fillForm"@,
        Handler::ActSmartFill => "act.smartFill"@,
        Handler::PerceiveScreenshot => "perceive.screenshot"@,
        Handler::NetworkEnable => "network.enable"@,
        Handler::NetworkRequests => "network.requests"@,
        Handler::NetworkClear => "network.clear"@,
        Handler::ActHandleDialog => "act.handleDialog"@,
        Handler::ActUploadFile => "act.uploadFile"@,
        Handler::StorageGetCookies => "storage.getCookies"@,
        Handler::StorageSetCookie => "storage.setCookie"@,
        Handler::StorageClearCookies => "storage.clearCookies"@,
        Handler::StorageGetLocalStorage => "storage.getLocalStorage"@,
        Handler::StorageSetLocalStorage => "storage.setLocalStorage"@,
        Handler::StorageGetSessionStorage => "storage.getSessionStorage"@,
        Handler::StorageSetSessionStorage => "storage.setSessionStorage"@,
        Handler::StorageClear => "storage.clear"@,
        Handler::CaptchaDetect => "captcha.detect"@,
        Handler::CaptchaSolve => "captcha.solve"@,
        Handler::ProxySet => "proxy.set"@,
        Handler::ProxyPool => "proxy.pool"@,
        Handler::ProxyRotate => "proxy.rotate"@,
        Handler::ProxyCurrent => "proxy.current"@,
    }
}

/// The second name a handler answers to, where it has one (`act.navigate`,
/// `perceive.accessibilitySnapshot`, `perceive.textContent`).
pub open spec fn handler_alias(h: Handler) -> Option<Seq<char>> {
    match h {
        Handler::PerceiveAccessibility => Some("perceive.accessibilitySnapshot"@),
        Handler::PerceiveText => Some("perceive.textContent"@),
        Handler::BrowserNavigate => Some("act.navigate"@),
        _ => None,
    }
}

/// Every SDK method is served by the handler named after it, or by the one whose
/// documented second name it is: so two different methods never share a handler except
/// through those aliases (a click request is never served by the hover handler).
pub proof fn law_methods_reach_their_namesake_handlers(method: Seq<char>)
    ensures
        handler_for(method) matches Some(h) ==> (method == handler_method(h) || handler_alias(h)
            == Some(method)),
{
}

/// Two methods served by the same handler are the same method, or that handler's name
/// and its documented second name.
pub proof fn law_distinct_methods_distinct_handlers(m1: Seq<char>, m2: Seq<char>)
    requires
        handler_for(m1) is Some,
        handler_for(m1) == handler_for(m2),
        m1 != m2,
    ensures
        handler_alias(handler_for(m1).unwrap()) is Some,
        (m1 == handler_method(handler_for(m1).unwrap()) && Some(m2) == handler_alias(handler_for(m1).unwrap()))
            || (m2 == handler_method(handler_for(m1).unwrap()) && Some(m1) == handler_alias(handler_for(m1).unwrap())),
{
    law_methods_reach_their_namesake_handlers(m1);
    law_methods_reach_their_namesake_handlers(m2);
}

/// Each handler serves the method named after it, and its documented second name.
#[verifier::rlimit(100)]
#[verifier::spinoff_prover]
pub proof fn law_handlers_answer_their_names(h: Handler)
    ensures
        handler_for(handler_method(h)) == Some(h),
        handler_alias(h) matches Some(a) ==> handler_for(a) == Some(h),
{
    reveal_strlit("session.create");
    reveal_strlit("session.close");
    reveal_strlit("session.list");
    reveal_strlit("session.tabs");
    reveal_strlit("session.switchTab");
    reveal_strlit("session.newTab");
    reveal_strlit("session.closeTab");
    reveal_strlit("session.get");
    reveal_strlit("session.cleanTabs");
    reveal_strlit("session.fromExtension");
    reveal_strlit("extension.tabs");
    reveal_strlit("browser.navigate");
    reveal_strlit("browser.url");
    reveal_strlit("perceive.pageState");
    reveal_strlit("perceive.elements");
    reveal_strlit("perceive.accessibility");
    reveal_strlit("perceive.accessibilitySnapshot");
    reveal_strlit("perceive.text");
    reveal_strlit("perceive.textContent");
    reveal_strlit("perceive.metadata");
    reveal_strlit("perceive.findElements");
    reveal_strlit("perceive.mutations");
    reveal_strlit("perceive.mutations.poll");
    reveal_strlit("perceive.mutations.stop");
    reveal_strlit("perceive.observe");
    reveal_strlit("perceive.unobserve");
    reveal_strlit("perceive.formFields");
    reveal_strlit("perceive.evaluate");
    reveal_strlit("perceive.evaluateVoid");
    reveal_strlit("act.click");
    reveal_strlit("act.type");
    reveal_strlit("act.press");
    reveal_strlit("act.scroll");
    reveal_strlit("act.navigate");
    reveal_strlit("act.hover");
    reveal_strlit("act.focus");
    reveal_strlit("act.select");
    reveal_strlit("act.waitFor");
    reveal_strlit("act.waitForSelector");
    reveal_strlit("act.waitForNavigation");
    reveal_strlit("act.waitForFunction");
    reveal_strlit("act.batch");
    reveal_strlit("act.fillForm");
    reveal_strlit("act.smartFill");
    reveal_strlit("perceive.screenshot");
    reveal_strlit("network.enable");
    reveal_strlit("network.requests");
    reveal_strlit("network.clear");
    reveal_strlit("act.handleDialog");
    reveal_strlit("act.uploadFile");
    reveal_strlit("storage.getCookies");
    reveal_strlit("storage.setCookie");
    reveal_strlit("storage.clearCookies");
    reveal_strlit("storage.getLocalStorage");
    reveal_strlit("storage.setLocalStorage");
    reveal_strlit("storage.getSessionStorage");
    reveal_strlit("storage.setSessionStorage");
    reveal_strlit("storage.clear");
    reveal_strlit("captcha.detect");
    reveal_strlit("captcha.solve");
    reveal_strlit("proxy.set");
    reveal_strlit("proxy.pool");
    reveal_strlit("proxy.rotate");
    reveal_strlit("proxy.current");
    assert("session.create"@.len() == 14);
    assert("session.close"@.len() == 13);
    assert("session.list"@.len() == 12);
    assert("session.tabs"@.len() == 12);
    assert("session.switchTab"@.len() == 17);
    assert("session.newTab"@.len() == 14);
    assert("session.closeTab"@.len() == 16);
    assert("session.get"@.len() == 11);
    assert("session.cleanTabs"@.len() == 17);
    assert("session.fromExtension"@.len() == 21);
    assert("extension.tabs"@.len() == 14);
    assert("browser.navigate"@.len() == 16);
    assert("browser.url"@.len() == 11);
    assert("perceive.pageState"@.len() == 18);
    assert("perceive.elements"@.len() == 17);
    assert("perceive.accessibility"@.len() == 22);
    assert("perceive.accessibilitySnapshot"@.len() == 30);
    assert("perceive.text"@.len() == 13);
    assert("perceive.textContent"@.len() == 20);
    assert("perceive.metadata"@.len() == 17);
    assert("perceive.findElements"@.len() == 21);
    assert("perceive.mutations"@.len() == 18);
    assert("perceive.mutations.poll"@.len() == 23);
    assert("perceive.mutations.stop"@.len() == 23);
    assert("perceive.observe"@.len() == 16);
    assert("perceive.unobserve"@.len() == 18);
    assert("perceive.formFields"@.len() == 19);
    assert("perceive.evaluate"@.len() == 17);
    assert("perceive.evaluateVoid"@.len() == 21);
    assert("act.click"@.len() == 9);
    assert("act.type"@.len() == 8);
    assert("act.press"@.len() == 9);
    assert("act.scroll"@.len() == 10);
    assert("act.navigate"@.len() == 12);
    assert("act.hover"@.len() == 9);
    assert("act.focus"@.len() == 9);
    assert("act.select"@.len() == 10);
    assert("act.waitFor"@.len() == 11);
    assert("act.waitForSelector"@.len() == 19);
    assert("act.waitForNavigation"@.len() == 21);
    assert("act.waitForFunction"@.len() == 19);
    assert("act.batch"@.len() == 9);
    assert("act.fillForm"@.len() == 12);
    assert("act.smartFill"@.len() == 13);
    assert("perceive.screenshot"@.len() == 19);
    assert("network.enable"@.len() == 14);
    assert("network.requests"@.len() == 16);
    assert("network.clear"@.len() == 13);
    assert("act.handleDialog"@.len() == 16);
    assert("act.uploadFile"@.len() == 14);
    assert("storage.getCookies"@.len() == 18);
    assert("storage.setCookie"@.len() == 17);
    assert("storage.clearCookies"@.len() == 20);
    assert("storage.getLocalStorage"@.len() == 23);
    assert("storage.setLocalStorage"@.len() == 23);
    assert("storage.getSessionStorage"@.len() == 25);
    assert("storage.setSessionStorage"@.len() == 25);
    assert("storage.clear"@.len() == 13);
    assert("captcha.detect"@.len() == 14);
    assert("captcha.solve"@.len() == 13);
    assert("proxy.set"@.len() == 9);
    assert("proxy.pool"@.len() == 10);
    assert("proxy.rotate"@.len() == 12);
    assert("proxy.current"@.len() == 13);
    match h {
        Handler::SessionCreate => {},
        Handler::SessionClose => {},
        Handler::SessionList => {},
        Handler::SessionTabs => {
            assert("session.tabs"@[8] != "session.list"@[8]);
        },
        Handler::SessionSwitchTab => {},
        Handler::SessionNewTab => {
            assert("session.newTab"@[8] != "session.create"@[8]);
        },
        Handler::SessionCloseTab => {},
        Handler::SessionGet => {},
        Handler::SessionCleanTabs => {
            assert("session.cleanTabs"@[8] != "session.switchTab"@[8]);
        },
        Handler::SessionFromExtension => {},
        Handler::ExtensionTabs => {
            assert("extension.tabs"@[0] != "session.create"@[0]);
            assert("extension.tabs"@[0] != "session.newTab"@[0]);
        },
        Handler::BrowserNavigate => {
            assert("browser.navigate"@[0] != "session.closeTab"@[0]);
            assert("act.navigate"@[0] != "session.list"@[0]);
            assert("act.navigate"@[0] != "session.tabs"@[0]);
        },
        Handler::BrowserUrl => {
            assert("browser.url"@[0] != "session.get"@[0]);
        },
        Handler::PerceivePageState => {},
        Handler::PerceiveElements => {
            assert("perceive.elements"@[0] != "session.switchTab"@[0]);
            assert("perceive.elements"@[0] != "session.cleanTabs"@[0]);
        },
        Handler::PerceiveAccessibility => {},
        Handler::PerceiveText => {
            assert("perceive.text"@[0] != "session.close"@[0]);
        },
        Handler::PerceiveMetadata => {
            assert("perceive.metadata"@[0] != "session.switchTab"@[0]);
            assert("perceive.metadata"@[0] != "session.cleanTabs"@[0]);
            assert("perceive.metadata"@[9] != "perceive.elements"@[9]);
        },
        Handler::PerceiveFindElements => {
            assert("perceive.findElements"@[0] != "session.fromExtension"@[0]);
        },
        Handler::PerceiveMutations => {
            assert("perceive.mutations"@[9] != "perceive.pageState"@[9]);
        },
        Handler::PerceiveMutationsPoll => {},
        Handler::PerceiveMutationsStop => {
            assert("perceive.mutations.stop"@[19] != "perceive.mutations.poll"@[19]);
        },
        Handler::PerceiveObserve => {
            assert("perceive.observe"@[0] != "session.closeTab"@[0]);
            assert("perceive.observe"@[0] != "browser.navigate"@[0]);
        },
        Handler::PerceiveUnobserve => {
            assert("perceive.unobserve"@[9] != "perceive.pageState"@[9]);
            assert("perceive.unobserve"@[9] != "perceive.mutations"@[9]);
        },
        Handler::PerceiveFormFields => {},
        Handler::PerceiveEvaluate => {
            assert("perceive.evaluate"@[0] != "session.switchTab"@[0]);
            assert("perceive.evaluate"@[0] != "session.cleanTabs"@[0]);
            assert("perceive.evaluate"@[10] != "perceive.elements"@[10]);
            assert("perceive.evaluate"@[9] != "perceive.metadata"@[9]);
        },
        Handler::PerceiveEvaluateVoid => {
            assert("perceive.evaluateVoid"@[0] != "session.fromExtension"@[0]);
            assert("perceive.evaluateVoid"@[9] != "perceive.findElements"@[9]);
        },
        Handler::ActClick => {},
        Handler::ActType => {},
        Handler::ActPress => {
            assert("act.press"@[4] != "act.click"@[4]);
        },
        Handler::ActScroll => {},
        Handler::ActHover => {
            assert("act.hover"@[4] != "act.click"@[4]);
            assert("act.hover"@[4] != "act.press"@[4]);
        },
        Handler::ActFocus => {
            assert("act.focus"@[4] != "act.click"@[4]);
            assert("act.focus"@[4] != "act.press"@[4]);
            assert("act.focus"@[4] != "act.hover"@[4]);
        },
        Handler::ActSelect => {
            assert("act.select"@[5] != "act.scroll"@[5]);
        },
        Handler::ActWaitFor => {
            assert("act.waitFor"@[0] != "session.get"@[0]);
            assert("act.waitFor"@[0] != "browser.url"@[0]);
        },
        Handler::ActWaitForSelector => {
            assert("act.waitForSelector"@[0] != "perceive.formFields"@[0]);
        },
        Handler::ActWaitForNavigation => {
            assert("act.waitForNavigation"@[0] != "session.fromExtension"@[0]);
            assert("act.waitForNavigation"@[0] != "perceive.findElements"@[0]);
            assert("act.waitForNavigation"@[0] != "perceive.evaluateVoid"@[0]);
        },
        Handler::ActWaitForFunction => {
            assert("act.waitForFunction"@[0] != "perceive.formFields"@[0]);
            assert("act.waitForFunction"@[11] != "act.waitForSelector"@[11]);
        },
        Handler::ActBatch => {
            assert("act.batch"@[4] != "act.click"@[4]);
            assert("act.batch"@[4] != "act.press"@[4]);
            assert("act.batch"@[4] != "act.hover"@[4]);
            assert("act.batch"@[4] != "act.focus"@[4]);
        },
        Handler::ActFillForm => {
            assert("act.fillForm"@[0] != "session.list"@[0]);
            assert("act.fillForm"@[0] != "session.tabs"@[0]);
            assert("act.fillForm"@[4] != "act.navigate"@[4]);
        },
        Handler::ActSmartFill => {
            assert("act.smartFill"@[0] != "session.close"@[0]);
            assert("act.smartFill"@[0] != "perceive.text"@[0]);
        },
        Handler::PerceiveScreenshot => {
            assert("perceive.screenshot"@[9] != "perceive.formFields"@[9]);
            assert("perceive.screenshot"@[0] != "act.waitForSelector"@[0]);
            assert("perceive.screenshot"@[0] != "act.waitForFunction"@[0]);
        },
        Handler::NetworkEnable => {
            assert("network.enable"@[0] != "session.create"@[0]);
            assert("network.enable"@[0] != "session.newTab"@[0]);
            assert("network.enable"@[0] != "extension.tabs"@[0]);
        },
        Handler::NetworkRequests => {
            assert("network.requests"@[0] != "session.closeTab"@[0]);
            assert("network.requests"@[0] != "browser.navigate"@[0]);
            assert("network.requests"@[0] != "perceive.observe"@[0]);
        },
        Handler::NetworkClear => {
            assert("network.clear"@[0] != "session.close"@[0]);
            assert("network.clear"@[0] != "perceive.text"@[0]);
            assert("network.clear"@[0] != "act.smartFill"@[0]);
        },
        Handler::ActHandleDialog => {
            assert("act.handleDialog"@[0] != "session.closeTab"@[0]);
            assert("act.handleDialog"@[0] != "browser.navigate"@[0]);
            assert("act.handleDialog"@[0] != "perceive.observe"@[0]);
            assert("act.handleDialog"@[0] != "network.requests"@[0]);
        },
        Handler::ActUploadFile => {
            assert("act.uploadFile"@[0] != "session.create"@[0]);
            assert("act.uploadFile"@[0] != "session.newTab"@[0]);
            assert("act.uploadFile"@[0] != "extension.tabs"@[0]);
            assert("act.uploadFile"@[0] != "network.enable"@[0]);
        },
        Handler::StorageGetCookies => {
            assert("storage.getCookies"@[0] != "perceive.pageState"@[0]);
            assert("storage.getCookies"@[0] != "perceive.mutations"@[0]);
            assert("storage.getCookies"@[0] != "perceive.unobserve"@[0]);
        },
        Handler::StorageSetCookie => {
            assert("storage.setCookie"@[1] != "session.switchTab"@[1]);
            assert("storage.setCookie"@[1] != "session.cleanTabs"@[1]);
            assert("storage.setCookie"@[0] != "perceive.elements"@[0]);
            assert("storage.setCookie"@[0] != "perceive.metadata"@[0]);
            assert("storage.setCookie"@[0] != "perceive.evaluate"@[0]);
        },
        Handler::StorageClearCookies => {
            assert("storage.clearCookies"@[0] != "perceive.textContent"@[0]);
        },
        Handler::StorageGetLocalStorage => {
            assert("storage.getLocalStorage"@[0] != "perceive.mutations.poll"@[0]);
            assert("storage.getLocalStorage"@[0] != "perceive.mutations.stop"@[0]);
        },
        Handler::StorageSetLocalStorage => {
            assert("storage.setLocalStorage"@[0] != "perceive.mutations.poll"@[0]);
            assert("storage.setLocalStorage"@[0] != "perceive.mutations.stop"@[0]);
            assert("storage.setLocalStorage"@[8] != "storage.getLocalStorage"@[8]);
        },
        Handler::StorageGetSessionStorage => {},
        Handler::StorageSetSessionStorage => {
            assert("storage.setSessionStorage"@[8] != "storage.getSessionStorage"@[8]);
        },
        Handler::StorageClear => {
            assert("storage.clear"@[1] != "session.close"@[1]);
            assert("storage.clear"@[0] != "perceive.text"@[0]);
            assert("storage.clear"@[0] != "act.smartFill"@[0]);
            assert("storage.clear"@[0] != "network.clear"@[0]);
        },
        Handler::CaptchaDetect => {
            assert("captcha.detect"@[0] != "session.create"@[0]);
            assert("captcha.detect"@[0] != "session.newTab"@[0]);
            assert("captcha.detect"@[0] != "extension.tabs"@[0]);
            assert("captcha.detect"@[0] != "network.enable"@[0]);
            assert("captcha.detect"@[0] != "act.uploadFile"@[0]);
        },
        Handler::CaptchaSolve => {
            assert("captcha.solve"@[0] != "session.close"@[0]);
            assert("captcha.solve"@[0] != "perceive.text"@[0]);
            assert("captcha.solve"@[0] != "act.smartFill"@[0]);
            assert("captcha.solve"@[0] != "network.clear"@[0]);
            assert("captcha.solve"@[0] != "storage.clear"@[0]);
        },
        Handler::ProxySet => {
            assert("proxy.set"@[0] != "act.click"@[0]);
            assert("proxy.set"@[0] != "act.press"@[0]);
            assert("proxy.set"@[0] != "act.hover"@[0]);
            assert("proxy.set"@[0] != "act.focus"@[0]);
            assert("proxy.set"@[0] != "act.batch"@[0]);
        },
        Handler::ProxyPool => {
            assert("proxy.pool"@[0] != "act.scroll"@[0]);
            assert("proxy.pool"@[0] != "act.select"@[0]);
        },
        Handler::ProxyRotate => {
            assert("proxy.rotate"@[0] != "session.list"@[0]);
            assert("proxy.rotate"@[0] != "session.tabs"@[0]);
            assert("proxy.rotate"@[0] != "act.navigate"@[0]);
            assert("proxy.rotate"@[0] != "act.fillForm"@[0]);
        },
        Handler::ProxyCurrent => {
            assert("proxy.current"@[0] != "session.close"@[0]);
            assert("proxy.current"@[1] != "perceive.text"@[1]);
            assert("proxy.current"@[0] != "act.smartFill"@[0]);
            assert("proxy.current"@[0] != "network.clear"@[0]);
            assert("proxy.current"@[0] != "storage.clear"@[0]);
            assert("proxy.current"@[0] != "captcha.solve"@[0]);
        },
    }
}

/// The methods served by the runtime even for extension-backed sessions all have
/// handlers.
pub proof fn law_runtime_methods_have_handlers(method: Seq<char>)
    ensures
        skips_extension(method) ==> handler_for(method) is Some,
{
}

} // verus!
