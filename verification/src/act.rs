//! Action planning: the options of each action and their defaults, human-like
//! pacing, target resolution order, scroll deltas, key descriptions, batch and
//! form-fill bookkeeping, and the polling decisions of waits.
//!
//! The driver performs each planned browser action and reports its outcome back.

use vstd::prelude::*;
use rand::Rng;
use crate::error::{tivana_error_text, TivanaError};
use crate::json::JsonValue;
use crate::perceive::opt_view;
use crate::text::{join, join_seq, str_eq, views};

verus! {

/// Draws a delay uniformly from `lo..=hi` with the thread-local generator
/// (`rand::Rng::gen_range`). Claimed: the draw lies in the range.
#[verifier::external_body]
fn random_between(lo: u64, hi: u64) -> (r: u64)
    requires
        lo <= hi,
    ensures
        lo <= r <= hi,
{
    rand::thread_rng().gen_range(lo..=hi)
}

/// The pause between pressing and releasing the mouse button: 50 to 149 ms.
pub fn click_hold_ms() -> (d: u64)
    ensures
        50 <= d < 150,
{
    random_between(50, 149)
}

/// The pauses between the intermediate points of a mouse movement: three to five
/// of them, each 5 to 15 ms.
pub fn mouse_move_delays() -> (r: Vec<u64>)
    ensures
        3 <= r@.len() <= 5,
        forall|i: int| 0 <= i < r@.len() ==> 5 <= #[trigger] r@[i] <= 15,
{
    let n = random_between(3, 5);
    let mut r: Vec<u64> = Vec::new();
    let mut i: u64 = 0;
    while i < n
        invariant
            3 <= n <= 5,
            i <= n,
            r@.len() == i,
            forall|k: int| 0 <= k < r@.len() ==> 5 <= #[trigger] r@[k] <= 15,
        decreases n - i,
    {
        r.push(random_between(5, 15));
        i = i + 1;
    }
    r
}

/// Human-like pacing configuration.
#[derive(Debug)]
pub struct PacingConfig {
    /// Minimum delay before action in milliseconds (default: 0)
    pub pre_delay_ms: u64,
    /// Maximum delay before action in milliseconds (default: 0).
    /// Actual delay is random between pre_delay_ms and this value
    pub pre_delay_max_ms: u64,
    /// Minimum delay after action in milliseconds (default: 0)
    pub post_delay_ms: u64,
    /// Maximum delay after action in milliseconds (default: 0)
    pub post_delay_max_ms: u64,
}

impl Default for PacingConfig {
    fn default() -> (p: Self)
        ensures
            p.pre_delay_ms == 0 && p.pre_delay_max_ms == 0 && p.post_delay_ms == 0
                && p.post_delay_max_ms == 0,
    {
        PacingConfig { pre_delay_ms: 0, pre_delay_max_ms: 0, post_delay_ms: 0, post_delay_max_ms: 0 }
    }
}

/// Whether `d` is a delay that pacing between `min` and `max` may wait: at least the
/// minimum, and at most the larger of the two bounds (the minimum itself when the
/// range is empty).
pub open spec fn pacing_delay_ok(min: u64, max: u64, d: u64) -> bool {
    min <= d <= if max > min { max } else { min }
}

fn delay_between(min: u64, max: u64) -> (d: u64)
    ensures
        pacing_delay_ok(min, max, d),
{
    if max > min {
        random_between(min, max)
    } else {
        min
    }
}

impl PacingConfig {
    /// Human-like preset: 200-800ms before, 100-400ms after
    pub fn human() -> (p: Self)
        ensures
            p.pre_delay_ms == 200 && p.pre_delay_max_ms == 800 && p.post_delay_ms == 100
                && p.post_delay_max_ms == 400,
    {
        PacingConfig {
            pre_delay_ms: 200,
            pre_delay_max_ms: 800,
            post_delay_ms: 100,
            post_delay_max_ms: 400,
        }
    }

    /// The pre-action delay to wait, in milliseconds (0: none).
    pub fn pre_delay(&self) -> (d: u64)
        ensures
            pacing_delay_ok(self.pre_delay_ms, self.pre_delay_max_ms, d),
    {
        delay_between(self.pre_delay_ms, self.pre_delay_max_ms)
    }

    /// The post-action delay to wait, in milliseconds (0: none).
    pub fn post_delay(&self) -> (d: u64)
        ensures
            pacing_delay_ok(self.post_delay_ms, self.post_delay_max_ms, d),
    {
        delay_between(self.post_delay_ms, self.post_delay_max_ms)
    }
}

/// Click options
#[derive(Debug)]
pub struct ClickOptions {
    /// Button: "left", "right", "middle"
    pub button: String,
    /// Number of clicks (1 for single, 2 for double)
    pub click_count: u32,
    /// Delay between mousedown and mouseup in ms
    pub delay_ms: u64,
    /// Modifier keys to hold
    pub modifiers: Vec<String>,
    /// Human-like pacing delays
    pub pacing: PacingConfig,
}

/// The button a click uses when none is given.
pub fn default_button() -> (s: String)
    ensures
        s@ == "left"@,
{
    String::from_str("left")
}

/// The mouse button a click presses.
#[derive(Debug, Clone, Copy, PartialEq, Eq, Structural)]
pub enum MouseButtonKind {
    Left,
    Right,
    Middle,
}

/// The button named by a click's `button` option: "right" and "middle" name those
/// buttons; "left", and any other name, the left one.
pub fn mouse_button(name: &str) -> (b: MouseButtonKind)
    ensures
        b == (if name@ == "right"@ {
            MouseButtonKind::Right
        } else if name@ == "middle"@ {
            MouseButtonKind::Middle
        } else {
            MouseButtonKind::Left
        }),
{
    if str_eq(name, "right") {
        MouseButtonKind::Right
    } else if str_eq(name, "middle") {
        MouseButtonKind::Middle
    } else {
        MouseButtonKind::Left
    }
}

/// The click count when none is given.
pub fn default_click_count() -> (n: u32)
    ensures
        n == 1,
{
    1
}

impl Default for ClickOptions {
    fn default() -> (o: Self)
        ensures
            o.button@ == "left"@,
            o.click_count == 1,
            o.delay_ms == 0,
            o.modifiers@.len() == 0,
            o.pacing.pre_delay_ms == 0 && o.pacing.pre_delay_max_ms == 0
                && o.pacing.post_delay_ms == 0 && o.pacing.post_delay_max_ms == 0,
    {
        ClickOptions {
            button: default_button(),
            click_count: default_click_count(),
            delay_ms: 0,
            modifiers: Vec::new(),
            pacing: PacingConfig::default(),
        }
    }
}

/// Type/input options
#[derive(Debug)]
pub struct TypeOptions {
    /// Delay between keystrokes in ms
    pub delay_ms: u64,
    /// Clear existing content first
    pub clear_first: bool,
    /// Human-like pacing delays (applied before/after the full type sequence)
    pub pacing: PacingConfig,
}

impl Default for TypeOptions {
    fn default() -> (o: Self)
        ensures
            o.delay_ms == 0,
            !o.clear_first,
            o.pacing.pre_delay_ms == 0 && o.pacing.pre_delay_max_ms == 0
                && o.pacing.post_delay_ms == 0 && o.pacing.post_delay_max_ms == 0,
    {
        TypeOptions { delay_ms: 0, clear_first: false, pacing: PacingConfig::default() }
    }
}

/// Options for fill action
#[derive(Debug)]
pub struct FillOptions {
    /// Clear existing content before filling (default: true)
    pub clear_first: bool,
}

/// The value of a flag that defaults to on.
pub fn default_true() -> (b: bool)
    ensures
        b,
{
    true
}

impl Default for FillOptions {
    fn default() -> (o: Self)
        ensures
            o.clear_first,
    {
        FillOptions { clear_first: default_true() }
    }
}

/// Scroll direction.
#[derive(Debug, Clone, Copy, PartialEq, Eq, Structural)]
pub enum ScrollDirection {
    Up,
    Down,
    Left,
    Right,
}

/// Scroll options
#[derive(Debug)]
pub struct ScrollOptions {
    /// Scroll direction
    pub direction: ScrollDirection,
    /// Amount to scroll in pixels
    pub amount: i32,
    /// Smooth scrolling
    pub smooth: bool,
}

/// The scroll amount when none is given, in pixels.
pub fn default_scroll_amount() -> (n: i32)
    ensures
        n == 100,
{
    100
}

/// Whether scrolling is smooth when not said otherwise.
pub fn default_smooth() -> (b: bool)
    ensures
        b,
{
    true
}

/// The horizontal and vertical offsets of a page scroll.
pub open spec fn scroll_offsets(direction: ScrollDirection, amount: i32) -> (int, int) {
    match direction {
        ScrollDirection::Up => (0, -amount),
        ScrollDirection::Down => (0, amount as int),
        ScrollDirection::Left => (-amount, 0),
        ScrollDirection::Right => (amount as int, 0),
    }
}

/// The (left, top) offsets by which a page scroll in `direction` moves.
pub fn scroll_delta(direction: ScrollDirection, amount: i32) -> (d: (i64, i64))
    ensures
        d.0 == scroll_offsets(direction, amount).0,
        d.1 == scroll_offsets(direction, amount).1,
{
    let a: i64 = amount as i64;
    match direction {
        ScrollDirection::Up => (0, -a),
        ScrollDirection::Down => (0, a),
        ScrollDirection::Left => (-a, 0),
        ScrollDirection::Right => (a, 0),
    }
}

/// The scroll behaviour name that a page script takes.
pub fn scroll_behavior(smooth: bool) -> (s: &'static str)
    ensures
        s@ == (if smooth {
            "smooth"@
        } else {
            "instant"@
        }),
{
    if smooth {
        proof {
            reveal_strlit("smooth");
        }
        "smooth"
    } else {
        proof {
            reveal_strlit("instant");
        }
        "instant"
    }
}

/// The description of a key press: the modifiers and the key joined with '+'.
pub open spec fn key_text(key: Seq<char>, modifiers: Seq<Seq<char>>) -> Seq<char> {
    if modifiers.len() == 0 {
        key
    } else {
        join_seq(modifiers, "+"@) + "+"@ + key
    }
}

/// Describes a key press, e.g. "Control+Shift+a".
pub fn key_description(key: &str, modifiers: &Vec<String>) -> (s: String)
    ensures
        s@ == key_text(key@, views(modifiers@)),
{
    if modifiers.len() == 0 {
        String::from_str(key)
    } else {
        let joined = join(modifiers, "+");
        joined.concat("+").concat(key)
    }
}

/// Error for a specific form field
#[derive(Debug)]
pub struct FormFieldError {
    pub field: String,
    pub error: String,
}

/// A copy of an optional string.
fn copy_opt(o: &Option<String>) -> (r: Option<String>)
    ensures
        r == *o,
{
    match o {
        Some(s) => Some(s.clone()),
        None => None,
    }
}

/// A copy of a list of strings.
pub fn copy_strings(v: &Vec<String>) -> (r: Vec<String>)
    ensures
        r@ == v@,
{
    let mut r: Vec<String> = Vec::new();
    let mut i: usize = 0;
    while i < v.len()
        invariant
            i <= v@.len(),
            r@ == v@.subrange(0, i as int),
        decreases v.len() - i,
    {
        r.push(v[i].clone());
        i = i + 1;
        assert(r@ =~= v@.subrange(0, i as int));
    }
    assert(r@ =~= v@);
    r
}

/// Target selector for actions
#[derive(Debug)]
pub struct ActionTarget {
    /// Element ID (e.g., "e1", "e2" from perceive.elements)
    pub element_id: Option<String>,
    /// CSS selector
    pub selector: Option<String>,
    /// Text content to match
    pub text: Option<String>,
    /// Aria role
    pub role: Option<String>,
    /// Aria label
    pub label: Option<String>,
    /// Coordinates (x, y), each as the bit pattern of its 64-bit float
    pub coordinates: Option<(u64, u64)>,
}

impl ActionTarget {
    /// A target that is an element id from perception.
    pub fn element_id(id: &str) -> (t: Self)
        ensures
            opt_view(t.element_id) == Some(id@),
            t.selector is None && t.text is None && t.role is None && t.label is None
                && t.coordinates is None,
    {
        ActionTarget {
            element_id: Some(String::from_str(id)),
            selector: None,
            text: None,
            role: None,
            label: None,
            coordinates: None,
        }
    }

    /// A target that is a CSS selector.
    pub fn selector(selector: &str) -> (t: Self)
        ensures
            opt_view(t.selector) == Some(selector@),
            t.element_id is None && t.text is None && t.role is None && t.label is None
                && t.coordinates is None,
    {
        ActionTarget {
            element_id: None,
            selector: Some(String::from_str(selector)),
            text: None,
            role: None,
            label: None,
            coordinates: None,
        }
    }

    /// A target found by its aria role and label.
    pub fn role_and_label(role: &str, label: &str) -> (t: Self)
        ensures
            opt_view(t.role) == Some(role@),
            opt_view(t.label) == Some(label@),
            t.element_id is None && t.selector is None && t.text is None && t.coordinates is None,
    {
        ActionTarget {
            element_id: None,
            selector: None,
            text: None,
            role: Some(String::from_str(role)),
            label: Some(String::from_str(label)),
            coordinates: None,
        }
    }

    /// A target that is a point, given by the bit patterns of its coordinates.
    pub fn coordinates(x_bits: u64, y_bits: u64) -> (t: Self)
        ensures
            t.coordinates == Some((x_bits, y_bits)),
            t.element_id is None && t.selector is None && t.text is None && t.role is None
                && t.label is None,
    {
        ActionTarget {
            element_id: None,
            selector: None,
            text: None,
            role: None,
            label: None,
            coordinates: Some((x_bits, y_bits)),
        }
    }

    /// Whether the target has no criteria.
    pub open spec fn spec_is_empty(&self) -> bool {
        self.element_id is None && self.selector is None && self.text is None && self.role is None
            && self.label is None && self.coordinates is None
    }

    /// Check if target has any criteria
    pub fn is_empty(&self) -> (b: bool)
        ensures
            b == self.spec_is_empty(),
    {
        self.element_id.is_none() && self.selector.is_none() && self.text.is_none()
            && self.role.is_none() && self.label.is_none() && self.coordinates.is_none()
    }

    /// A copy of the target.
    pub fn duplicate(&self) -> (t: Self)
        ensures
            t == *self,
    {
        ActionTarget {
            element_id: copy_opt(&self.element_id),
            selector: copy_opt(&self.selector),
            text: copy_opt(&self.text),
            role: copy_opt(&self.role),
            label: copy_opt(&self.label),
            coordinates: self.coordinates,
        }
    }
}

/// How a target is located, in priority order: coordinates, element id, CSS selector,
/// then role and label (role "*" when only a label is given).
#[derive(Debug)]
pub enum TargetLookup {
    Point { x_bits: u64, y_bits: u64 },
    ElementId(String),
    Selector(String),
    RoleLabel { role: String, label: Option<String> },
    Missing,
}

/// The lookup a target resolves by.
pub open spec fn lookup_ok(t: ActionTarget, l: TargetLookup) -> bool {
    if t.coordinates is Some {
        l == TargetLookup::Point { x_bits: t.coordinates.unwrap().0, y_bits: t.coordinates.unwrap().1 }
    } else if t.element_id is Some {
        l matches TargetLookup::ElementId(id) && id@ == t.element_id.unwrap()@
    } else if t.selector is Some {
        l matches TargetLookup::Selector(sel) && sel@ == t.selector.unwrap()@
    } else if t.role is Some || t.label is Some {
        l matches TargetLookup::RoleLabel { role, label } && role@ == (match t.role {
            Some(r) => r@,
            None => "*"@,
        }) && opt_view(label) == opt_view(t.label)
    } else {
        l is Missing
    }
}

/// How to locate a target.
pub fn target_lookup(t: &ActionTarget) -> (l: TargetLookup)
    ensures
        lookup_ok(*t, l),
{
    match t.coordinates {
        Some((x, y)) => {
            return TargetLookup::Point { x_bits: x, y_bits: y };
        },
        None => {},
    }
    match &t.element_id {
        Some(id) => {
            return TargetLookup::ElementId(id.clone());
        },
        None => {},
    }
    match &t.selector {
        Some(sel) => {
            return TargetLookup::Selector(sel.clone());
        },
        None => {},
    }
    if t.role.is_some() || t.label.is_some() {
        let role = match &t.role {
            Some(r) => r.clone(),
            None => String::from_str("*"),
        };
        TargetLookup::RoleLabel { role, label: copy_opt(&t.label) }
    } else {
        TargetLookup::Missing
    }
}

/// The error of a target that names no element.
pub fn no_target_error() -> (e: TivanaError)
    ensures
        e matches TivanaError::Browser(m) && m@ == "No target specified for action"@,
{
    TivanaError::Browser(String::from_str("No target specified for action"))
}

/// The error of an element id or selector that matched nothing.
pub fn element_not_found(what: &str) -> (e: TivanaError)
    ensures
        e matches TivanaError::Browser(m) && m@ == "Element not found: "@ + what@,
{
    TivanaError::Browser(String::from_str("Element not found: ").concat(what))
}

/// How many times a failed lookup is retried after re-enumerating the page's elements:
/// only element ids can go stale.
pub fn stale_retries(t: &ActionTarget) -> (n: u32)
    ensures
        n == (if t.element_id is Some {
            3u32
        } else {
            0u32
        }),
{
    if t.element_id.is_some() {
        3
    } else {
        0
    }
}

/// The CSS selector of the element carrying a tivana id.
pub open spec fn tivana_selector_text(id: Seq<char>) -> Seq<char> {
    "[data-tivana-id=\""@ + id + "\"]"@
}

/// The CSS selector of the element carrying a tivana id.
pub fn tivana_selector(id: &str) -> (s: String)
    ensures
        s@ == tivana_selector_text(id@),
{
    String::from_str("[data-tivana-id=\"").concat(id).concat("\"]")
}

/// The selector a fill writes to: the element id's, else the CSS selector, else "null"
/// (the focused element).
pub fn fill_selector(t: &ActionTarget) -> (s: String)
    ensures
        s@ == (match t.element_id {
            Some(id) => tivana_selector_text(id@),
            None => match t.selector {
                Some(sel) => sel@,
                None => "null"@,
            },
        }),
{
    match &t.element_id {
        Some(id) => tivana_selector(id.as_str()),
        None => match &t.selector {
            Some(sel) => sel.clone(),
            None => String::from_str("null"),
        },
    }
}

/// The selector a select action writes to: the element id's, else the CSS selector.
pub fn select_selector(t: &ActionTarget) -> (r: Result<String, TivanaError>)
    ensures
        match t.element_id {
            Some(id) => r matches Ok(s) && s@ == tivana_selector_text(id@),
            None => match t.selector {
                Some(sel) => r matches Ok(s) && s@ == sel@,
                None => r matches Err(TivanaError::Browser(m)) && m@
                    == "Select requires element ID or selector"@,
            },
        },
{
    match &t.element_id {
        Some(id) => Ok(tivana_selector(id.as_str())),
        None => match &t.selector {
            Some(sel) => Ok(sel.clone()),
            None => Err(
                TivanaError::Browser(String::from_str("Select requires element ID or selector")),
            ),
        },
    }
}

/// An element named by its tivana id or by a CSS selector.
#[derive(Debug)]
pub enum ElementRef {
    TivanaId(String),
    Selector(String),
}

/// The element that a scroll-into-view or a file upload works on: the element id's,
/// else the CSS selector's.
pub open spec fn element_ref_of(t: ActionTarget) -> Option<ElementRef> {
    match t.element_id {
        Some(id) => Some(ElementRef::TivanaId(id)),
        None => match t.selector {
            Some(sel) => Some(ElementRef::Selector(sel)),
            None => None,
        },
    }
}

/// The element to scroll into view before a click, if the target names one.
pub fn element_ref(t: &ActionTarget) -> (r: Option<ElementRef>)
    ensures
        r == element_ref_of(*t),
{
    match &t.element_id {
        Some(id) => Some(ElementRef::TivanaId(id.clone())),
        None => match &t.selector {
            Some(sel) => Some(ElementRef::Selector(sel.clone())),
            None => None,
        },
    }
}

/// The element a file upload sets files on.
pub fn upload_element(t: &ActionTarget) -> (r: Result<ElementRef, TivanaError>)
    ensures
        element_ref_of(*t) matches Some(e) ==> r == Ok::<ElementRef, TivanaError>(e),
        element_ref_of(*t) is None ==> (r matches Err(TivanaError::Browser(m)) && m@
            == "uploadFile requires elementId or selector target"@),
{
    match element_ref(t) {
        Some(e) => Ok(e),
        None => Err(
            TivanaError::Browser(
                String::from_str("uploadFile requires elementId or selector target"),
            ),
        ),
    }
}

/// How a focus action reaches its element.
#[derive(Debug)]
pub enum FocusPlan {
    /// Focus the element matching the selector from a page script.
    BySelector(String),
    /// Click the element with this tivana id.
    ByClick,
}

/// How to focus a target: by selector first, else by clicking its element id.
pub fn focus_plan(t: &ActionTarget) -> (r: Result<FocusPlan, TivanaError>)
    ensures
        match t.selector {
            Some(sel) => r matches Ok(FocusPlan::BySelector(s)) && s@ == sel@,
            None => if t.element_id is Some {
                r matches Ok(FocusPlan::ByClick)
            } else {
                r matches Err(TivanaError::Browser(m)) && m@
                    == "Focus requires selector or element_id"@
            },
        },
{
    match &t.selector {
        Some(sel) => Ok(FocusPlan::BySelector(sel.clone())),
        None => {
            if t.element_id.is_some() {
                Ok(FocusPlan::ByClick)
            } else {
                Err(TivanaError::Browser(String::from_str("Focus requires selector or element_id")))
            }
        },
    }
}

/// What a scroll action does.
#[derive(Debug)]
pub enum ScrollPlan {
    /// Scroll the element matching the selector into view.
    ToSelector(String),
    /// Scroll the page to the element with this id.
    ToElement(String),
    /// Scroll the page by these offsets.
    By { dx: i64, dy: i64 },
    /// Nothing to scroll.
    Nothing,
}

/// What a scroll with an optional target does: with no target the page scrolls by the
/// options' direction and amount; a target scrolls into view by selector, else by element
/// id; a target with neither does nothing.
pub open spec fn scroll_plan_ok(target: Option<ActionTarget>, options: ScrollOptions, p: ScrollPlan) -> bool {
    match target {
        None => p matches ScrollPlan::By { dx, dy } && dx == scroll_offsets(
            options.direction,
            options.amount,
        ).0 && dy == scroll_offsets(options.direction, options.amount).1,
        Some(t) => if t.spec_is_empty() {
            p is Nothing
        } else {
            match t.selector {
                Some(sel) => p matches ScrollPlan::ToSelector(s) && s@ == sel@,
                None => match t.element_id {
                    Some(id) => p matches ScrollPlan::ToElement(e) && e@ == id@,
                    None => p is Nothing,
                },
            }
        },
    }
}

/// Decides what a scroll does.
pub fn scroll_plan(target: Option<&ActionTarget>, options: &ScrollOptions) -> (p: ScrollPlan)
    ensures
        scroll_plan_ok(
            match target {
                Some(t) => Some(*t),
                None => None,
            },
            *options,
            p,
        ),
{
    match target {
        None => {
            let (dx, dy) = scroll_delta(options.direction, options.amount);
            ScrollPlan::By { dx, dy }
        },
        Some(t) => {
            if t.is_empty() {
                ScrollPlan::Nothing
            } else {
                match &t.selector {
                    Some(sel) => ScrollPlan::ToSelector(sel.clone()),
                    None => match &t.element_id {
                        Some(id) => ScrollPlan::ToElement(id.clone()),
                        None => ScrollPlan::Nothing,
                    },
                }
            }
        },
    }
}

/// The outcome of a fill or select page script, from its `{ success, error }` answer:
/// success when `success` is true, else a browser error with the answer's `error` text
/// (or the default), prefixed as given.
pub open spec fn script_outcome_ok(
    answer: JsonValue,
    prefix: Seq<char>,
    default_error: Seq<char>,
    r: Result<(), TivanaError>,
) -> bool {
    if answer.bool_member("success"@) == Some(true) {
        r is Ok
    } else {
        r matches Err(TivanaError::Browser(m)) && m@ == prefix + (match answer.str_member(
            "error"@,
        ) {
            Some(e) => e,
            None => default_error,
        })
    }
}

fn script_outcome(answer: &JsonValue, prefix: &str, default_error: &str) -> (r: Result<(), TivanaError>)
    ensures
        script_outcome_ok(*answer, prefix@, default_error@, r),
{
    match answer.get_bool("success") {
        Some(true) => Ok(()),
        _ => {
            let error = match answer.get_str("error") {
                Some(e) => e,
                None => String::from_str(default_error),
            };
            Err(TivanaError::Browser(String::from_str(prefix).concat(error.as_str())))
        },
    }
}

/// The outcome of a fill, from what its page script answered.
pub fn fill_outcome(answer: &JsonValue) -> (r: Result<(), TivanaError>)
    ensures
        script_outcome_ok(*answer, ""@, "Fill failed"@, r),
{
    script_outcome(answer, "", "Fill failed")
}

/// The outcome of a select, from what its page script answered.
pub fn select_outcome(answer: &JsonValue) -> (r: Result<(), TivanaError>)
    ensures
        script_outcome_ok(*answer, "Select failed: "@, "Select failed"@, r),
{
    script_outcome(answer, "Select failed: ", "Select failed")
}

/// Whether a document ready state means the page has loaded its content.
pub fn page_settled(ready_state: &str) -> (b: bool)
    ensures
        b == (ready_state@ == "interactive"@ || ready_state@ == "complete"@),
{
    str_eq(ready_state, "interactive") || str_eq(ready_state, "complete")
}

/// The error of a wait that ran out of time: "Timeout waiting for <what>: <subject>".
pub fn timeout_waiting_for(what: &str, subject: &str) -> (e: TivanaError)
    ensures
        e matches TivanaError::Browser(m) && m@ == "Timeout waiting for "@ + what@ + ": "@
            + subject@,
{
    TivanaError::Browser(
        String::from_str("Timeout waiting for ").concat(what).concat(": ").concat(subject),
    )
}

/// Whether exactly the characters at positions that are positive multiples of
/// `interval` are followed by a pause.
pub open spec fn pauses_every(r: Seq<Option<u64>>, interval: int) -> bool {
    forall|i: int| 0 <= i < r.len() ==> (#[trigger] r[i] is Some <==> (i > 0 && i % interval == 0))
}

/// Draws the typing pauses of a text of `n` characters: every `interval`-th character
/// after the first (the interval drawn from 5 to 10) is followed by a pause of 200 to
/// 400 ms.
pub fn typing_pauses(n: usize) -> (r: Vec<Option<u64>>)
    ensures
        r@.len() == n,
        exists|interval: int| 5 <= interval <= 10 && #[trigger] pauses_every(r@, interval),
        forall|i: int|
            0 <= i < n && #[trigger] r@[i] is Some ==> 200 <= r@[i].unwrap() <= 400,
{
    let interval = random_between(5, 10);
    let mut r: Vec<Option<u64>> = Vec::new();
    let mut i: usize = 0;
    while i < n
        invariant
            i <= n,
            r@.len() == i,
            5 <= interval <= 10,
            forall|k: int|
                0 <= k < i ==> (#[trigger] r@[k] is Some <==> (k > 0 && k % (interval as int)
                    == 0)),
            forall|k: int| 0 <= k < i && #[trigger] r@[k] is Some ==> 200 <= r@[k].unwrap() <= 400,
        decreases n - i,
    {
        if i > 0 && (i as u64) % interval == 0 {
            let p = random_between(200, 400);
            r.push(Some(p));
        } else {
            r.push(None);
        }
        i = i + 1;
    }
    assert(pauses_every(r@, interval as int));
    r
}

/// Conditions to wait for
#[derive(Debug)]
pub enum WaitCondition {
    /// Wait for element to exist
    Element { selector: String },
    /// Wait for element to be visible
    Visible { selector: String },
    /// Wait for element to be hidden
    Hidden { selector: String },
    /// Wait for navigation to complete
    Navigation,
    /// Wait for network idle
    NetworkIdle { idle_time_ms: u64 },
    /// Wait for specific time
    Delay { duration_ms: u64 },
}

/// What one poll of a wait observed: whether the element check held, or the
/// document's ready state.
#[derive(Debug)]
pub enum WaitProbe {
    Found(bool),
    ReadyState(String),
}

/// What a wait does after a poll.
#[derive(Debug)]
pub enum WaitStep {
    /// The condition holds.
    Done,
    /// Poll again after a short sleep.
    Poll,
    /// The deadline passed.
    Fail(TivanaError),
}

/// Whether a poll shows the condition holding: element checks by their flag, navigation
/// and network idle by a complete document; a delay holds once slept.
pub open spec fn wait_satisfied(c: WaitCondition, probe: WaitProbe) -> bool {
    match c {
        WaitCondition::Element { .. } | WaitCondition::Visible { .. } | WaitCondition::Hidden {
            ..
        } => probe == WaitProbe::Found(true),
        WaitCondition::Navigation | WaitCondition::NetworkIdle { .. } => probe matches WaitProbe::ReadyState(
            s,
        ) && s@ == "complete"@,
        WaitCondition::Delay { .. } => true,
    }
}

/// The message of a wait that timed out.
pub open spec fn wait_timeout_text(c: WaitCondition) -> Seq<char> {
    match c {
        WaitCondition::Element { selector } => "Timeout waiting for element: "@ + selector@,
        WaitCondition::Visible { selector } => "Timeout waiting for visible: "@ + selector@,
        WaitCondition::Hidden { selector } => "Timeout waiting for hidden: "@ + selector@,
        WaitCondition::Navigation => "Timeout waiting for navigation"@,
        WaitCondition::NetworkIdle { .. } => "Timeout waiting for network idle"@,
        WaitCondition::Delay { .. } => Seq::empty(),
    }
}

/// The decision after a poll: done when the condition holds, else a timeout error past
/// the deadline, else poll again.
pub fn wait_step(c: &WaitCondition, probe: &WaitProbe, past_deadline: bool) -> (r: WaitStep)
    ensures
        wait_satisfied(*c, *probe) ==> r is Done,
        !wait_satisfied(*c, *probe) && past_deadline ==> (r matches WaitStep::Fail(
            TivanaError::Browser(m),
        ) && m@ == wait_timeout_text(*c)),
        !wait_satisfied(*c, *probe) && !past_deadline ==> r is Poll,
{
    let satisfied = match c {
        WaitCondition::Element { .. } | WaitCondition::Visible { .. } | WaitCondition::Hidden {
            ..
        } => match probe {
            WaitProbe::Found(b) => *b,
            _ => false,
        },
        WaitCondition::Navigation | WaitCondition::NetworkIdle { .. } => match probe {
            WaitProbe::ReadyState(s) => str_eq(s.as_str(), "complete"),
            _ => false,
        },
        WaitCondition::Delay { .. } => true,
    };
    if satisfied {
        return WaitStep::Done;
    }
    if !past_deadline {
        return WaitStep::Poll;
    }
    let message = match c {
        WaitCondition::Element { selector } => String::from_str(
            "Timeout waiting for element: ",
        ).concat(selector.as_str()),
        WaitCondition::Visible { selector } => String::from_str(
            "Timeout waiting for visible: ",
        ).concat(selector.as_str()),
        WaitCondition::Hidden { selector } => String::from_str(
            "Timeout waiting for hidden: ",
        ).concat(selector.as_str()),
        WaitCondition::Navigation => String::from_str("Timeout waiting for navigation"),
        WaitCondition::NetworkIdle { .. } => String::from_str("Timeout waiting for network idle"),
        WaitCondition::Delay { .. } => String::new(),
    };
    WaitStep::Fail(TivanaError::Browser(message))
}

/// A single action within a batch
#[derive(Debug)]
pub struct BatchAction {
    /// Action type: click, type, press, scroll, navigate, focus, hover, select
    pub action_type: String,
    /// Target element
    pub target: Option<ActionTarget>,
    /// Text to type (for "type" action)
    pub text: Option<String>,
    /// Key to press (for "press" action)
    pub key: Option<String>,
    /// Modifier keys (for "press" action)
    pub modifiers: Option<Vec<String>>,
    /// Scroll direction (for "scroll" action)
    pub direction: Option<String>,
    /// Scroll amount in whole pixels (for "scroll" action)
    pub amount: Option<i32>,
    /// URL (for "navigate" action)
    pub url: Option<String>,
    /// Value (for "select" action)
    pub value: Option<String>,
    /// Override delay between this action and the next (ms)
    pub delay_ms: Option<u64>,
}

/// A batch action decoded into the action to perform.
#[derive(Debug)]
pub enum BatchStep {
    Click { target: ActionTarget },
    Type { text: String, target: Option<ActionTarget> },
    Press { key: String, modifiers: Vec<String> },
    Scroll { target: Option<ActionTarget>, options: ScrollOptions },
    Navigate { url: String },
    Hover { target: ActionTarget },
    Focus { target: ActionTarget },
    Select { target: ActionTarget, value: String },
}

/// The direction a batch scroll names: "up", "left" or "right", else down.
pub open spec fn batch_direction(d: Option<String>) -> ScrollDirection {
    match d {
        Some(s) => if s@ == "up"@ {
            ScrollDirection::Up
        } else if s@ == "left"@ {
            ScrollDirection::Left
        } else if s@ == "right"@ {
            ScrollDirection::Right
        } else {
            ScrollDirection::Down
        },
        None => ScrollDirection::Down,
    }
}

/// The error of a batch action that lacks what it needs.
pub open spec fn requires_error(r: Result<BatchStep, TivanaError>, message: Seq<char>) -> bool {
    r matches Err(TivanaError::Browser(m)) && m@ == message
}

/// The step a batch action decodes to, or the error when its type is unknown or it
/// lacks a field its type needs.
pub open spec fn decode_ok(a: BatchAction, r: Result<BatchStep, TivanaError>) -> bool {
    let ty = a.action_type@;
    if ty == "click"@ {
        match a.target {
            Some(t) => r == Ok::<BatchStep, TivanaError>(BatchStep::Click { target: t }),
            None => requires_error(r, "click requires target"@),
        }
    } else if ty == "type"@ {
        match a.text {
            Some(text) => r matches Ok(BatchStep::Type { text: t, target }) && t@ == text@
                && target == a.target,
            None => requires_error(r, "type requires text"@),
        }
    } else if ty == "press"@ {
        match a.key {
            Some(key) => r matches Ok(BatchStep::Press { key: k, modifiers }) && k@ == key@
                && modifiers@ == (match a.modifiers {
                Some(m) => m@,
                None => Seq::empty(),
            }),
            None => requires_error(r, "press requires key"@),
        }
    } else if ty == "scroll"@ {
        r matches Ok(BatchStep::Scroll { target, options }) && target == a.target
            && options.direction == batch_direction(a.direction) && options.amount == (match a.amount {
            Some(n) => n,
            None => 100,
        }) && options.smooth
    } else if ty == "navigate"@ {
        match a.url {
            Some(url) => r matches Ok(BatchStep::Navigate { url: u }) && u@ == url@,
            None => requires_error(r, "navigate requires url"@),
        }
    } else if ty == "hover"@ {
        match a.target {
            Some(t) => r == Ok::<BatchStep, TivanaError>(BatchStep::Hover { target: t }),
            None => requires_error(r, "hover requires target"@),
        }
    } else if ty == "focus"@ {
        match a.target {
            Some(t) => r == Ok::<BatchStep, TivanaError>(BatchStep::Focus { target: t }),
            None => requires_error(r, "focus requires target"@),
        }
    } else if ty == "select"@ {
        match a.target {
            Some(t) => match a.value {
                Some(v) => r matches Ok(BatchStep::Select { target, value }) && target == t
                    && value@ == v@,
                None => requires_error(r, "select requires value"@),
            },
            None => requires_error(r, "select requires target"@),
        }
    } else {
        requires_error(r, "Unknown batch action type: "@ + ty)
    }
}

fn copy_target(t: &Option<ActionTarget>) -> (r: Option<ActionTarget>)
    ensures
        r == *t,
{
    match t {
        Some(t) => Some(t.duplicate()),
        None => None,
    }
}

fn missing(message: &str) -> (r: Result<BatchStep, TivanaError>)
    ensures
        requires_error(r, message@),
{
    Err(TivanaError::Browser(String::from_str(message)))
}

/// Decodes a batch action into the action to perform.
pub fn decode_batch_action(a: &BatchAction) -> (r: Result<BatchStep, TivanaError>)
    ensures
        decode_ok(*a, r),
{
    let ty = a.action_type.as_str();
    if str_eq(ty, "click") {
        match &a.target {
            Some(t) => Ok(BatchStep::Click { target: t.duplicate() }),
            None => missing("click requires target"),
        }
    } else if str_eq(ty, "type") {
        match &a.text {
            Some(text) => Ok(BatchStep::Type { text: text.clone(), target: copy_target(&a.target) }),
            None => missing("type requires text"),
        }
    } else if str_eq(ty, "press") {
        match &a.key {
            Some(key) => {
                let modifiers = match &a.modifiers {
                    Some(m) => copy_strings(m),
                    None => Vec::new(),
                };
                Ok(BatchStep::Press { key: key.clone(), modifiers })
            },
            None => missing("press requires key"),
        }
    } else if str_eq(ty, "scroll") {
        let direction = match &a.direction {
            Some(d) => {
                if str_eq(d.as_str(), "up") {
                    ScrollDirection::Up
                } else if str_eq(d.as_str(), "left") {
                    ScrollDirection::Left
                } else if str_eq(d.as_str(), "right") {
                    ScrollDirection::Right
                } else {
                    ScrollDirection::Down
                }
            },
            None => ScrollDirection::Down,
        };
        let amount = match a.amount {
            Some(n) => n,
            None => default_scroll_amount(),
        };
        Ok(
            BatchStep::Scroll {
                target: copy_target(&a.target),
                options: ScrollOptions { direction, amount, smooth: true },
            },
        )
    } else if str_eq(ty, "navigate") {
        match &a.url {
            Some(url) => Ok(BatchStep::Navigate { url: url.clone() }),
            None => missing("navigate requires url"),
        }
    } else if str_eq(ty, "hover") {
        match &a.target {
            Some(t) => Ok(BatchStep::Hover { target: t.duplicate() }),
            None => missing("hover requires target"),
        }
    } else if str_eq(ty, "focus") {
        match &a.target {
            Some(t) => Ok(BatchStep::Focus { target: t.duplicate() }),
            None => missing("focus requires target"),
        }
    } else if str_eq(ty, "select") {
        match &a.target {
            Some(t) => match &a.value {
                Some(v) => Ok(BatchStep::Select { target: t.duplicate(), value: v.clone() }),
                None => missing("select requires value"),
            },
            None => missing("select requires target"),
        }
    } else {
        Err(
            TivanaError::Browser(
                String::from_str("Unknown batch action type: ").concat(a.action_type.as_str()),
            ),
        )
    }
}

/// Result of a single action within a batch
#[derive(Debug)]
pub struct BatchActionResult {
    pub success: bool,
    pub action: String,
    pub duration_ms: u64,
    pub error: Option<String>,
}

/// Result of a batch execution
#[derive(Debug)]
pub struct BatchResult {
    pub results: Vec<BatchActionResult>,
    pub total_duration_ms: u64,
}

/// The delay after a batch action when it sets none, in milliseconds.
pub open spec fn default_batch_delay() -> u64 {
    80
}

/// The result recorded for one batch action.
pub open spec fn batch_entry_ok(
    e: BatchActionResult,
    a: BatchAction,
    duration_ms: u64,
    outcome: Result<(), TivanaError>,
) -> bool {
    &&& e.action@ == a.action_type@
    &&& e.duration_ms == duration_ms
    &&& e.success == (outcome is Ok)
    &&& match outcome {
        Ok(()) => e.error is None,
        Err(err) => opt_view(e.error) == Some(tivana_error_text(err)),
    }
}

/// What follows a batch action: the batch stops after a failure when asked to, else
/// the action's delay (80 ms unless it sets one) passes before the next.
pub open spec fn batch_next(
    a: BatchAction,
    outcome: Result<(), TivanaError>,
    stop_on_error: bool,
) -> Option<u64> {
    if outcome is Err && stop_on_error {
        None
    } else {
        Some(
            match a.delay_ms {
                Some(d) => d,
                None => default_batch_delay(),
            },
        )
    }
}

impl BatchResult {
    /// An empty batch result.
    pub fn begin() -> (r: Self)
        ensures
            r.results@.len() == 0,
            r.total_duration_ms == 0,
    {
        BatchResult { results: Vec::new(), total_duration_ms: 0 }
    }

    /// Records the outcome of one action; returns the delay to wait before the next
    /// action, or `None` when the batch stops here.
    pub fn record(
        &mut self,
        action: &BatchAction,
        duration_ms: u64,
        outcome: Result<(), TivanaError>,
        stop_on_error: bool,
    ) -> (next: Option<u64>)
        ensures
            final(self).results@.len() == old(self).results@.len() + 1,
            final(self).results@.drop_last() == old(self).results@,
            batch_entry_ok(final(self).results@.last(), *action, duration_ms, outcome),
            final(self).total_duration_ms == old(self).total_duration_ms,
            next == batch_next(*action, outcome, stop_on_error),
            batch_step(*old(self), *final(self)),
    {
        let failed = outcome.is_err();
        let entry = match outcome {
            Ok(()) => BatchActionResult {
                success: true,
                action: action.action_type.clone(),
                duration_ms,
                error: None,
            },
            Err(e) => BatchActionResult {
                success: false,
                action: action.action_type.clone(),
                duration_ms,
                error: Some(e.to_string()),
            },
        };
        self.results.push(entry);
        assert(self.results@.drop_last() =~= old(self).results@);
        if failed && stop_on_error {
            None
        } else {
            match action.delay_ms {
                Some(d) => Some(d),
                None => Some(80),
            }
        }
    }

    /// Closes the batch with its total duration.
    pub fn finish(&mut self, total_duration_ms: u64)
        ensures
            final(self).results@ == old(self).results@,
            final(self).total_duration_ms == total_duration_ms,
    {
        self.total_duration_ms = total_duration_ms;
    }
}

/// Result of a form fill operation
#[derive(Debug)]
pub struct FormFillResult {
    pub fields_completed: usize,
    pub total_fields: usize,
    pub duration_ms: u64,
    pub submitted: bool,
    pub errors: Vec<FormFieldError>,
}

/// What a form fill does with a field's value.
#[derive(Debug)]
pub enum FormFieldAction {
    /// A string: click the field and type it.
    Type(String),
    /// `true`: click the field (checkbox or radio).
    Click,
    /// `false`: nothing to do; the field counts as completed.
    Complete,
    /// Any other value is an error.
    Unsupported,
}

/// What a form fill does with a value.
pub open spec fn form_action_ok(v: JsonValue, a: FormFieldAction) -> bool {
    match v {
        JsonValue::Str(s) => a matches FormFieldAction::Type(t) && t@ == s@,
        JsonValue::Bool(true) => a is Click,
        JsonValue::Bool(false) => a is Complete,
        _ => a is Unsupported,
    }
}

/// Decides what a form fill does with a field's value.
pub fn form_field_action(v: &JsonValue) -> (a: FormFieldAction)
    ensures
        form_action_ok(*v, a),
{
    match v {
        JsonValue::Str(s) => FormFieldAction::Type(s.clone()),
        JsonValue::Bool(true) => FormFieldAction::Click,
        JsonValue::Bool(false) => FormFieldAction::Complete,
        _ => FormFieldAction::Unsupported,
    }
}

/// One field's record in a form-fill tally: the field is counted either as completed or
/// as one error, never both and never twice; the rest of the tally is unchanged.
pub open spec fn form_field_step(b: FormFillResult, a: FormFillResult) -> bool {
    &&& a.total_fields == b.total_fields
    &&& a.submitted == b.submitted
    &&& a.duration_ms == b.duration_ms
    &&& ((a.fields_completed == b.fields_completed + 1 && a.errors@ == b.errors@) || (
    a.fields_completed == b.fields_completed && a.errors@.len() == b.errors@.len() + 1
        && a.errors@.drop_last() == b.errors@))
}

/// One action's record in a batch result: one entry is appended, the earlier ones stay.
pub open spec fn batch_step(b: BatchResult, a: BatchResult) -> bool {
    &&& a.results@.len() == b.results@.len() + 1
    &&& a.results@.drop_last() == b.results@
    &&& a.total_duration_ms == b.total_duration_ms
}

impl FormFillResult {
    /// An empty tally for a form of `total_fields` fields.
    pub fn begin(total_fields: usize) -> (r: Self)
        ensures
            r.fields_completed == 0,
            r.total_fields == total_fields,
            r.duration_ms == 0,
            !r.submitted,
            r.errors@.len() == 0,
    {
        FormFillResult {
            fields_completed: 0,
            total_fields,
            duration_ms: 0,
            submitted: false,
            errors: Vec::new(),
        }
    }

    /// Counts a field that needed no action.
    pub fn record_complete(&mut self)
        requires
            old(self).fields_completed < usize::MAX,
        ensures
            final(self).fields_completed == old(self).fields_completed + 1,
            final(self).errors@ == old(self).errors@,
            final(self).total_fields == old(self).total_fields,
            final(self).submitted == old(self).submitted,
            final(self).duration_ms == old(self).duration_ms,
            form_field_step(*old(self), *final(self)),
    {
        self.fields_completed = self.fields_completed + 1;
    }

    /// Records a field whose value has no fill action.
    pub fn record_unsupported(&mut self, field_id: &str)
        ensures
            final(self).fields_completed == old(self).fields_completed,
            final(self).errors@.len() == old(self).errors@.len() + 1,
            final(self).errors@.drop_last() == old(self).errors@,
            final(self).errors@.last().field@ == field_id@,
            final(self).errors@.last().error@ == "Unsupported value type"@,
            final(self).total_fields == old(self).total_fields,
            final(self).submitted == old(self).submitted,
            final(self).duration_ms == old(self).duration_ms,
            form_field_step(*old(self), *final(self)),
    {
        self.errors.push(
            FormFieldError {
                field: String::from_str(field_id),
                error: String::from_str("Unsupported value type"),
            },
        );
        assert(self.errors@.drop_last() =~= old(self).errors@);
    }

    /// Records the outcome of typing into or clicking a field.
    pub fn record_outcome(&mut self, field_id: &str, outcome: Result<(), TivanaError>)
        requires
            old(self).fields_completed < usize::MAX,
        ensures
            final(self).total_fields == old(self).total_fields,
            final(self).submitted == old(self).submitted,
            final(self).duration_ms == old(self).duration_ms,
            match outcome {
                Ok(()) => final(self).fields_completed == old(self).fields_completed + 1
                    && final(self).errors@ == old(self).errors@,
                Err(e) => final(self).fields_completed == old(self).fields_completed
                    && final(self).errors@.len() == old(self).errors@.len() + 1
                    && final(self).errors@.drop_last() == old(self).errors@
                    && final(self).errors@.last().field@ == field_id@
                    && final(self).errors@.last().error@ == tivana_error_text(e),
            },
            form_field_step(*old(self), *final(self)),
    {
        match outcome {
            Ok(()) => {
                self.fields_completed = self.fields_completed + 1;
            },
            Err(e) => {
                self.errors.push(FormFieldError { field: String::from_str(field_id), error: e.to_string() });
                assert(self.errors@.drop_last() =~= old(self).errors@);
            },
        }
    }

    /// Records the outcome of clicking the submit element.
    pub fn record_submit(&mut self, submit_id: &str, outcome: Result<(), TivanaError>)
        ensures
            final(self).fields_completed == old(self).fields_completed,
            final(self).total_fields == old(self).total_fields,
            final(self).duration_ms == old(self).duration_ms,
            match outcome {
                Ok(()) => final(self).submitted && final(self).errors@ == old(self).errors@,
                Err(e) => final(self).submitted == old(self).submitted
                    && final(self).errors@.len() == old(self).errors@.len() + 1
                    && final(self).errors@.drop_last() == old(self).errors@
                    && final(self).errors@.last().field@ == submit_id@
                    && final(self).errors@.last().error@ == "Submit failed: "@
                    + tivana_error_text(e),
            },
    {
        match outcome {
            Ok(()) => {
                self.submitted = true;
            },
            Err(e) => {
                let text = String::from_str("Submit failed: ").concat(e.to_string().as_str());
                self.errors.push(FormFieldError { field: String::from_str(submit_id), error: text });
                assert(self.errors@.drop_last() =~= old(self).errors@);
            },
        }
    }

    /// Closes the tally with the elapsed time.
    pub fn finish(&mut self, duration_ms: u64)
        ensures
            final(self).duration_ms == duration_ms,
            final(self).fields_completed == old(self).fields_completed,
            final(self).total_fields == old(self).total_fields,
            final(self).submitted == old(self).submitted,
            final(self).errors@ == old(self).errors@,
    {
        self.duration_ms = duration_ms;
    }
}

/// Action executor
pub struct Actor;

/// A form fill counts each field exactly once: after `n` field records from an empty
/// tally, the completed fields and the field errors add up to `n`.
pub proof fn law_form_fields_counted_once(steps: Seq<FormFillResult>)
    requires
        steps.len() > 0,
        steps[0].fields_completed == 0,
        steps[0].errors@.len() == 0,
        forall|i: int| 0 <= i < steps.len() - 1 ==> #[trigger] form_field_step(steps[i], steps[i + 1]),
    ensures
        steps.last().fields_completed + steps.last().errors@.len() == steps.len() - 1,
        steps.last().total_fields == steps[0].total_fields,
    decreases steps.len(),
{
    if steps.len() > 1 {
        let t = steps.drop_last();
        assert forall|i: int| 0 <= i < t.len() - 1 implies #[trigger] form_field_step(t[i], t[i + 1]) by {
            assert(form_field_step(steps[i], steps[i + 1]));
        }
        law_form_fields_counted_once(t);
        let k = steps.len() - 2;
        assert(form_field_step(steps[k], steps[k + 1]));
    }
}

/// A batch records each action exactly once, in order: after `n` records from an empty
/// result, it holds `n` entries, and each entry stays where it was recorded.
pub proof fn law_batch_actions_counted_once(steps: Seq<BatchResult>)
    requires
        steps.len() > 0,
        steps[0].results@.len() == 0,
        forall|i: int| 0 <= i < steps.len() - 1 ==> #[trigger] batch_step(steps[i], steps[i + 1]),
    ensures
        steps.last().results@.len() == steps.len() - 1,
        forall|i: int, k: int|
            0 < i < steps.len() && 0 <= k < i ==> #[trigger] steps.last().results@[k]
                == #[trigger] steps[i].results@[k],
    decreases steps.len(),
{
    if steps.len() > 1 {
        let t = steps.drop_last();
        assert forall|i: int| 0 <= i < t.len() - 1 implies #[trigger] batch_step(t[i], t[i + 1]) by {
            assert(batch_step(steps[i], steps[i + 1]));
        }
        law_batch_actions_counted_once(t);
        let n = steps.len() - 1;
        assert(batch_step(steps[n - 1], steps[n]));
        assert forall|i: int, k: int|
            0 < i < steps.len() && 0 <= k < i implies #[trigger] steps.last().results@[k]
                == #[trigger] steps[i].results@[k] by {
            if i < n {
                assert(t.last().results@[k] == t[i].results@[k]);
                assert(steps[n].results@.drop_last()[k] == steps[n].results@[k]);
            }
        }
    }
}

/// The name a scroll direction goes by in requests.
pub open spec fn scroll_direction_name(d: ScrollDirection) -> Seq<char> {
    match d {
        ScrollDirection::Up => "up"@,
        ScrollDirection::Down => "down"@,
        ScrollDirection::Left => "left"@,
        ScrollDirection::Right => "right"@,
    }
}

/// A batch scroll goes the way its direction text names: when the text is the name of
/// a direction, the decoded scroll has that direction; an absent direction, or a text
/// that names none, scrolls down. The amount defaults to 100 and the scroll is smooth.
pub proof fn law_batch_scroll_follows_its_direction(a: BatchAction, r: Result<BatchStep, TivanaError>)
    requires
        decode_ok(a, r),
        a.action_type@ == "scroll"@,
    ensures
        r matches Ok(BatchStep::Scroll { options, target }) && options.smooth && target == a.target && {
            &&& (a.direction matches Some(s) ==> ((exists|d: ScrollDirection|
                #[trigger] scroll_direction_name(d) == s@) ==> scroll_direction_name(options.direction)
                == s@))
            &&& (a.direction matches Some(s) ==> ((forall|d: ScrollDirection|
                #[trigger] scroll_direction_name(d) != s@) ==> options.direction == ScrollDirection::Down))
            &&& (a.direction is None ==> options.direction == ScrollDirection::Down)
            &&& (a.amount is None ==> options.amount == 100)
            &&& (a.amount matches Some(n) ==> options.amount == n)
        },
{
    reveal_strlit("up");
    reveal_strlit("down");
    reveal_strlit("left");
    reveal_strlit("right");
    reveal_strlit("scroll");
    reveal_strlit("click");
    reveal_strlit("type");
    reveal_strlit("press");
    assert("scroll"@.len() == 6 && "click"@.len() == 5 && "type"@.len() == 4 && "press"@.len() == 5);
    assert("up"@.len() == 2 && "down"@.len() == 4 && "left"@.len() == 4 && "right"@.len() == 5);
    assert("down"@[0] != "left"@[0]);
    match a.direction {
        Some(s) => {
            if exists|d: ScrollDirection| #[trigger] scroll_direction_name(d) == s@ {
                let d = choose|d: ScrollDirection| #[trigger] scroll_direction_name(d) == s@;
                match d {
                    ScrollDirection::Up => {},
                    ScrollDirection::Down => {
                        assert(s@ != "up"@ && s@ != "left"@ && s@ != "right"@);
                    },
                    ScrollDirection::Left => {
                        assert(s@ != "up"@);
                    },
                    ScrollDirection::Right => {
                        assert(s@ != "up"@ && s@ != "left"@);
                    },
                }
            } else {
                assert(scroll_direction_name(ScrollDirection::Up) != s@);
                assert(scroll_direction_name(ScrollDirection::Left) != s@);
                assert(scroll_direction_name(ScrollDirection::Right) != s@);
            }
        },
        None => {},
    }
}

/// A network-idle wait is satisfied by the same polls as a navigation wait, whatever its
/// idle time: exactly those that find the document's ready state "complete". Element
/// waits are satisfied exactly by a poll whose check held, and a delay once slept.
pub proof fn law_network_idle_waits_for_complete_document(idle_time_ms: u64, probe: WaitProbe, c: WaitCondition)
    ensures
        (c is Element || c is Visible || c is Hidden) ==> (wait_satisfied(c, probe) <==> probe
            == WaitProbe::Found(true)),
        c is Delay ==> wait_satisfied(c, probe),
        wait_satisfied(WaitCondition::NetworkIdle { idle_time_ms }, probe) == wait_satisfied(
            WaitCondition::Navigation,
            probe,
        ),
        wait_satisfied(WaitCondition::NetworkIdle { idle_time_ms }, probe) <==> (probe matches WaitProbe::ReadyState(s)
            && s@ == "complete"@),
        wait_satisfied(WaitCondition::Navigation, probe) <==> (probe matches WaitProbe::ReadyState(s)
            && s@ == "complete"@),
{
}

/// With stop-on-error a batch stops exactly at its first failure; without it, every
/// action runs, each followed by its delay.
pub proof fn law_batch_stops_only_on_failure(a: BatchAction, outcome: Result<(), TivanaError>)
    ensures
        batch_next(a, outcome, true) is None <==> outcome is Err,
        batch_next(a, outcome, false) is Some,
        batch_next(a, outcome, false) == Some(
            match a.delay_ms {
                Some(d) => d,
                None => 80u64,
            },
        ),
{
}

/// Scrolling up undoes scrolling down by the same amount, and left undoes right.
pub proof fn law_scroll_directions_opposite(amount: i32)
    ensures
        scroll_offsets(ScrollDirection::Up, amount).1 == -scroll_offsets(ScrollDirection::Down, amount).1,
        scroll_offsets(ScrollDirection::Left, amount).0 == -scroll_offsets(ScrollDirection::Right, amount).0,
        scroll_offsets(ScrollDirection::Up, amount).0 == 0 && scroll_offsets(ScrollDirection::Down, amount).0 == 0,
        scroll_offsets(ScrollDirection::Left, amount).1 == 0 && scroll_offsets(ScrollDirection::Right, amount).1 == 0,
{
}

} // verus!
