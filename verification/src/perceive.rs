//! Perception records: what the runtime reports about a page, and the decoding of
//! the DOM mutation records that the page's observer script collects.

use vstd::prelude::*;
use base64::Engine;
use crate::error::{tivana_error_text, TivanaError};
use crate::json::JsonValue;
use crate::text::{count_words, str_eq, word_count};

verus! {

/// The views of an optional string.
pub open spec fn opt_view(o: Option<String>) -> Option<Seq<char>> {
    match o {
        Some(s) => Some(s@),
        None => None,
    }
}

/// Subset of computed styles.
#[derive(Debug)]
pub struct ElementStyles {
    pub font_family: Option<String>,
    pub font_size: Option<String>,
    pub font_weight: Option<String>,
    pub color: Option<String>,
    pub background_color: Option<String>,
    pub border: Option<String>,
    pub display: Option<String>,
    pub visibility: Option<String>,
}

/// Page text content.
#[derive(Debug)]
pub struct TextContent {
    /// Raw text content
    pub text: String,
    /// Word count
    pub word_count: usize,
    /// Character count
    pub char_count: usize,
}

impl TextContent {
    /// The text with its word count (whitespace-separated runs) and character count.
    pub fn from_text(text: String) -> (t: Self)
        ensures
            t.text@ == text@,
            t.word_count == word_count(text@),
            t.char_count == text@.len(),
    {
        let word_count = count_words(text.as_str());
        let char_count = text.as_str().unicode_len();
        TextContent { text, word_count, char_count }
    }
}

/// Page metadata.
#[derive(Debug)]
pub struct PageMetadata {
    pub url: String,
    pub title: Option<String>,
    pub description: Option<String>,
    pub favicon: Option<String>,
    pub og_image: Option<String>,
    pub language: Option<String>,
}

/// Mutation event for DOM changes.
#[derive(Debug)]
pub enum MutationEvent {
    /// Element was added
    Added { element_id: String, parent_id: Option<String> },
    /// Element was removed
    Removed { element_id: String },
    /// Element attributes changed
    Changed {
        element_id: String,
        attribute: String,
        old_value: Option<String>,
        new_value: Option<String>,
    },
    /// Text content changed
    TextChanged { element_id: String, text: String },
}

/// The event that a mutation record describes, if it is well formed: a known `type`
/// and the string members that the event needs.
pub open spec fn mutation_matches(v: JsonValue, r: Option<MutationEvent>) -> bool {
    let ty = v.str_member("type"@);
    let id = v.str_member("elementId"@);
    if ty == Some("added"@) {
        if id is Some {
            r matches Some(MutationEvent::Added { element_id, parent_id }) && Some(element_id@)
                == id && opt_view(parent_id) == v.str_member("parentId"@)
        } else {
            r is None
        }
    } else if ty == Some("removed"@) {
        if id is Some {
            r matches Some(MutationEvent::Removed { element_id }) && Some(element_id@) == id
        } else {
            r is None
        }
    } else if ty == Some("changed"@) {
        if id is Some && v.str_member("attribute"@) is Some {
            r matches Some(
                MutationEvent::Changed { element_id, attribute, old_value, new_value },
            ) && Some(element_id@) == id && Some(attribute@) == v.str_member("attribute"@)
                && opt_view(old_value) == v.str_member("oldValue"@) && opt_view(new_value)
                == v.str_member("newValue"@)
        } else {
            r is None
        }
    } else if ty == Some("textChanged"@) {
        if id is Some && v.str_member("text"@) is Some {
            r matches Some(MutationEvent::TextChanged { element_id, text }) && Some(element_id@)
                == id && Some(text@) == v.str_member("text"@)
        } else {
            r is None
        }
    } else {
        r is None
    }
}

/// Parse a mutation event from the record the page's observer produced.
pub fn parse_mutation_event(value: &JsonValue) -> (r: Option<MutationEvent>)
    ensures
        mutation_matches(*value, r),
{
    let ty = match value.get_str("type") {
        Some(t) => t,
        None => return None,
    };
    let element_id = value.get_str("elementId");
    if str_eq(ty.as_str(), "added") {
        match element_id {
            Some(id) => Some(
                MutationEvent::Added { element_id: id, parent_id: value.get_str("parentId") },
            ),
            None => None,
        }
    } else if str_eq(ty.as_str(), "removed") {
        match element_id {
            Some(id) => Some(MutationEvent::Removed { element_id: id }),
            None => None,
        }
    } else if str_eq(ty.as_str(), "changed") {
        match (element_id, value.get_str("attribute")) {
            (Some(id), Some(attribute)) => Some(
                MutationEvent::Changed {
                    element_id: id,
                    attribute,
                    old_value: value.get_str("oldValue"),
                    new_value: value.get_str("newValue"),
                },
            ),
            _ => None,
        }
    } else if str_eq(ty.as_str(), "textChanged") {
        match (element_id, value.get_str("text")) {
            (Some(id), Some(text)) => Some(MutationEvent::TextChanged { element_id: id, text }),
            _ => None,
        }
    } else {
        None
    }
}

/// Error type for perception operations.
#[derive(Debug)]
pub struct PerceptionError(pub String);

impl PerceptionError {
    /// The display text: the message itself.
    pub fn to_string(&self) -> (s: String)
        ensures
            s@ == self.0@,
    {
        self.0.clone()
    }

    /// A perception error carrying an internal error's display text.
    pub fn from_tivana_error(e: &TivanaError) -> (p: Self)
        ensures
            p.0@ == tivana_error_text(*e),
    {
        PerceptionError(e.to_string())
    }
}

/// Perception methods.
pub struct Perceiver;

/// Screenshot format.
#[derive(Debug, Clone, Copy, PartialEq, Eq, Structural)]
pub enum ScreenshotFormat {
    Png,
    Jpeg,
}

impl Default for ScreenshotFormat {
    fn default() -> (r: Self)
        ensures
            r == ScreenshotFormat::Png,
    {
        ScreenshotFormat::Png
    }
}

impl ScreenshotFormat {
    /// The format's name in a screenshot result ("png" or "jpeg").
    pub fn name(self) -> (s: String)
        ensures
            s@ == (match self {
                ScreenshotFormat::Png => "png"@,
                ScreenshotFormat::Jpeg => "jpeg"@,
            }),
    {
        match self {
            ScreenshotFormat::Png => String::from_str("png"),
            ScreenshotFormat::Jpeg => String::from_str("jpeg"),
        }
    }
}

/// A select option.
#[derive(Debug)]
pub struct SelectOption {
    pub value: String,
    pub text: String,
    pub selected: bool,
}

/// A form field with full introspection data.
#[derive(Debug)]
pub struct FormField {
    /// Stable tivana element ID
    pub tivana_id: Option<String>,
    /// HTML tag name (input, select, textarea, div, etc.)
    pub tag_name: String,
    /// Input type (text, email, checkbox, radio, etc.)
    pub input_type: Option<String>,
    /// Name attribute
    pub name: Option<String>,
    /// ID attribute
    pub id: Option<String>,
    /// Current value
    pub value: Option<String>,
    /// Whether the field is required
    pub required: bool,
    /// Whether the field is disabled
    pub disabled: bool,
    /// Computed label
    pub label: Option<String>,
    /// Options for select elements
    pub options: Option<Vec<SelectOption>>,
    /// Checked state for checkbox/radio
    pub checked: Option<bool>,
    /// Radio group name
    pub group_name: Option<String>,
    /// Validation pattern
    pub pattern: Option<String>,
    /// Min value for number/range inputs
    pub min: Option<String>,
    /// Max value for number/range inputs
    pub max: Option<String>,
    /// Whether the field is visible
    pub visible: bool,
}

/// Screenshot result.
#[derive(Debug)]
pub struct ScreenshotResult {
    /// Base64-encoded image data
    pub data: String,
    /// Image format used
    pub format: String,
    /// Image width in pixels
    pub width: u32,
    /// Image height in pixels
    pub height: u32,
}

/// The character of a base64 digit in the standard alphabet (A-Z, a-z, 0-9, +, /).
pub open spec fn base64_digit(v: int) -> char {
    if v < 26 {
        (65 + v) as char
    } else if v < 52 {
        (97 + v - 26) as char
    } else if v < 62 {
        (48 + v - 52) as char
    } else if v == 62 {
        '+'
    } else {
        '/'
    }
}

/// Standard base64 with padding (RFC 4648): each three bytes become four digits; a
/// final one or two bytes become two or three digits and '=' padding.
pub open spec fn base64_standard(b: Seq<u8>) -> Seq<char>
    decreases b.len(),
{
    if b.len() == 0 {
        Seq::empty()
    } else if b.len() == 1 {
        seq![base64_digit(b[0] as int / 4), base64_digit((b[0] as int % 4) * 16), '=', '=']
    } else if b.len() == 2 {
        seq![
            base64_digit(b[0] as int / 4),
            base64_digit((b[0] as int % 4) * 16 + b[1] as int / 16),
            base64_digit((b[1] as int % 16) * 4),
            '=',
        ]
    } else {
        seq![
            base64_digit(b[0] as int / 4),
            base64_digit((b[0] as int % 4) * 16 + b[1] as int / 16),
            base64_digit((b[1] as int % 16) * 4 + b[2] as int / 64),
            base64_digit(b[2] as int % 64),
        ] + base64_standard(b.subrange(3, b.len() as int))
    }
}

/// Encodes bytes with the `base64` crate's `STANDARD` engine (standard alphabet,
/// padded). Claimed: the text is the RFC 4648 encoding the crate documents.
#[verifier::external_body]
fn encode_base64(bytes: &Vec<u8>) -> (s: String)
    requires
        bytes@.len() / 3 * 4 + 4 <= usize::MAX,
    ensures
        s@ == base64_standard(bytes@),
{
    base64::engine::general_purpose::STANDARD.encode(bytes)
}

/// The page's viewport size, as a screenshot reports it.
#[derive(Debug, Clone, Copy)]
pub struct ViewportDimensions {
    pub width: u32,
    pub height: u32,
}

/// The result of a screenshot: the image bytes in base64, the format's name, and the
/// viewport size (0x0 when it could not be read).
pub fn screenshot_result(
    bytes: &Vec<u8>,
    format: ScreenshotFormat,
    dims: Option<ViewportDimensions>,
) -> (r: ScreenshotResult)
    requires
        bytes@.len() / 3 * 4 + 4 <= usize::MAX,
    ensures
        r.data@ == base64_standard(bytes@),
        r.format@ == (match format {
            ScreenshotFormat::Png => "png"@,
            ScreenshotFormat::Jpeg => "jpeg"@,
        }),
        r.width == (match dims {
            Some(d) => d.width,
            None => 0,
        }),
        r.height == (match dims {
            Some(d) => d.height,
            None => 0,
        }),
{
    let (width, height) = match dims {
        Some(d) => (d.width, d.height),
        None => (0, 0),
    };
    ScreenshotResult { data: encode_base64(bytes), format: format.name(), width, height }
}

/// Page script: the visible interactive elements, each given a stable `data-tivana-id`.
pub const ELEMENTS_JS: &'static str = r#"(() => {
  const elements = [];
  if (!window.__tivana_element_counter) { window.__tivana_element_counter = 1; window.__tivana_element_map = new WeakMap(); }
  if (!window.__tivana_element_map) window.__tivana_element_map = new WeakMap();
  const getStableId = (el) => {
    let id = window.__tivana_element_map.get(el);
    if (!id) { id = 'e' + (window.__tivana_element_counter++); window.__tivana_element_map.set(el, id); }
    el.setAttribute('data-tivana-id', id);
    return id;
  };
  const selector = ['a[href]','button','input','select','textarea','[role="button"]','[role="link"]',
    '[role="checkbox"]','[role="radio"]','[role="menuitem"]','[role="tab"]','[role="option"]','[role="switch"]',
    '[role="slider"]','[role="spinbutton"]','[role="searchbox"]','[role="textbox"]','[role="combobox"]',
    '[tabindex]:not([tabindex="-1"])','[contenteditable="true"]'].join(', ');
  for (const el of document.querySelectorAll(selector)) {
    const style = window.getComputedStyle(el);
    if (style.display === 'none' || style.visibility === 'hidden') continue;
    const rect = el.getBoundingClientRect();
    if (rect.width === 0 && rect.height === 0) continue;
    let role = el.getAttribute('role') || el.tagName.toLowerCase();
    if (role === 'input') role = el.type || 'text';
    let name = el.getAttribute('aria-label');
    if (!name) {
      const lblBy = el.getAttribute('aria-labelledby');
      if (lblBy) name = lblBy.split(/\s+/).map(id => document.getElementById(id)?.textContent?.trim()).filter(Boolean).join(' ');
    }
    if (!name && el.id) {
      const assocLabel = document.querySelector('label[for="' + CSS.escape(el.id) + '"]');
      if (assocLabel) name = assocLabel.textContent?.trim()?.slice(0, 100);
    }
    if (!name) {
      const parentLabel = el.closest('label');
      if (parentLabel) {
        const clone = parentLabel.cloneNode(true);
        clone.querySelectorAll('input, select, textarea').forEach(c => c.remove());
        name = clone.textContent?.trim()?.slice(0, 100);
      }
    }
    if (!name && (el.type === 'radio' || el.type === 'checkbox')) {
      let sib = el.nextSibling;
      while (sib) {
        if (sib.nodeType === 3 && sib.textContent?.trim()) { name = sib.textContent.trim().slice(0, 100); break; }
        if (sib.nodeType === 1) { name = sib.textContent?.trim()?.slice(0, 100); break; }
        sib = sib.nextSibling;
      }
    }
    let groupLabel = null;
    if (el.type === 'radio' || el.type === 'checkbox') {
      const fieldset = el.closest('fieldset');
      if (fieldset) { const legend = fieldset.querySelector('legend'); if (legend) groupLabel = legend.textContent?.trim()?.slice(0, 100); }
      if (!groupLabel) {
        const group = el.closest('[role="radiogroup"], [role="group"]');
        if (group) {
          const grpLabel = group.getAttribute('aria-label') ||
            (group.getAttribute('aria-labelledby') && document.getElementById(group.getAttribute('aria-labelledby'))?.textContent?.trim());
          if (grpLabel) groupLabel = grpLabel.slice(0, 100);
        }
      }
    }
    if (!name) name = el.getAttribute('title');
    if (!name) name = el.getAttribute('placeholder');
    if (!name) { const inner = el.innerText?.trim()?.slice(0, 100); if (inner) name = inner; }
    if (!name && el.value) name = el.value;
    if (groupLabel && name) name = groupLabel + ' → ' + name; else if (groupLabel && !name) name = groupLabel;
    let value = null;
    if (el.value !== undefined && el.value !== '') value = el.value;
    elements.push({
      id: getStableId(el), role: role, name: name, value: value,
      description: el.getAttribute('aria-description') || null,
      bounds: { x: rect.x, y: rect.y, width: rect.width, height: rect.height },
      styles: { font_family: style.fontFamily, font_size: style.fontSize, font_weight: style.fontWeight,
        color: style.color, background_color: style.backgroundColor, border: style.border,
        display: style.display, visibility: style.visibility },
      focused: document.activeElement === el,
      enabled: !el.disabled,
      checked: el.type === 'checkbox' || el.type === 'radio' ? el.checked : undefined,
      selected: el.selected !== undefined ? el.selected : undefined,
      expanded: el.getAttribute('aria-expanded') ? el.getAttribute('aria-expanded') === 'true' : undefined,
      required: el.required !== undefined ? el.required : undefined,
      children: []
    });
  }
  return elements;
})()"#;

/// Page script: scroll offsets, viewport and document sizes, and the focused element's id.
pub const PAGE_STATE_JS: &'static str = r#"(() => {
  const focused = document.activeElement;
  return {
    scroll_x: window.scrollX || window.pageXOffset || 0,
    scroll_y: window.scrollY || window.pageYOffset || 0,
    viewport_width: window.innerWidth || document.documentElement.clientWidth || 0,
    viewport_height: window.innerHeight || document.documentElement.clientHeight || 0,
    document_width: Math.max(document.body?.scrollWidth || 0, document.documentElement?.scrollWidth || 0),
    document_height: Math.max(document.body?.scrollHeight || 0, document.documentElement?.scrollHeight || 0),
    focused_element_id: focused && focused !== document.body ? focused.id || null : null
  };
})()"#;

/// Page script: the URL, title, description, favicon, Open Graph image and language.
pub const METADATA_JS: &'static str = r#"(() => {
  const getMeta = (name) => document.querySelector(`meta[name="${name}"], meta[property="${name}"]`)?.content || null;
  const getLink = (rel) => document.querySelector(`link[rel="${rel}"], link[rel="shortcut icon"]`)?.href || null;
  return {
    url: window.location.href,
    title: document.title || null,
    description: getMeta('description') || getMeta('og:description'),
    favicon: getLink('icon') || getLink('shortcut icon'),
    og_image: getMeta('og:image'),
    language: document.documentElement.lang || null
  };
})()"#;

/// Page script: every form field with its label, value, options and state.
pub const FORM_FIELDS_JS: &'static str = r#"(() => {
  if (!window.__tivana_element_counter) window.__tivana_element_counter = 0;
  if (!window.__tivana_element_map) window.__tivana_element_map = new WeakMap();
  function getTivanaId(el) {
    if (window.__tivana_element_map.has(el)) return el.getAttribute('data-tivana-id');
    const id = 'e' + (++window.__tivana_element_counter);
    window.__tivana_element_map.set(el, id);
    el.setAttribute('data-tivana-id', id);
    return id;
  }
  function computeLabel(el) {
    const ariaLabel = el.getAttribute('aria-label');
    if (ariaLabel) return ariaLabel.trim();
    const labelledBy = el.getAttribute('aria-labelledby');
    if (labelledBy) {
      const parts = labelledBy.split(/\s+/).map(id => { const r = document.getElementById(id); return r ? r.textContent.trim() : ''; }).filter(Boolean);
      if (parts.length) return parts.join(' ');
    }
    if (el.id) { const l = document.querySelector('label[for="' + CSS.escape(el.id) + '"]'); if (l) return l.textContent.trim(); }
    const parentLabel = el.closest('label');
    if (parentLabel) {
      const clone = parentLabel.cloneNode(true);
      clone.querySelectorAll('input, select, textarea').forEach(i => i.remove());
      const text = clone.textContent.trim();
      if (text) return text;
    }
    if (el.placeholder) return el.placeholder.trim();
    const fieldset = el.closest('fieldset');
    if (fieldset) { const legend = fieldset.querySelector('legend'); if (legend) return legend.textContent.trim(); }
    return null;
  }
  const results = [];
  for (const el of document.querySelectorAll('input, select, textarea, [contenteditable="true"], [contenteditable=""]')) {
    if (el.type === 'hidden') continue;
    const tagName = el.tagName.toLowerCase();
    const field = { tivanaId: getTivanaId(el), tagName: tagName, type: el.type || null, name: el.name || null,
      id: el.id || null, value: null, required: !!el.required, disabled: !!el.disabled, label: computeLabel(el),
      options: null, checked: null, groupName: null, pattern: el.pattern || null, min: el.min || null,
      max: el.max || null, visible: el.offsetWidth > 0 && el.offsetHeight > 0 };
    if (tagName === 'select') {
      field.value = el.value;
      field.options = Array.from(el.options).map(o => ({ value: o.value, text: o.textContent.trim(), selected: o.selected }));
    } else if (el.type === 'checkbox' || el.type === 'radio') {
      field.checked = el.checked; field.value = el.value;
      if (el.type === 'radio') field.groupName = el.name || null;
    } else if (el.contentEditable === 'true' || el.contentEditable === '') {
      field.value = el.textContent || null;
    } else {
      field.value = el.value || null;
    }
    results.push(field);
  }
  return results;
})()"#;

/// Page script: installs the DOM mutation observer that queues mutation records.
pub const MUTATION_INSTALL_JS: &'static str = r#"(() => {
  window.__tivana_mutations = window.__tivana_mutations || [];
  window.__tivana_element_counter = window.__tivana_element_counter || 1;
  const getElementId = (el) => {
    if (!el || el.nodeType !== 1) return null;
    if (!el.dataset.tivanaId) el.dataset.tivanaId = 'e' + (window.__tivana_element_counter++);
    return el.dataset.tivanaId;
  };
  if (window.__tivana_observer) return { status: 'already_running' };
  window.__tivana_observer = new MutationObserver((mutations) => {
    for (const m of mutations) {
      const targetId = getElementId(m.target);
      if (m.type === 'childList') {
        for (const node of m.addedNodes) if (node.nodeType === 1)
          window.__tivana_mutations.push({ type: 'added', elementId: getElementId(node), parentId: getElementId(node.parentElement) });
        for (const node of m.removedNodes) if (node.nodeType === 1)
          window.__tivana_mutations.push({ type: 'removed', elementId: node.dataset?.tivanaId || 'unknown' });
      } else if (m.type === 'attributes') {
        window.__tivana_mutations.push({ type: 'changed', elementId: targetId, attribute: m.attributeName,
          oldValue: m.oldValue, newValue: m.target.getAttribute(m.attributeName) });
      } else if (m.type === 'characterData') {
        window.__tivana_mutations.push({ type: 'textChanged', elementId: getElementId(m.target.parentElement) || 'unknown',
          text: m.target.textContent });
      }
    }
  });
  window.__tivana_observer.observe(document.documentElement, { childList: true, subtree: true, attributes: true,
    attributeOldValue: true, characterData: true, characterDataOldValue: true });
  return { status: 'started' };
})()"#;

/// Page script: takes the queued mutation records.
pub const MUTATION_POLL_JS: &'static str = r#"(() => { const m = window.__tivana_mutations || []; window.__tivana_mutations = []; return m; })()"#;

/// Page script: disconnects the mutation observer and drops its queue.
pub const MUTATION_STOP_JS: &'static str = r#"(() => {
  if (window.__tivana_observer) { window.__tivana_observer.disconnect(); delete window.__tivana_observer; }
  delete window.__tivana_mutations;
  return { status: 'stopped' };
})()"#;

} // verus!
