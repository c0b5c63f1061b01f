//! The page scripts the runtime evaluates, built from their parts: every selector,
//! value or name is embedded as a JSON string literal (which is also a JavaScript
//! string literal), so that no text can break out of its quotes.

use vstd::prelude::*;
use crate::act::ElementRef;
use crate::routing::{json_quote, json_string_literal, i64_to_string, signed_decimal};

verus! {

/// A string as a JSON (and JavaScript) string literal.
pub fn js_string(s: &str) -> (r: String)
    ensures
        r@ == json_string_literal(s@),
{
    json_quote(s)
}

/// The JavaScript spelling of a boolean.
pub open spec fn js_bool(b: bool) -> Seq<char> {
    if b {
        "true"@
    } else {
        "false"@
    }
}

fn bool_text(b: bool) -> (s: &'static str)
    ensures
        s@ == js_bool(b),
{
    if b {
        "true"
    } else {
        "false"
    }
}

/// The expression that finds an element: by its tivana id, or by a selector.
pub open spec fn element_query_text(element: ElementRef) -> Seq<char> {
    match element {
        ElementRef::TivanaId(id) => "document.querySelector('[data-tivana-id=\"' + "@
            + json_string_literal(id@) + " + '\"]')"@,
        ElementRef::Selector(s) => "document.querySelector("@ + json_string_literal(s@) + ")"@,
    }
}

/// The expression that finds an element: by its tivana id, or by a selector.
pub fn element_query(element: &ElementRef) -> (r: String)
    ensures
        r@ == element_query_text(*element),
{
    match element {
        ElementRef::TivanaId(id) => String::from_str("document.querySelector('[data-tivana-id=\"' + ").concat(
            js_string(id.as_str()).as_str(),
        ).concat(" + '\"]')"),
        ElementRef::Selector(s) => String::from_str("document.querySelector(").concat(
            js_string(s.as_str()).as_str(),
        ).concat(")"),
    }
}

/// The text of the script that scrolls an element to the middle of the viewport and tells whether it was there.
pub open spec fn scroll_into_view_script_text(element: ElementRef) -> Seq<char> {
    "(() => { const el = "@
        + element_query_text(element)
        + "; if (el) { el.scrollIntoView({ behavior: 'instant', block: 'center' }); return true; } return false; })()"@
}

/// The script that scrolls an element to the middle of the viewport and tells whether it was there.
pub fn scroll_into_view_script(element: &ElementRef) -> (r: String)
    ensures
        r@ == scroll_into_view_script_text(*element),
{
    let e_element = element_query(element);
    let r = String::from_str("(() => { const el = ");
    let r = r.concat(e_element.as_str());
    let r = r.concat("; if (el) { el.scrollIntoView({ behavior: 'instant', block: 'center' }); return true; } return false; })()");
    r
}

/// The text of the script that sets an input's value (the focused element's when the selector is "null"), clearing it first when asked, and fires `input` and `change`.
pub open spec fn fill_script_text(selector: Seq<char>, value: Seq<char>, clear: bool) -> Seq<char> {
    "(() => {\n  const el = "@
        + json_string_literal(selector)
        + " === \"null\" ? document.activeElement : document.querySelector("@
        + json_string_literal(selector)
        + ");\n  if (!el) return { success: false, error: \"Element not found\" };\n  if ("@
        + js_bool(clear)
        + ") el.value = '';\n  const setter = Object.getOwnPropertyDescriptor(window.HTMLInputElement.prototype, 'value')?.set\n    || Object.getOwnPropertyDescriptor(window.HTMLTextAreaElement.prototype, 'value')?.set;\n  if (setter) setter.call(el, "@
        + json_string_literal(value)
        + "); else el.value = "@
        + json_string_literal(value)
        + ";\n  el.dispatchEvent(new Event('input', { bubbles: true }));\n  el.dispatchEvent(new Event('change', { bubbles: true }));\n  return { success: true, length: el.value.length };\n})()"@
}

/// The script that sets an input's value (the focused element's when the selector is "null"), clearing it first when asked, and fires `input` and `change`.
pub fn fill_script(selector: &str, value: &str, clear: bool) -> (r: String)
    ensures
        r@ == fill_script_text(selector@, value@, clear),
{
    let q_selector = js_string(selector);
    let q_value = js_string(value);
    let b_clear = bool_text(clear);
    let r = String::from_str("(() => {\n  const el = ");
    let r = r.concat(q_selector.as_str());
    let r = r.concat(" === \"null\" ? document.activeElement : document.querySelector(");
    let r = r.concat(q_selector.as_str());
    let r = r.concat(");\n  if (!el) return { success: false, error: \"Element not found\" };\n  if (");
    let r = r.concat(b_clear);
    let r = r.concat(") el.value = '';\n  const setter = Object.getOwnPropertyDescriptor(window.HTMLInputElement.prototype, 'value')?.set\n    || Object.getOwnPropertyDescriptor(window.HTMLTextAreaElement.prototype, 'value')?.set;\n  if (setter) setter.call(el, ");
    let r = r.concat(q_value.as_str());
    let r = r.concat("); else el.value = ");
    let r = r.concat(q_value.as_str());
    let r = r.concat(";\n  el.dispatchEvent(new Event('input', { bubbles: true }));\n  el.dispatchEvent(new Event('change', { bubbles: true }));\n  return { success: true, length: el.value.length };\n})()");
    r
}

/// The text of the script that scrolls the first element a selector matches to the middle of the viewport.
pub open spec fn scroll_to_selector_script_text(selector: Seq<char>, behavior: Seq<char>) -> Seq<char> {
    "document.querySelector("@
        + json_string_literal(selector)
        + ")?.scrollIntoView({ behavior: '"@
        + behavior
        + "', block: 'center' })"@
}

/// The script that scrolls the first element a selector matches to the middle of the viewport.
pub fn scroll_to_selector_script(selector: &str, behavior: &str) -> (r: String)
    ensures
        r@ == scroll_to_selector_script_text(selector@, behavior@),
{
    let q_selector = js_string(selector);
    let r = String::from_str("document.querySelector(");
    let r = r.concat(q_selector.as_str());
    let r = r.concat(")?.scrollIntoView({ behavior: '");
    let r = r.concat(behavior);
    let r = r.concat("', block: 'center' })");
    r
}

/// The text of the script that scrolls the window by an offset.
pub open spec fn scroll_by_script_text(dx: i64, dy: i64, behavior: Seq<char>) -> Seq<char> {
    "window.scrollBy({ left: "@
        + signed_decimal(dx)
        + ", top: "@
        + signed_decimal(dy)
        + ", behavior: '"@
        + behavior
        + "' })"@
}

/// The script that scrolls the window by an offset.
pub fn scroll_by_script(dx: i64, dy: i64, behavior: &str) -> (r: String)
    ensures
        r@ == scroll_by_script_text(dx, dy, behavior@),
{
    let i_dx = i64_to_string(dx);
    let i_dy = i64_to_string(dy);
    let r = String::from_str("window.scrollBy({ left: ");
    let r = r.concat(i_dx.as_str());
    let r = r.concat(", top: ");
    let r = r.concat(i_dy.as_str());
    let r = r.concat(", behavior: '");
    let r = r.concat(behavior);
    let r = r.concat("' })");
    r
}

/// The text of the script that focuses the first element a selector matches.
pub open spec fn focus_script_text(selector: Seq<char>) -> Seq<char> {
    "document.querySelector("@
        + json_string_literal(selector)
        + ")?.focus()"@
}

/// The script that focuses the first element a selector matches.
pub fn focus_script(selector: &str) -> (r: String)
    ensures
        r@ == focus_script_text(selector@),
{
    let q_selector = js_string(selector);
    let r = String::from_str("document.querySelector(");
    let r = r.concat(q_selector.as_str());
    let r = r.concat(")?.focus()");
    r
}

/// The text of the script that sets a select (or input) to a value and fires its events.
pub open spec fn select_script_text(selector: Seq<char>, value: Seq<char>) -> Seq<char> {
    "(() => {\n  const el = document.querySelector("@
        + json_string_literal(selector)
        + ");\n  if (!el) return { success: false, error: \"Element not found\" };\n  if (el.tagName === 'SELECT') { el.value = "@
        + json_string_literal(value)
        + "; el.dispatchEvent(new Event('change', { bubbles: true })); return { success: true, selected: el.value }; }\n  const setter = Object.getOwnPropertyDescriptor(window.HTMLInputElement.prototype, 'value')?.set;\n  if (setter) setter.call(el, "@
        + json_string_literal(value)
        + "); else el.value = "@
        + json_string_literal(value)
        + ";\n  el.dispatchEvent(new Event('input', { bubbles: true }));\n  el.dispatchEvent(new Event('change', { bubbles: true }));\n  return { success: true, selected: el.value };\n})()"@
}

/// The script that sets a select (or input) to a value and fires its events.
pub fn select_script(selector: &str, value: &str) -> (r: String)
    ensures
        r@ == select_script_text(selector@, value@),
{
    let q_selector = js_string(selector);
    let q_value = js_string(value);
    let r = String::from_str("(() => {\n  const el = document.querySelector(");
    let r = r.concat(q_selector.as_str());
    let r = r.concat(");\n  if (!el) return { success: false, error: \"Element not found\" };\n  if (el.tagName === 'SELECT') { el.value = ");
    let r = r.concat(q_value.as_str());
    let r = r.concat("; el.dispatchEvent(new Event('change', { bubbles: true })); return { success: true, selected: el.value }; }\n  const setter = Object.getOwnPropertyDescriptor(window.HTMLInputElement.prototype, 'value')?.set;\n  if (setter) setter.call(el, ");
    let r = r.concat(q_value.as_str());
    let r = r.concat("); else el.value = ");
    let r = r.concat(q_value.as_str());
    let r = r.concat(";\n  el.dispatchEvent(new Event('input', { bubbles: true }));\n  el.dispatchEvent(new Event('change', { bubbles: true }));\n  return { success: true, selected: el.value };\n})()");
    r
}

/// The text of the wait condition that an element matching a selector exists.
pub open spec fn element_present_script_text(selector: Seq<char>) -> Seq<char> {
    "document.querySelector("@
        + json_string_literal(selector)
        + ") !== null"@
}

/// The wait condition that an element matching a selector exists.
pub fn element_present_script(selector: &str) -> (r: String)
    ensures
        r@ == element_present_script_text(selector@),
{
    let q_selector = js_string(selector);
    let r = String::from_str("document.querySelector(");
    let r = r.concat(q_selector.as_str());
    let r = r.concat(") !== null");
    r
}

/// The text of the wait condition that an element matching a selector is shown with a size.
pub open spec fn element_visible_script_text(selector: Seq<char>) -> Seq<char> {
    "(() => { const el = document.querySelector("@
        + json_string_literal(selector)
        + "); if (!el) return false; const s = window.getComputedStyle(el); const r = el.getBoundingClientRect(); return s.display !== 'none' && s.visibility !== 'hidden' && r.width > 0 && r.height > 0; })()"@
}

/// The wait condition that an element matching a selector is shown with a size.
pub fn element_visible_script(selector: &str) -> (r: String)
    ensures
        r@ == element_visible_script_text(selector@),
{
    let q_selector = js_string(selector);
    let r = String::from_str("(() => { const el = document.querySelector(");
    let r = r.concat(q_selector.as_str());
    let r = r.concat("); if (!el) return false; const s = window.getComputedStyle(el); const r = el.getBoundingClientRect(); return s.display !== 'none' && s.visibility !== 'hidden' && r.width > 0 && r.height > 0; })()");
    r
}

/// The text of the wait condition that no element matching a selector is shown.
pub open spec fn element_hidden_script_text(selector: Seq<char>) -> Seq<char> {
    "(() => { const el = document.querySelector("@
        + json_string_literal(selector)
        + "); if (!el) return true; const s = window.getComputedStyle(el); return s.display === 'none' || s.visibility === 'hidden'; })()"@
}

/// The wait condition that no element matching a selector is shown.
pub fn element_hidden_script(selector: &str) -> (r: String)
    ensures
        r@ == element_hidden_script_text(selector@),
{
    let q_selector = js_string(selector);
    let r = String::from_str("(() => { const el = document.querySelector(");
    let r = r.concat(q_selector.as_str());
    let r = r.concat("); if (!el) return true; const s = window.getComputedStyle(el); return s.display === 'none' || s.visibility === 'hidden'; })()");
    r
}

/// The text of the script that describes the first element a selector matches while it is visible (null otherwise).
pub open spec fn visible_element_info_script_text(selector: Seq<char>) -> Seq<char> {
    "(() => {\n  const el = document.querySelector("@
        + json_string_literal(selector)
        + ");\n  if (!el) return null;\n  const style = window.getComputedStyle(el);\n  if (style.display === 'none' || style.visibility === 'hidden') return null;\n  const rect = el.getBoundingClientRect();\n  if (rect.width === 0 && rect.height === 0) return null;\n  return { tagName: el.tagName.toLowerCase(), text: el.innerText?.trim()?.slice(0, 200) || null,\n    bounds: { x: rect.x, y: rect.y, width: rect.width, height: rect.height } };\n})()"@
}

/// The script that describes the first element a selector matches while it is visible (null otherwise).
pub fn visible_element_info_script(selector: &str) -> (r: String)
    ensures
        r@ == visible_element_info_script_text(selector@),
{
    let q_selector = js_string(selector);
    let r = String::from_str("(() => {\n  const el = document.querySelector(");
    let r = r.concat(q_selector.as_str());
    let r = r.concat(");\n  if (!el) return null;\n  const style = window.getComputedStyle(el);\n  if (style.display === 'none' || style.visibility === 'hidden') return null;\n  const rect = el.getBoundingClientRect();\n  if (rect.width === 0 && rect.height === 0) return null;\n  return { tagName: el.tagName.toLowerCase(), text: el.innerText?.trim()?.slice(0, 200) || null,\n    bounds: { x: rect.x, y: rect.y, width: rect.width, height: rect.height } };\n})()");
    r
}

/// The text of the script that evaluates a wait expression and gives its value, or null when it is falsy.
pub open spec fn wait_function_script_text(expression: Seq<char>) -> Seq<char> {
    "(() => { const __result = (function() { return ("@
        + expression
        + "); })(); return __result ? __result : null; })()"@
}

/// The script that evaluates a wait expression and gives its value, or null when it is falsy.
pub fn wait_function_script(expression: &str) -> (r: String)
    ensures
        r@ == wait_function_script_text(expression@),
{
    let r = String::from_str("(() => { const __result = (function() { return (");
    let r = r.concat(expression);
    let r = r.concat("); })(); return __result ? __result : null; })()");
    r
}

/// The text of the script that sets a select to the chosen option and fires `change` and `input`.
pub open spec fn set_select_option_script_text(selector: Seq<char>, option: Seq<char>) -> Seq<char> {
    "(() => { const el = document.querySelector("@
        + json_string_literal(selector)
        + "); if (!el) return false; el.value = "@
        + json_string_literal(option)
        + "; el.dispatchEvent(new Event('change', { bubbles: true })); el.dispatchEvent(new Event('input', { bubbles: true })); return true; })()"@
}

/// The script that sets a select to the chosen option and fires `change` and `input`.
pub fn set_select_option_script(selector: &str, option: &str) -> (r: String)
    ensures
        r@ == set_select_option_script_text(selector@, option@),
{
    let q_selector = js_string(selector);
    let q_option = js_string(option);
    let r = String::from_str("(() => { const el = document.querySelector(");
    let r = r.concat(q_selector.as_str());
    let r = r.concat("); if (!el) return false; el.value = ");
    let r = r.concat(q_option.as_str());
    let r = r.concat("; el.dispatchEvent(new Event('change', { bubbles: true })); el.dispatchEvent(new Event('input', { bubbles: true })); return true; })()");
    r
}

/// The text of the script that clicks the radio of a group whose label or value answers yes (or no), else the one whose value is given.
pub open spec fn radio_choice_script_text(selector: Seq<char>, affirmative: bool, value: Seq<char>) -> Seq<char> {
    "(() => {\n  const el = document.querySelector("@
        + json_string_literal(selector)
        + ");\n  if (!el) return 'not_found';\n  const name = el.name;\n  if (!name) { el.click(); return 'clicked'; }\n  const radios = document.querySelectorAll('input[type=\"radio\"][name=\"' + CSS.escape(name) + '\"]');\n  for (const radio of radios) {\n    const label = radio.closest('label')?.textContent?.trim()?.toLowerCase() || '';\n    const val = radio.value?.toLowerCase() || '';\n    const aff = label.includes('yes') || val === 'yes' || val === 'true' || val === '1';\n    const neg = label.includes('no') || val === 'no' || val === 'false' || val === '0';\n    if (("@
        + js_bool(affirmative)
        + " && aff) || (!"@
        + js_bool(affirmative)
        + " && neg)) { radio.click(); return 'clicked'; }\n  }\n  for (const radio of radios) { if (radio.value?.toLowerCase() === "@
        + json_string_literal(value)
        + ") { radio.click(); return 'clicked'; } }\n  return 'no_match';\n})()"@
}

/// The script that clicks the radio of a group whose label or value answers yes (or no), else the one whose value is given.
pub fn radio_choice_script(selector: &str, affirmative: bool, value: &str) -> (r: String)
    ensures
        r@ == radio_choice_script_text(selector@, affirmative, value@),
{
    let q_selector = js_string(selector);
    let b_affirmative = bool_text(affirmative);
    let q_value = js_string(value);
    let r = String::from_str("(() => {\n  const el = document.querySelector(");
    let r = r.concat(q_selector.as_str());
    let r = r.concat(");\n  if (!el) return 'not_found';\n  const name = el.name;\n  if (!name) { el.click(); return 'clicked'; }\n  const radios = document.querySelectorAll('input[type=\"radio\"][name=\"' + CSS.escape(name) + '\"]');\n  for (const radio of radios) {\n    const label = radio.closest('label')?.textContent?.trim()?.toLowerCase() || '';\n    const val = radio.value?.toLowerCase() || '';\n    const aff = label.includes('yes') || val === 'yes' || val === 'true' || val === '1';\n    const neg = label.includes('no') || val === 'no' || val === 'false' || val === '0';\n    if ((");
    let r = r.concat(b_affirmative);
    let r = r.concat(" && aff) || (!");
    let r = r.concat(b_affirmative);
    let r = r.concat(" && neg)) { radio.click(); return 'clicked'; }\n  }\n  for (const radio of radios) { if (radio.value?.toLowerCase() === ");
    let r = r.concat(q_value.as_str());
    let r = r.concat(") { radio.click(); return 'clicked'; } }\n  return 'no_match';\n})()");
    r
}

/// The text of the script that lists every element a selector matches with its tag, text, attributes and bounds.
pub open spec fn find_elements_script_text(selector: Seq<char>) -> Seq<char> {
    "(() => Array.from(document.querySelectorAll("@
        + json_string_literal(selector)
        + ")).map((el) => {\n  const rect = el.getBoundingClientRect();\n  const attrs = {};\n  for (const attr of el.attributes) attrs[attr.name] = attr.value;\n  return { selector: "@
        + json_string_literal(selector)
        + ", tag_name: el.tagName.toLowerCase(), text: el.innerText?.trim()?.slice(0, 200) || null,\n    attributes: attrs, bounds: rect.width > 0 ? { x: rect.x, y: rect.y, width: rect.width, height: rect.height } : null };\n}))()"@
}

/// The script that lists every element a selector matches with its tag, text, attributes and bounds.
pub fn find_elements_script(selector: &str) -> (r: String)
    ensures
        r@ == find_elements_script_text(selector@),
{
    let q_selector = js_string(selector);
    let r = String::from_str("(() => Array.from(document.querySelectorAll(");
    let r = r.concat(q_selector.as_str());
    let r = r.concat(")).map((el) => {\n  const rect = el.getBoundingClientRect();\n  const attrs = {};\n  for (const attr of el.attributes) attrs[attr.name] = attr.value;\n  return { selector: ");
    let r = r.concat(q_selector.as_str());
    let r = r.concat(", tag_name: el.tagName.toLowerCase(), text: el.innerText?.trim()?.slice(0, 200) || null,\n    attributes: attrs, bounds: rect.width > 0 ? { x: rect.x, y: rect.y, width: rect.width, height: rect.height } : null };\n}))()");
    r
}

/// The text of the extra condition of a role lookup on the accessible name or text containing a name.
pub open spec fn name_condition_text(name: Seq<char>) -> Seq<char> {
    "&& (name?.toLowerCase().includes("@
        + json_string_literal(name)
        + ".toLowerCase()) || el.innerText?.toLowerCase().includes("@
        + json_string_literal(name)
        + ".toLowerCase()))"@
}

/// The extra condition of a role lookup on the accessible name or text containing a name.
pub fn name_condition(name: &str) -> (r: String)
    ensures
        r@ == name_condition_text(name@),
{
    let q_name = js_string(name);
    let r = String::from_str("&& (name?.toLowerCase().includes(");
    let r = r.concat(q_name.as_str());
    let r = r.concat(".toLowerCase()) || el.innerText?.toLowerCase().includes(");
    let r = r.concat(q_name.as_str());
    let r = r.concat(".toLowerCase()))");
    r
}

/// The text of the script that finds the first visible element with a role, under an extra condition on its name.
pub open spec fn role_lookup_script_text(role: Seq<char>, condition: Seq<char>) -> Seq<char> {
    "(() => {\n  for (const el of document.querySelectorAll('*')) {\n    const elRole = el.getAttribute('role') || el.tagName.toLowerCase();\n    const name = el.getAttribute('aria-label') || el.innerText?.trim();\n    const targetRole = "@
        + json_string_literal(role)
        + ".toLowerCase();\n    const matchRole = elRole.toLowerCase() === targetRole ||\n      (targetRole === 'button' && (elRole === 'button' || el.tagName === 'BUTTON')) ||\n      (targetRole === 'link' && (elRole === 'link' || el.tagName === 'A')) ||\n      (targetRole === 'textbox' && (elRole === 'textbox' || el.tagName === 'INPUT' || el.tagName === 'TEXTAREA'));\n    if (matchRole "@
        + condition
        + ") {\n      const rect = el.getBoundingClientRect();\n      if (rect.width > 0 && rect.height > 0) {\n        const style = window.getComputedStyle(el);\n        if (style.display !== 'none' && style.visibility !== 'hidden')\n          return { bounds: { x: rect.x, y: rect.y, width: rect.width, height: rect.height },\n                    selector: el.id ? '#' + el.id : el.tagName.toLowerCase() };\n      }\n    }\n  }\n  return null;\n})()"@
}

/// The script that finds the first visible element with a role, under an extra condition on its name.
pub fn role_lookup_script(role: &str, condition: &str) -> (r: String)
    ensures
        r@ == role_lookup_script_text(role@, condition@),
{
    let q_role = js_string(role);
    let r = String::from_str("(() => {\n  for (const el of document.querySelectorAll('*')) {\n    const elRole = el.getAttribute('role') || el.tagName.toLowerCase();\n    const name = el.getAttribute('aria-label') || el.innerText?.trim();\n    const targetRole = ");
    let r = r.concat(q_role.as_str());
    let r = r.concat(".toLowerCase();\n    const matchRole = elRole.toLowerCase() === targetRole ||\n      (targetRole === 'button' && (elRole === 'button' || el.tagName === 'BUTTON')) ||\n      (targetRole === 'link' && (elRole === 'link' || el.tagName === 'A')) ||\n      (targetRole === 'textbox' && (elRole === 'textbox' || el.tagName === 'INPUT' || el.tagName === 'TEXTAREA'));\n    if (matchRole ");
    let r = r.concat(condition);
    let r = r.concat(") {\n      const rect = el.getBoundingClientRect();\n      if (rect.width > 0 && rect.height > 0) {\n        const style = window.getComputedStyle(el);\n        if (style.display !== 'none' && style.visibility !== 'hidden')\n          return { bounds: { x: rect.x, y: rect.y, width: rect.width, height: rect.height },\n                    selector: el.id ? '#' + el.id : el.tagName.toLowerCase() };\n      }\n    }\n  }\n  return null;\n})()");
    r
}

/// The text of the script that gives the bounds of the first element a selector matches (null when absent or empty).
pub open spec fn selector_bounds_script_text(selector: Seq<char>) -> Seq<char> {
    "(() => {\n  const el = document.querySelector("@
        + json_string_literal(selector)
        + ");\n  if (!el) return null;\n  const rect = el.getBoundingClientRect();\n  if (rect.width === 0 && rect.height === 0) return null;\n  return { x: rect.x, y: rect.y, width: rect.width, height: rect.height };\n})()"@
}

/// The script that gives the bounds of the first element a selector matches (null when absent or empty).
pub fn selector_bounds_script(selector: &str) -> (r: String)
    ensures
        r@ == selector_bounds_script_text(selector@),
{
    let q_selector = js_string(selector);
    let r = String::from_str("(() => {\n  const el = document.querySelector(");
    let r = r.concat(q_selector.as_str());
    let r = r.concat(");\n  if (!el) return null;\n  const rect = el.getBoundingClientRect();\n  if (rect.width === 0 && rect.height === 0) return null;\n  return { x: rect.x, y: rect.y, width: rect.width, height: rect.height };\n})()");
    r
}

/// The text of the script an extension session runs to scroll to, focus and click the element carrying a tivana id.
pub open spec fn extension_focus_script_text(target: Seq<char>) -> Seq<char> {
    "(function() { var el = document.querySelector('[data-tivana-id=\""@
        + target
        + "\"]'); if (el) { el.scrollIntoView({block:'center'}); el.focus(); el.click(); return 'ok'; } return 'not found'; })()"@
}

/// The script an extension session runs to scroll to, focus and click the element carrying a tivana id.
pub fn extension_focus_script(target: &str) -> (r: String)
    ensures
        r@ == extension_focus_script_text(target@),
{
    let r = String::from_str("(function() { var el = document.querySelector('[data-tivana-id=\"");
    let r = r.concat(target);
    let r = r.concat("\"]'); if (el) { el.scrollIntoView({block:'center'}); el.focus(); el.click(); return 'ok'; } return 'not found'; })()");
    r
}

/// The text of the script an extension session runs to find the element carrying a tivana id, scroll to it and report its center.
pub open spec fn extension_locate_script_text(target: Seq<char>) -> Seq<char> {
    "(function() {\n  var el = document.querySelector('[data-tivana-id=\""@
        + target
        + "\"]');\n  if (!el) { var id = '"@
        + target
        + "'; for (var e of document.querySelectorAll('[data-tivana-id]')) { if (e.getAttribute('data-tivana-id') === id) { el = e; break; } } }\n  if (!el) return JSON.stringify({error: 'Element not found'});\n  el.scrollIntoView({block: 'center'});\n  var rect = el.getBoundingClientRect();\n  return JSON.stringify({x: rect.x + rect.width/2, y: rect.y + rect.height/2});\n})()"@
}

/// The script an extension session runs to find the element carrying a tivana id, scroll to it and report its center.
pub fn extension_locate_script(target: &str) -> (r: String)
    ensures
        r@ == extension_locate_script_text(target@),
{
    let r = String::from_str("(function() {\n  var el = document.querySelector('[data-tivana-id=\"");
    let r = r.concat(target);
    let r = r.concat("\"]');\n  if (!el) { var id = '");
    let r = r.concat(target);
    let r = r.concat("'; for (var e of document.querySelectorAll('[data-tivana-id]')) { if (e.getAttribute('data-tivana-id') === id) { el = e; break; } } }\n  if (!el) return JSON.stringify({error: 'Element not found'});\n  el.scrollIntoView({block: 'center'});\n  var rect = el.getBoundingClientRect();\n  return JSON.stringify({x: rect.x + rect.width/2, y: rect.y + rect.height/2});\n})()");
    r
}

} // verus!
