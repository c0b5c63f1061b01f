use tivana::act::{
    decode_batch_action, default_button, default_click_count, default_scroll_amount, default_smooth,
    default_true, element_not_found, element_ref, fill_outcome, fill_selector, focus_plan, form_field_action,
    key_description, no_target_error, page_settled, scroll_behavior, scroll_delta, scroll_plan, select_outcome,
    select_selector, stale_retries, target_lookup, timeout_waiting_for, typing_pauses, upload_element, wait_step,
    ActionTarget, BatchAction, BatchResult, BatchStep, ClickOptions, ElementRef, FillOptions, FocusPlan,
    FormFieldAction, FormFillResult, PacingConfig, ScrollDirection, ScrollOptions, ScrollPlan, TargetLookup,
    TypeOptions, WaitCondition, WaitProbe, WaitStep,
};
use tivana::error::TivanaError;
use tivana::json::JsonValue;

fn s(x: &str) -> JsonValue {
    JsonValue::Str(x.to_string())
}

fn obj(entries: Vec<(&str, JsonValue)>) -> JsonValue {
    JsonValue::Object(entries.into_iter().map(|(k, v)| (k.to_string(), v)).collect())
}

fn action(kind: &str) -> BatchAction {
    BatchAction {
        action_type: kind.to_string(),
        target: None,
        text: None,
        key: None,
        modifiers: None,
        direction: None,
        amount: None,
        url: None,
        value: None,
        delay_ms: None,
    }
}

fn browser_message(r: Result<BatchStep, TivanaError>) -> String {
    match r {
        Err(TivanaError::Browser(m)) => m,
        _ => panic!("expected a browser error"),
    }
}

#[test]
fn test_action_target_element_id() {
    let target = ActionTarget::element_id("e5");
    assert_eq!(target.element_id, Some("e5".to_string()));
    assert!(!target.is_empty());
}

#[test]
fn test_action_target_selector() {
    let target = ActionTarget::selector("button.submit");
    assert_eq!(target.selector, Some("button.submit".to_string()));
}

#[test]
fn test_action_target_coordinates() {
    let target = ActionTarget::coordinates(100.0f64.to_bits(), 200.0f64.to_bits());
    assert_eq!(target.coordinates, Some((100.0f64.to_bits(), 200.0f64.to_bits())));
}

#[test]
fn test_click_options_default() {
    let opts = ClickOptions::default();
    assert_eq!(opts.button, "left");
    assert_eq!(opts.click_count, 1);
}

#[test]
fn option_defaults() {
    assert_eq!(default_button(), "left");
    assert_eq!(default_click_count(), 1);
    assert_eq!(default_scroll_amount(), 100);
    assert!(default_smooth());
    assert!(default_true());
    assert!(FillOptions::default().clear_first);
    let t = TypeOptions::default();
    assert_eq!(t.delay_ms, 0);
    assert!(!t.clear_first);
    let p = PacingConfig::default();
    assert_eq!((p.pre_delay_ms, p.pre_delay_max_ms, p.post_delay_ms, p.post_delay_max_ms), (0, 0, 0, 0));
}

#[test]
fn human_pacing_draws_within_its_ranges() {
    let p = PacingConfig::human();
    assert_eq!((p.pre_delay_ms, p.pre_delay_max_ms, p.post_delay_ms, p.post_delay_max_ms), (200, 800, 100, 400));
    for _ in 0..50 {
        let pre = p.pre_delay();
        assert!(200 <= pre && pre <= 800);
        let post = p.post_delay();
        assert!(100 <= post && post <= 400);
    }
    assert_eq!(PacingConfig::default().pre_delay(), 0);
    let fixed = PacingConfig { pre_delay_ms: 300, pre_delay_max_ms: 100, post_delay_ms: 0, post_delay_max_ms: 0 };
    assert_eq!(fixed.pre_delay(), 300);
    assert_eq!(fixed.post_delay(), 0);
}

#[test]
fn pacing_minimum_holds_without_a_maximum() {
    let p = PacingConfig { pre_delay_ms: 300, pre_delay_max_ms: 0, post_delay_ms: 120, post_delay_max_ms: 0 };
    assert_eq!(p.pre_delay(), 300);
    assert_eq!(p.post_delay(), 120);
}

#[test]
fn scroll_offsets_by_direction() {
    assert_eq!(scroll_delta(ScrollDirection::Up, 100), (0, -100));
    assert_eq!(scroll_delta(ScrollDirection::Down, 100), (0, 100));
    assert_eq!(scroll_delta(ScrollDirection::Left, 40), (-40, 0));
    assert_eq!(scroll_delta(ScrollDirection::Right, 40), (40, 0));
    assert_eq!(scroll_delta(ScrollDirection::Up, i32::MIN), (0, 2147483648));
    assert_eq!(scroll_behavior(true), "smooth");
    assert_eq!(scroll_behavior(false), "instant");
}

#[test]
fn scroll_plans() {
    let opts = ScrollOptions { direction: ScrollDirection::Up, amount: 250, smooth: true };
    assert!(matches!(scroll_plan(None, &opts), ScrollPlan::By { dx: 0, dy: -250 }));
    let sel = ActionTarget::selector("#list");
    assert!(matches!(scroll_plan(Some(&sel), &opts), ScrollPlan::ToSelector(ref s) if s == "#list"));
    let id = ActionTarget::element_id("e9");
    assert!(matches!(scroll_plan(Some(&id), &opts), ScrollPlan::ToElement(ref s) if s == "e9"));
    let empty = ActionTarget { element_id: None, selector: None, text: None, role: None, label: None, coordinates: None };
    assert!(matches!(scroll_plan(Some(&empty), &opts), ScrollPlan::Nothing));
    let text_only = ActionTarget { text: Some("x".to_string()), ..empty };
    assert!(matches!(scroll_plan(Some(&text_only), &opts), ScrollPlan::Nothing));
}

#[test]
fn key_descriptions() {
    assert_eq!(key_description("Enter", &vec![]), "Enter");
    assert_eq!(key_description("a", &vec!["Control".to_string(), "Shift".to_string()]), "Control+Shift+a");
}

#[test]
fn target_lookup_priority() {
    let mut t = ActionTarget::element_id("e1");
    t.selector = Some("#a".to_string());
    t.coordinates = Some((1, 2));
    assert!(matches!(target_lookup(&t), TargetLookup::Point { x_bits: 1, y_bits: 2 }));
    t.coordinates = None;
    assert!(matches!(target_lookup(&t), TargetLookup::ElementId(ref s) if s == "e1"));
    t.element_id = None;
    assert!(matches!(target_lookup(&t), TargetLookup::Selector(ref s) if s == "#a"));
    let label_only = ActionTarget { element_id: None, selector: None, text: None, role: None, label: Some("Go".to_string()), coordinates: None };
    match target_lookup(&label_only) {
        TargetLookup::RoleLabel { role, label } => {
            assert_eq!(role, "*");
            assert_eq!(label, Some("Go".to_string()));
        }
        _ => panic!("expected role/label"),
    }
    let role_label = ActionTarget::role_and_label("button", "Submit");
    assert!(matches!(target_lookup(&role_label), TargetLookup::RoleLabel { .. }));
    let empty = ActionTarget { element_id: None, selector: None, text: Some("t".to_string()), role: None, label: None, coordinates: None };
    assert!(matches!(target_lookup(&empty), TargetLookup::Missing));
    assert!(matches!(no_target_error(), TivanaError::Browser(ref m) if m == "No target specified for action"));
    assert!(matches!(element_not_found("e4"), TivanaError::Browser(ref m) if m == "Element not found: e4"));
    assert_eq!(stale_retries(&ActionTarget::element_id("e1")), 3);
    assert_eq!(stale_retries(&ActionTarget::selector("#a")), 0);
}

#[test]
fn selectors_for_fill_select_focus_and_upload() {
    assert_eq!(fill_selector(&ActionTarget::element_id("e3")), "[data-tivana-id=\"e3\"]");
    assert_eq!(fill_selector(&ActionTarget::selector("#q")), "#q");
    let none = ActionTarget { element_id: None, selector: None, text: None, role: None, label: None, coordinates: None };
    assert_eq!(fill_selector(&none), "null");
    assert_eq!(select_selector(&ActionTarget::element_id("e3")).unwrap(), "[data-tivana-id=\"e3\"]");
    assert!(matches!(select_selector(&none), Err(TivanaError::Browser(ref m)) if m == "Select requires element ID or selector"));
    let mut both = ActionTarget::element_id("e1");
    both.selector = Some("#s".to_string());
    assert!(matches!(focus_plan(&both), Ok(FocusPlan::BySelector(ref s)) if s == "#s"));
    assert!(matches!(focus_plan(&ActionTarget::element_id("e1")), Ok(FocusPlan::ByClick)));
    assert!(matches!(focus_plan(&none), Err(TivanaError::Browser(ref m)) if m == "Focus requires selector or element_id"));
    assert!(matches!(upload_element(&both), Ok(ElementRef::TivanaId(ref s)) if s == "e1"));
    assert!(matches!(upload_element(&none), Err(TivanaError::Browser(ref m)) if m == "uploadFile requires elementId or selector target"));
    assert!(element_ref(&none).is_none());
}

#[test]
fn batch_actions_decode() {
    let mut click = action("click");
    assert_eq!(browser_message(decode_batch_action(&click)), "click requires target");
    click.target = Some(ActionTarget::element_id("e5"));
    assert!(matches!(decode_batch_action(&click), Ok(BatchStep::Click { .. })));
    assert_eq!(browser_message(decode_batch_action(&action("type"))), "type requires text");
    assert_eq!(browser_message(decode_batch_action(&action("press"))), "press requires key");
    assert_eq!(browser_message(decode_batch_action(&action("navigate"))), "navigate requires url");
    assert_eq!(browser_message(decode_batch_action(&action("hover"))), "hover requires target");
    assert_eq!(browser_message(decode_batch_action(&action("focus"))), "focus requires target");
    assert_eq!(browser_message(decode_batch_action(&action("select"))), "select requires target");
    let mut select = action("select");
    select.target = Some(ActionTarget::element_id("e1"));
    assert_eq!(browser_message(decode_batch_action(&select)), "select requires value");
    assert_eq!(browser_message(decode_batch_action(&action("dance"))), "Unknown batch action type: dance");
    let mut scroll = action("scroll");
    scroll.direction = Some("left".to_string());
    match decode_batch_action(&scroll) {
        Ok(BatchStep::Scroll { target, options }) => {
            assert!(target.is_none());
            assert_eq!(options.direction, ScrollDirection::Left);
            assert_eq!(options.amount, 100);
            assert!(options.smooth);
        }
        _ => panic!("expected scroll"),
    }
    scroll.direction = Some("sideways".to_string());
    scroll.amount = Some(30);
    match decode_batch_action(&scroll) {
        Ok(BatchStep::Scroll { options, .. }) => {
            assert_eq!(options.direction, ScrollDirection::Down);
            assert_eq!(options.amount, 30);
        }
        _ => panic!("expected scroll"),
    }
    let mut press = action("press");
    press.key = Some("a".to_string());
    match decode_batch_action(&press) {
        Ok(BatchStep::Press { key, modifiers }) => {
            assert_eq!(key, "a");
            assert!(modifiers.is_empty());
        }
        _ => panic!("expected press"),
    }
}

#[test]
fn batch_records_and_stops_on_error() {
    let mut result = BatchResult::begin();
    let mut a = action("click");
    a.delay_ms = Some(50);
    assert_eq!(result.record(&a, 45, Ok(()), true), Some(50));
    let b = action("type");
    assert_eq!(result.record(&b, 10, Err(TivanaError::Browser("target not found".to_string())), true), None);
    assert_eq!(result.results.len(), 2);
    assert!(result.results[0].success);
    assert_eq!(result.results[0].duration_ms, 45);
    assert!(!result.results[1].success);
    assert_eq!(result.results[1].action, "type");
    assert_eq!(result.results[1].error, Some("Browser error: target not found".to_string()));
    result.finish(55);
    assert_eq!(result.total_duration_ms, 55);
    let mut other = BatchResult::begin();
    assert_eq!(other.record(&b, 1, Err(TivanaError::Browser("x".to_string())), false), Some(80));
}

#[test]
fn form_fill_tally() {
    assert!(matches!(form_field_action(&s("hi")), FormFieldAction::Type(ref t) if t == "hi"));
    assert!(matches!(form_field_action(&JsonValue::Bool(true)), FormFieldAction::Click));
    assert!(matches!(form_field_action(&JsonValue::Bool(false)), FormFieldAction::Complete));
    assert!(matches!(form_field_action(&JsonValue::Null), FormFieldAction::Unsupported));
    let mut r = FormFillResult::begin(4);
    r.record_outcome("e1", Ok(()));
    r.record_complete();
    r.record_unsupported("e3");
    r.record_outcome("e4", Err(TivanaError::Browser("not found".to_string())));
    r.record_submit("e9", Err(TivanaError::Browser("gone".to_string())));
    r.finish(500);
    assert_eq!(r.fields_completed, 2);
    assert_eq!(r.total_fields, 4);
    assert!(!r.submitted);
    assert_eq!(r.duration_ms, 500);
    assert_eq!(r.errors.len(), 3);
    assert_eq!(r.errors[0].error, "Unsupported value type");
    assert_eq!(r.errors[1].field, "e4");
    assert_eq!(r.errors[1].error, "Browser error: not found");
    assert_eq!(r.errors[2].error, "Submit failed: Browser error: gone");
    r.record_submit("e9", Ok(()));
    assert!(r.submitted);
}

#[test]
fn script_outcomes() {
    assert!(fill_outcome(&obj(vec![("success", JsonValue::Bool(true))])).is_ok());
    assert!(matches!(fill_outcome(&obj(vec![("success", JsonValue::Bool(false)), ("error", s("Element not found"))])),
        Err(TivanaError::Browser(ref m)) if m == "Element not found"));
    assert!(matches!(fill_outcome(&JsonValue::Null), Err(TivanaError::Browser(ref m)) if m == "Fill failed"));
    assert!(matches!(select_outcome(&obj(vec![])), Err(TivanaError::Browser(ref m)) if m == "Select failed: Select failed"));
    assert!(select_outcome(&obj(vec![("success", JsonValue::Bool(true))])).is_ok());
}

#[test]
fn waits_decide_after_each_poll() {
    let el = WaitCondition::Element { selector: "#x".to_string() };
    assert!(matches!(wait_step(&el, &WaitProbe::Found(true), false), WaitStep::Done));
    assert!(matches!(wait_step(&el, &WaitProbe::Found(false), false), WaitStep::Poll));
    assert!(matches!(wait_step(&el, &WaitProbe::Found(false), true),
        WaitStep::Fail(TivanaError::Browser(ref m)) if m == "Timeout waiting for element: #x"));
    let hidden = WaitCondition::Hidden { selector: "#h".to_string() };
    assert!(matches!(wait_step(&hidden, &WaitProbe::Found(false), true),
        WaitStep::Fail(TivanaError::Browser(ref m)) if m == "Timeout waiting for hidden: #h"));
    let nav = WaitCondition::Navigation;
    assert!(matches!(wait_step(&nav, &WaitProbe::ReadyState("complete".to_string()), true), WaitStep::Done));
    assert!(matches!(wait_step(&nav, &WaitProbe::ReadyState("interactive".to_string()), true),
        WaitStep::Fail(TivanaError::Browser(ref m)) if m == "Timeout waiting for navigation"));
    let idle = WaitCondition::NetworkIdle { idle_time_ms: 500 };
    assert!(matches!(wait_step(&idle, &WaitProbe::ReadyState("loading".to_string()), true),
        WaitStep::Fail(TivanaError::Browser(ref m)) if m == "Timeout waiting for network idle"));
    assert!(matches!(wait_step(&WaitCondition::Delay { duration_ms: 5 }, &WaitProbe::Found(false), true), WaitStep::Done));
    assert!(page_settled("interactive"));
    assert!(page_settled("complete"));
    assert!(!page_settled("loading"));
    assert!(matches!(timeout_waiting_for("selector", ".a"), TivanaError::Browser(ref m) if m == "Timeout waiting for selector: .a"));
}

#[test]
fn typing_pauses_follow_one_interval() {
    let pauses = typing_pauses(40);
    assert_eq!(pauses.len(), 40);
    assert!(pauses[0].is_none());
    let first = pauses.iter().position(|p| p.is_some()).unwrap();
    assert!((5..=10).contains(&first));
    for (i, p) in pauses.iter().enumerate() {
        assert_eq!(p.is_some(), i > 0 && i % first == 0);
        if let Some(ms) = p {
            assert!(200 <= *ms && *ms <= 400);
        }
    }
    assert!(typing_pauses(0).is_empty());
}
