use tivana::error::TivanaError;
use tivana::json::{JsonNumber, JsonValue};
use tivana::perceive::{FormField, SelectOption};
use tivana::smart_fill::{
    choose_select_option, is_affirmative, match_label_to_profile_key, no_matching_option, plan_field,
    radio_outcome, FieldPlan, FillAction, SmartFillResult, SmartFillSkip,
};

fn s(x: &str) -> JsonValue {
    JsonValue::Str(x.to_string())
}

fn number(n: u64) -> JsonValue {
    JsonValue::Number(JsonNumber {
        as_u64: Some(n),
        as_i64: Some(n as i64),
        float_text: n.to_string(),
        float_bits: Some((n as f64).to_bits()),
    })
}

fn profile() -> Vec<(String, JsonValue)> {
    vec![
        ("firstName".to_string(), s("Ada")),
        ("lastName".to_string(), s("Lovelace")),
        ("email".to_string(), s("ada@example.com")),
        ("yearsExperience".to_string(), number(7)),
        ("authorized".to_string(), JsonValue::Bool(true)),
        ("sponsorship".to_string(), JsonValue::Bool(false)),
        ("country".to_string(), s("United Kingdom")),
    ]
}

fn field(label: Option<&str>, name: Option<&str>) -> FormField {
    FormField {
        tivana_id: Some("e1".to_string()),
        tag_name: "input".to_string(),
        input_type: Some("text".to_string()),
        name: name.map(|n| n.to_string()),
        id: None,
        value: None,
        required: false,
        disabled: false,
        label: label.map(|l| l.to_string()),
        options: None,
        checked: None,
        group_name: None,
        pattern: None,
        min: None,
        max: None,
        visible: true,
    }
}

fn option(value: &str, text: &str) -> SelectOption {
    SelectOption { value: value.to_string(), text: text.to_string(), selected: false }
}

#[test]
fn direct_key_overlap_wins_first() {
    let f = field(Some("Email"), None);
    let m = match_label_to_profile_key("email", &profile(), &f).unwrap();
    assert_eq!(m, ("email".to_string(), "ada@example.com".to_string()));
    let m2 = match_label_to_profile_key("your lastname please", &profile(), &f).unwrap();
    assert_eq!(m2, ("lastName".to_string(), "Lovelace".to_string()));
}

#[test]
fn mapping_table_and_value_texts() {
    let f = field(Some("Given name"), None);
    assert_eq!(match_label_to_profile_key("given name", &profile(), &f).unwrap(),
        ("firstName".to_string(), "Ada".to_string()));
    assert_eq!(match_label_to_profile_key("years of experience", &profile(), &f).unwrap(),
        ("yearsExperience".to_string(), "7".to_string()));
    assert_eq!(match_label_to_profile_key("legally authorized", &profile(), &f).unwrap(),
        ("authorized".to_string(), "Yes".to_string()));
    assert_eq!(match_label_to_profile_key("do you need sponsorship?", &profile(), &f).unwrap(),
        ("sponsorship".to_string(), "No".to_string()));
    assert_eq!(match_label_to_profile_key("nationality", &profile(), &f).unwrap(),
        ("country".to_string(), "United Kingdom".to_string()));
}

#[test]
fn name_or_id_is_the_last_resort() {
    let f = field(Some("Contact"), Some("EMAIL_addr"));
    assert_eq!(match_label_to_profile_key("contact", &profile(), &f).unwrap(),
        ("email".to_string(), "ada@example.com".to_string()));
    let g = field(Some("Favourite colour"), None);
    assert!(match_label_to_profile_key("favourite colour", &profile(), &g).is_none());
}

#[test]
fn field_plans() {
    let mut hidden = field(Some("Email"), None);
    hidden.visible = false;
    assert!(matches!(plan_field(&hidden, &profile(), false), FieldPlan::Pass));
    let mut disabled = field(Some("Email"), None);
    disabled.disabled = true;
    assert!(matches!(plan_field(&disabled, &profile(), false), FieldPlan::Pass));
    let mut no_id = field(Some("Email"), None);
    no_id.tivana_id = None;
    match plan_field(&no_id, &profile(), false) {
        FieldPlan::Skip(SmartFillSkip { tivana_id, label, reason }) => {
            assert!(tivana_id.is_none());
            assert_eq!(label, Some("Email".to_string()));
            assert_eq!(reason, "No tivana ID");
        }
        _ => panic!("expected skip"),
    }
    let captcha = field(None, Some("g-RECAPTCHA-response"));
    assert!(matches!(plan_field(&captcha, &profile(), true), FieldPlan::Pass));
    let unknown = field(Some("Pet name"), None);
    match plan_field(&unknown, &profile(), false) {
        FieldPlan::Skip(SmartFillSkip { tivana_id, label, reason }) => {
            assert_eq!(tivana_id, Some("e1".to_string()));
            assert_eq!(label, Some("Pet name".to_string()));
            assert_eq!(reason, "No matching profile key");
        }
        _ => panic!("expected skip"),
    }
    match plan_field(&field(Some("First Name"), None), &profile(), false) {
        FieldPlan::Fill { fill, action } => {
            assert_eq!(fill.tivana_id, "e1");
            assert_eq!(fill.label, "First Name");
            assert_eq!(fill.profile_key, "firstName");
            assert_eq!(fill.value, "Ada");
            assert!(matches!(action, FillAction::Text));
        }
        _ => panic!("expected fill"),
    }
}

#[test]
fn checkbox_radio_and_select_actions() {
    let mut cb = field(Some("Authorized to work"), None);
    cb.input_type = Some("checkbox".to_string());
    cb.checked = Some(false);
    match plan_field(&cb, &profile(), false) {
        FieldPlan::Fill { action: FillAction::Checkbox { toggle }, .. } => assert!(toggle),
        _ => panic!("expected checkbox"),
    }
    cb.checked = Some(true);
    match plan_field(&cb, &profile(), false) {
        FieldPlan::Fill { action: FillAction::Checkbox { toggle }, .. } => assert!(!toggle),
        _ => panic!("expected checkbox"),
    }
    let mut radio = field(Some("Visa sponsorship"), None);
    radio.input_type = Some("radio".to_string());
    match plan_field(&radio, &profile(), false) {
        FieldPlan::Fill { action: FillAction::Radio { affirmative, value_lower }, .. } => {
            assert!(!affirmative);
            assert_eq!(value_lower, "no");
        }
        _ => panic!("expected radio"),
    }
    let mut select = field(Some("Country"), None);
    select.tag_name = "select".to_string();
    select.options = Some(vec![option("us", "United States"), option("uk", "United Kingdom")]);
    match plan_field(&select, &profile(), false) {
        FieldPlan::Fill { action: FillAction::Select { option_value }, .. } => {
            assert_eq!(option_value, Some("uk".to_string()))
        }
        _ => panic!("expected select"),
    }
}

#[test]
fn select_option_choice() {
    let options = Some(vec![option("CA", "Canada"), option("gb", "Great Britain"), option("fr", "France")]);
    assert_eq!(choose_select_option(&options, "great britain"), Some("gb".to_string()));
    assert_eq!(choose_select_option(&options, "ca"), Some("CA".to_string()));
    assert_eq!(choose_select_option(&options, "Fran"), Some("fr".to_string()));
    assert_eq!(choose_select_option(&options, "Germany"), None);
    assert_eq!(choose_select_option(&None, "Canada"), None);
    assert!(matches!(no_matching_option("Germany"), TivanaError::Browser(ref m) if m == "No matching option for value: Germany"));
}

#[test]
fn yes_answers_and_radio_outcomes() {
    for yes in ["true", "yes", "1", "y"] {
        assert!(is_affirmative(yes));
    }
    for no in ["no", "false", "0", "Yes"] {
        assert!(!is_affirmative(no));
    }
    assert!(radio_outcome("clicked", "e2").is_ok());
    assert!(radio_outcome("no_match", "e2").is_ok());
    assert!(matches!(radio_outcome("not_found", "e2"), Err(TivanaError::Browser(ref m)) if m == "Radio element not found: e2"));
}

#[test]
fn smart_fill_tally() {
    let mut r = SmartFillResult::begin(3);
    match plan_field(&field(Some("Email"), None), &profile(), false) {
        FieldPlan::Fill { fill, .. } => r.record_fill(fill, Ok(())),
        _ => panic!("expected fill"),
    }
    match plan_field(&field(Some("Last name"), None), &profile(), false) {
        FieldPlan::Fill { fill, .. } => r.record_fill(fill, Err(TivanaError::Browser("Element not found: e1".to_string()))),
        _ => panic!("expected fill"),
    }
    match plan_field(&field(Some("Pet"), None), &profile(), false) {
        FieldPlan::Skip(skip) => r.record_skip(skip),
        _ => panic!("expected skip"),
    }
    r.finish(120);
    assert_eq!(r.filled_count, 1);
    assert_eq!(r.fields_filled[0].profile_key, "email");
    assert_eq!(r.fields_skipped.len(), 1);
    assert_eq!(r.errors.len(), 1);
    assert_eq!(r.errors[0].field, "e1");
    assert_eq!(r.errors[0].error, "Browser error: Element not found: e1");
    assert_eq!(r.duration_ms, 120);
    assert_eq!(r.total_fields, 3);
    let failed = SmartFillResult::form_fields_unavailable(&TivanaError::Browser("closed".to_string()), 3);
    assert_eq!(failed.errors[0].field, "*");
    assert_eq!(failed.errors[0].error, "Failed to get form fields: Browser error: closed");
    assert_eq!(failed.total_fields, 0);
}
