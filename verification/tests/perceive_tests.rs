use tivana::json::JsonValue;
use tivana::perceive::{
    parse_mutation_event, screenshot_result, MutationEvent, PerceptionError, ScreenshotFormat,
    TextContent, ViewportDimensions,
};
use tivana::error::TivanaError;

fn s(x: &str) -> JsonValue {
    JsonValue::Str(x.to_string())
}

fn obj(entries: Vec<(&str, JsonValue)>) -> JsonValue {
    JsonValue::Object(entries.into_iter().map(|(k, v)| (k.to_string(), v)).collect())
}

#[test]
fn test_parse_mutation_event_added() {
    let json = obj(vec![("type", s("added")), ("elementId", s("e10")), ("parentId", s("e1"))]);

    let event = parse_mutation_event(&json);
    assert!(event.is_some());
    match event.unwrap() {
        MutationEvent::Added { element_id, parent_id } => {
            assert_eq!(element_id, "e10");
            assert_eq!(parent_id, Some("e1".to_string()));
        }
        _ => panic!("Expected Added event"),
    }
}

#[test]
fn test_parse_mutation_event_removed() {
    let json = obj(vec![("type", s("removed")), ("elementId", s("e5"))]);

    let event = parse_mutation_event(&json);
    assert!(event.is_some());
    match event.unwrap() {
        MutationEvent::Removed { element_id } => {
            assert_eq!(element_id, "e5");
        }
        _ => panic!("Expected Removed event"),
    }
}

#[test]
fn test_parse_mutation_event_changed() {
    let json = obj(vec![
        ("type", s("changed")),
        ("elementId", s("e3")),
        ("attribute", s("disabled")),
        ("oldValue", JsonValue::Null),
        ("newValue", s("true")),
    ]);

    let event = parse_mutation_event(&json);
    assert!(event.is_some());
    match event.unwrap() {
        MutationEvent::Changed { element_id, attribute, old_value, new_value } => {
            assert_eq!(element_id, "e3");
            assert_eq!(attribute, "disabled");
            assert!(old_value.is_none());
            assert_eq!(new_value, Some("true".to_string()));
        }
        _ => panic!("Expected Changed event"),
    }
}

#[test]
fn test_parse_mutation_event_text_changed() {
    let json = obj(vec![("type", s("textChanged")), ("elementId", s("e7")), ("text", s("Updated content"))]);

    let event = parse_mutation_event(&json);
    assert!(event.is_some());
    match event.unwrap() {
        MutationEvent::TextChanged { element_id, text } => {
            assert_eq!(element_id, "e7");
            assert_eq!(text, "Updated content");
        }
        _ => panic!("Expected TextChanged event"),
    }
}

#[test]
fn test_parse_mutation_event_invalid() {
    let json = obj(vec![("type", s("invalid")), ("elementId", s("e1"))]);

    let event = parse_mutation_event(&json);
    assert!(event.is_none());
}

#[test]
fn test_perception_error_display() {
    let error = PerceptionError("Test error message".to_string());
    assert_eq!(error.to_string(), "Test error message");
}

#[test]
fn mutation_records_missing_members_are_rejected() {
    assert!(parse_mutation_event(&obj(vec![("type", s("added"))])).is_none());
    assert!(parse_mutation_event(&obj(vec![("type", s("changed")), ("elementId", s("e1"))])).is_none());
    assert!(parse_mutation_event(&obj(vec![("type", s("textChanged")), ("elementId", s("e1"))])).is_none());
    assert!(parse_mutation_event(&obj(vec![("elementId", s("e1"))])).is_none());
    assert!(parse_mutation_event(&s("added")).is_none());
    match parse_mutation_event(&obj(vec![("type", s("added")), ("elementId", s("e2"))])) {
        Some(MutationEvent::Added { element_id, parent_id }) => {
            assert_eq!(element_id, "e2");
            assert!(parent_id.is_none());
        }
        _ => panic!("Expected Added event"),
    }
}

#[test]
fn perception_error_from_internal_error() {
    let e = PerceptionError::from_tivana_error(&TivanaError::Browser("gone".to_string()));
    assert_eq!(e.to_string(), "Browser error: gone");
}

#[test]
fn text_content_counts_words_and_chars() {
    let t = TextContent::from_text("  Hello   wide\tworld\n".to_string());
    assert_eq!(t.word_count, 3);
    assert_eq!(t.char_count, 21);
    let empty = TextContent::from_text(String::new());
    assert_eq!(empty.word_count, 0);
    assert_eq!(empty.char_count, 0);
    let unicode = TextContent::from_text("héllo wörld".to_string());
    assert_eq!(unicode.word_count, 2);
    assert_eq!(unicode.char_count, 11);
}

#[test]
fn screenshot_result_encodes_base64() {
    let bytes = b"Man".to_vec();
    let r = screenshot_result(&bytes, ScreenshotFormat::Png, Some(ViewportDimensions { width: 800, height: 600 }));
    assert_eq!(r.data, "TWFu");
    assert_eq!(r.format, "png");
    assert_eq!(r.width, 800);
    assert_eq!(r.height, 600);
    let r2 = screenshot_result(&b"Ma".to_vec(), ScreenshotFormat::Jpeg, None);
    assert_eq!(r2.data, "TWE=");
    assert_eq!(r2.format, "jpeg");
    assert_eq!(r2.width, 0);
    assert_eq!(r2.height, 0);
    let r3 = screenshot_result(&vec![0xfb, 0xff], ScreenshotFormat::Png, None);
    assert_eq!(r3.data, "+/8=");
}

#[test]
fn screenshot_format_default_is_png() {
    assert_eq!(ScreenshotFormat::default(), ScreenshotFormat::Png);
    assert_eq!(ScreenshotFormat::Jpeg.name(), "jpeg");
}
