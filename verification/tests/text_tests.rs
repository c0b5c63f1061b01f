use tivana::json::{member, JsonValue};
use tivana::text::{
    chars_of, count_words, join, parse_u16, str_contains, str_eq, str_starts_with, string_of,
    u64_to_string,
};

#[test]
fn decimal_text_of_numbers() {
    assert_eq!(u64_to_string(0), "0");
    assert_eq!(u64_to_string(9876), "9876");
    assert_eq!(u64_to_string(u64::MAX), "18446744073709551615");
}

#[test]
fn port_text_parses_like_std() {
    assert_eq!(parse_u16("8080"), Some(8080));
    assert_eq!(parse_u16("+42"), Some(42));
    assert_eq!(parse_u16("65535"), Some(65535));
    assert_eq!(parse_u16("65536"), None);
    assert_eq!(parse_u16(""), None);
    assert_eq!(parse_u16("12a"), None);
    assert_eq!(parse_u16("-1"), None);
    for s in ["0", "1", "443", "9222", "00080"] {
        assert_eq!(parse_u16(s), s.parse::<u16>().ok());
    }
}

#[test]
fn words_are_counted_by_whitespace() {
    assert_eq!(count_words(""), 0);
    assert_eq!(count_words("  hello   world \n"), 2);
    assert_eq!(count_words("one"), 1);
}

#[test]
fn text_search_and_join() {
    assert!(str_contains("Please verify you are human", "verify"));
    assert!(!str_contains("abc", "abcd"));
    assert!(str_contains("abc", ""));
    assert!(str_starts_with("ws://127.0.0.1", "ws://"));
    assert!(!str_starts_with("http", "https"));
    assert!(str_eq("a", "a"));
    assert!(!str_eq("a", "b"));
    let parts = vec!["a".to_string(), "b".to_string(), "c".to_string()];
    assert_eq!(join(&parts, ", "), "a, b, c");
    assert_eq!(join(&Vec::new(), ", "), "");
    assert_eq!(string_of(&chars_of("héllo")), "héllo");
}

#[test]
fn json_lookup_takes_first_member() {
    let obj = JsonValue::Object(vec![
        member("a", JsonValue::text("first")),
        member("a", JsonValue::text("second")),
        member("n", JsonValue::unsigned(7)),
        member("b", JsonValue::Bool(true)),
    ]);
    assert_eq!(obj.get_str("a"), Some("first".to_string()));
    assert_eq!(obj.get_u64("n"), Some(7));
    assert_eq!(obj.get_i64("n"), Some(7));
    assert_eq!(obj.get_bool("b"), Some(true));
    assert_eq!(obj.get_str("b"), None);
    assert!(obj.has("n"));
    assert!(!obj.has("zz"));
    match obj.into_member("a") {
        Some(JsonValue::Str(s)) => assert_eq!(s, "first"),
        other => panic!("unexpected {:?}", other),
    }
}

#[test]
fn json_numbers_carry_decimal_text() {
    match JsonValue::unsigned(u64::MAX) {
        JsonValue::Number(n) => {
            assert_eq!(n.as_u64, Some(u64::MAX));
            assert_eq!(n.as_i64, None);
            assert_eq!(n.float_text, "18446744073709551615");
        }
        other => panic!("unexpected {:?}", other),
    }
}

#[test]
fn port_numbers_read_back_from_their_text() {
    for p in [0u16, 1, 80, 443, 9222, 9876, 65535] {
        assert_eq!(parse_u16(&u64_to_string(p as u64)), Some(p));
    }
}
