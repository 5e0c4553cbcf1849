use format_policy::options::SourceType;
use format_policy::quotes::{NumericKey, StringKey, can_quote_numeric_literal,
    string_literal_key_requires_quotes};

fn reprints(text: &str) -> bool {
    match text.parse::<f64>() {
        Ok(parsed) => parsed.to_string() == text,
        Err(_) => false,
    }
}

fn numeric(value: f64, raw: &str) -> NumericKey {
    NumericKey { normalized: value.to_string(), raw: Some(raw.to_string()) }
}

fn string_key(value: &str, raw: Option<&str>) -> StringKey {
    StringKey {
        value: value.to_string(),
        raw: raw.map(|r| r.to_string()),
        reprints_exactly: reprints(value),
    }
}

#[test]
fn numeric_integer_is_quotable_as_itself() {
    let r = can_quote_numeric_literal(&numeric(1.0, "1"), SourceType::JavaScript);
    assert_eq!(r, Some("1".to_string()));
}

#[test]
fn numeric_leading_dot_quotes_normalized() {
    let r = can_quote_numeric_literal(&numeric(0.5, ".5"), SourceType::JavaScript);
    assert_eq!(r, Some("0.5".to_string()));
}

#[test]
fn numeric_trailing_dot_quotes_normalized() {
    let r = can_quote_numeric_literal(&numeric(5.0, "5."), SourceType::JavaScript);
    assert_eq!(r, Some("5".to_string()));
}

#[test]
fn numeric_mismatched_form_never_quotes() {
    assert_eq!(can_quote_numeric_literal(&numeric(1.0, "1.0"), SourceType::JavaScript), None);
    assert_eq!(can_quote_numeric_literal(&numeric(100.0, "1e2"), SourceType::JavaScript), None);
    assert_eq!(can_quote_numeric_literal(&numeric(2.0, "0b10"), SourceType::JavaScript), None);
}

#[test]
fn numeric_never_quotes_in_typescript() {
    assert_eq!(can_quote_numeric_literal(&numeric(1.0, "1"), SourceType::TypeScript), None);
}

#[test]
fn numeric_without_raw_quotes_normalized() {
    let num = NumericKey { normalized: 7.0f64.to_string(), raw: None };
    assert_eq!(can_quote_numeric_literal(&num, SourceType::JavaScript), Some("7".to_string()));
}

#[test]
fn string_key_identifier_needs_no_quotes() {
    let k = string_key("abc", Some("\"abc\""));
    assert!(!string_literal_key_requires_quotes(&k, SourceType::JavaScript));
}

#[test]
fn string_key_escape_forces_quotes() {
    // The decoded value is a plain identifier, but the source spelled it
    // with an escape: quotes are required regardless.
    let k = string_key("a", Some("\"\\u0061\""));
    assert!(string_literal_key_requires_quotes(&k, SourceType::JavaScript));
}

#[test]
fn string_key_non_identifier_needs_quotes() {
    let k = string_key("a b", Some("\"a b\""));
    assert!(string_literal_key_requires_quotes(&k, SourceType::JavaScript));
}

#[test]
fn string_key_round_trip_number_unquoted_in_js() {
    let k = string_key("123", Some("\"123\""));
    assert!(!string_literal_key_requires_quotes(&k, SourceType::JavaScript));
    // The same key in a type position keeps its quotes.
    assert!(string_literal_key_requires_quotes(&k, SourceType::TypeScript));
}

#[test]
fn string_key_octal_looking_number_keeps_quotes() {
    // "0123" re-prints as "123", so the float round trip fails and the key
    // must stay quoted.
    let k = string_key("0123", Some("\"0123\""));
    assert!(string_literal_key_requires_quotes(&k, SourceType::JavaScript));
}

#[test]
fn string_key_without_raw_uses_value_alone() {
    let k = string_key("while", None);
    // `while` is a valid identifier name for property positions.
    assert!(!string_literal_key_requires_quotes(&k, SourceType::JavaScript));
}
