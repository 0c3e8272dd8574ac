use js_ts_code_generator::data::identifer::{escape_char, from_string, is_safe_property_name};

#[test]
fn test_from_string() {
    assert_eq!(from_string("a").get(), String::from("a"));
    assert_eq!(from_string("this").get(), String::from("this_"));
}

#[test]
fn test_escape_char() {
    assert_eq!(escape_char('a'), String::from("$61"));
    assert_eq!(escape_char('あ'), String::from("$3042"));
}

#[test]
fn test_from_string_empty() {
    assert_eq!(from_string("").get(), String::from("$00"));
}

#[test]
fn test_from_string_escapes_leading_digit() {
    assert_eq!(from_string("0name").get(), String::from("$30name"));
}

#[test]
fn test_from_string_escapes_non_ascii() {
    assert_eq!(from_string("あ").get(), String::from("$3042"));
    assert_eq!(from_string("aあb").get(), String::from("a$3042b"));
}

#[test]
fn test_from_string_reserved_words() {
    assert_eq!(from_string("if").get(), String::from("if_"));
    assert_eq!(from_string("undefined").get(), String::from("undefined_"));
    assert_eq!(from_string("NaN").get(), String::from("NaN_"));
}

#[test]
fn test_from_string_keeps_safe_text() {
    assert_eq!(from_string("$valid_Name9").get(), String::from("$valid_Name9"));
}

#[test]
fn test_is_safe_property_name() {
    assert!(is_safe_property_name("await"));
    assert!(is_safe_property_name("a1"));
    assert!(is_safe_property_name("_x"));
    assert!(is_safe_property_name("$"));
    assert!(!is_safe_property_name(""));
    assert!(!is_safe_property_name("1a"));
    assert!(!is_safe_property_name("a-b"));
    assert!(!is_safe_property_name("content-type"));
    assert!(!is_safe_property_name("あ"));
}
