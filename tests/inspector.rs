use little_poem::inspector::StringInspector;
use little_poem::text::{push_decimal, push_signed_decimal};

#[test]
fn empty_text_answers_false_everywhere() {
    let s = StringInspector::from_str("");
    assert!(s.is_empty());
    assert_eq!(s.count_graphemes(), 0);
    assert!(!s.has_ascii_uppercase());
    assert!(!s.has_ascii_lowercase());
    assert!(!s.has_ascii_uppercase_and_lowercase());
    assert!(!s.has_ascii_digit());
    assert!(!s.has_special_chars());
}

#[test]
fn character_classes() {
    let s = StringInspector::from_str("aB3");
    assert!(!s.is_empty());
    assert!(s.has_ascii_uppercase());
    assert!(s.has_ascii_lowercase());
    assert!(s.has_ascii_uppercase_and_lowercase());
    assert!(s.has_ascii_digit());
    assert!(!s.has_special_chars());
}

#[test]
fn whitespace_is_not_special_but_other_symbols_are() {
    assert!(!StringInspector::from_str(" \t\r\n").has_special_chars());
    assert!(StringInspector::from_str("a-b").has_special_chars());
    assert!(StringInspector::from_str("caf\u{e9}").has_special_chars());
    assert!(!StringInspector::from_str("\u{c9}").has_ascii_uppercase());
}

#[test]
fn combining_accent_is_one_grapheme() {
    let s = StringInspector::from_str("e\u{301}");
    assert_eq!(s.as_str().chars().count(), 2);
    assert_eq!(s.count_graphemes(), 1);
}

#[test]
fn rainbow_flag_is_one_grapheme() {
    let s = StringInspector::from_str("\u{1F3F3}\u{FE0F}\u{200D}\u{1F308}");
    assert_eq!(s.count_graphemes(), 1);
}

#[test]
fn skin_tone_emoji_is_one_grapheme() {
    let s = StringInspector::from_str("\u{1F44B}\u{1F3FD}");
    assert_eq!(s.count_graphemes(), 1);
}

#[test]
fn ascii_text_counts_each_character() {
    assert_eq!(StringInspector::new("Lion".to_string()).count_graphemes(), 4);
}

#[test]
fn decimal_notation() {
    let mut s = String::new();
    push_decimal(&mut s, 0);
    assert_eq!(s, "0");
    let mut s = "n=".to_string();
    push_decimal(&mut s, 1234567890);
    assert_eq!(s, "n=1234567890");
    let mut s = String::new();
    push_signed_decimal(&mut s, -42);
    assert_eq!(s, "-42");
    let mut s = String::new();
    push_signed_decimal(&mut s, 7);
    assert_eq!(s, "7");
}
