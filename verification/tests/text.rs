use codex_plus_core::text::{contains_text, decimal_text, same_text, starts_with_text, two_digit_text};

#[test]
fn decimal_numbers() {
    assert_eq!(decimal_text(0), "0");
    assert_eq!(decimal_text(7), "7");
    assert_eq!(decimal_text(10), "10");
    assert_eq!(decimal_text(9335), "9335");
    assert_eq!(decimal_text(u64::MAX), u64::MAX.to_string());
}

#[test]
fn two_digit_numbers() {
    assert_eq!(two_digit_text(0), "00");
    assert_eq!(two_digit_text(5), "05");
    assert_eq!(two_digit_text(59), "59");
}

#[test]
fn searching_text() {
    assert!(contains_text("abc", ""));
    assert!(contains_text("主题已激活", "激活"));
    assert!(!contains_text("ab", "abc"));
    assert!(starts_with_text("HTTP/1.1 200", "HTTP"));
    assert!(!starts_with_text("HT", "HTTP"));
    assert!(same_text("windows", "windows"));
    assert!(!same_text("windows", "windows "));
}
