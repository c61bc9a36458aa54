use rust_plurk::text::{bytes_eq, bytes_le, decimal_text, starts_with, str_eq};

#[test]
fn decimal_text_writes_numbers() {
    assert_eq!(decimal_text(0), "0");
    assert_eq!(decimal_text(7), "7");
    assert_eq!(decimal_text(10), "10");
    assert_eq!(decimal_text(1191242096), "1191242096");
    assert_eq!(decimal_text(u64::MAX), "18446744073709551615");
}

#[test]
fn bytes_le_is_lexicographic() {
    assert!(bytes_le(b"", b""));
    assert!(bytes_le(b"", b"a"));
    assert!(!bytes_le(b"a", b""));
    assert!(bytes_le(b"a", b"ab"));
    assert!(!bytes_le(b"ab", b"a"));
    assert!(bytes_le(b"ab", b"b"));
    assert!(bytes_le(b"Z", b"a"));
    assert!(bytes_le(&[0x7f], &[0x80]));
    assert!(!bytes_le(&[0xff], &[0x00, 0x01]));
}

#[test]
fn bytes_eq_compares_all_bytes() {
    assert!(bytes_eq(b"", b""));
    assert!(bytes_eq(b"abc", b"abc"));
    assert!(!bytes_eq(b"abc", b"abd"));
    assert!(!bytes_eq(b"abc", b"ab"));
}

#[test]
fn str_eq_compares_texts() {
    assert!(str_eq("oauth_token", "oauth_token"));
    assert!(!str_eq("oauth_token", "oauth_token_secret"));
    assert!(str_eq("é", "é"));
    assert!(!str_eq("e", "é"));
}

#[test]
fn starts_with_checks_the_prefix() {
    assert!(starts_with("oauth_token", "oauth_"));
    assert!(starts_with("oauth_", "oauth_"));
    assert!(!starts_with("oauth", "oauth_"));
    assert!(!starts_with("xoauth_", "oauth_"));
    assert!(starts_with("anything", ""));
    assert!(starts_with("éa", "é"));
    assert!(!starts_with("ea", "é"));
}
