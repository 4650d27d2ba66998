use meshops::text::{
    chars_of, concat_str, eq_ignore_ascii_case, is_whitespace, str_eq, string_from_chars,
    to_ascii_lowercase, to_ascii_uppercase, trimmed, u64_to_decimal,
};

#[test]
fn decimal_notation() {
    assert_eq!(u64_to_decimal(0), "0");
    assert_eq!(u64_to_decimal(7), "7");
    assert_eq!(u64_to_decimal(10), "10");
    assert_eq!(u64_to_decimal(120), "120");
    assert_eq!(u64_to_decimal(u64::MAX), "18446744073709551615");
}

#[test]
fn ascii_case_conversion_leaves_other_characters() {
    assert_eq!(to_ascii_uppercase("aAaa-é1"), "AAAA-é1");
    assert_eq!(to_ascii_lowercase("CloudFlare Ä"), "cloudflare Ä");
    assert!(eq_ignore_ascii_case("CLOUDFLARE", "cloudflare"));
    assert!(!eq_ignore_ascii_case("cloudflar", "cloudflare"));
    assert!(!eq_ignore_ascii_case("Ä", "ä"));
}

#[test]
fn trimming_removes_unicode_white_space() {
    assert_eq!(trimmed("  203.0.113.7\n"), "203.0.113.7");
    assert_eq!(trimmed("\u{3000}\t2001:db8::1\u{85}"), "2001:db8::1");
    assert_eq!(trimmed(" \n\t "), "");
    assert_eq!(trimmed("a b"), "a b");
    assert!(is_whitespace('\u{2009}'));
    assert!(!is_whitespace('x'));
}

#[test]
fn string_helpers() {
    assert_eq!(concat_str("ab", "cd"), "abcd");
    assert!(str_eq("x", "x"));
    assert!(!str_eq("x", "xy"));
    let v = chars_of("héllo");
    assert_eq!(v, vec!['h', 'é', 'l', 'l', 'o']);
    assert_eq!(string_from_chars(&v, 1, 4), "éll");
}
