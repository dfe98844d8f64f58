//! Formatting helpers: token counts, durations, currency, parsing, paths.

use statusline::text::{
    basename, hex_prefix, join_parts, parse_u64, split_char, str_eq, trim, u128_to_grouped_string,
    u128_to_string, u64_to_string,
};

#[test]
fn decimal_rendering() {
    assert_eq!(u64_to_string(0), "0");
    assert_eq!(u64_to_string(7), "7");
    assert_eq!(u64_to_string(10), "10");
    assert_eq!(u64_to_string(18_446_744_073_709_551_615), "18446744073709551615");
    assert_eq!(u128_to_string(123_456_789), "123456789");
}

#[test]
fn grouped_rendering() {
    assert_eq!(u128_to_grouped_string(999), "999");
    assert_eq!(u128_to_grouped_string(1_000), "1,000");
    assert_eq!(u128_to_grouped_string(1_234_567), "1,234,567");
    assert_eq!(u128_to_grouped_string(1_000_000), "1,000,000");
}

#[test]
fn parse_u64_accepts_digits() {
    assert_eq!(parse_u64("0"), Some(0));
    assert_eq!(parse_u64("42"), Some(42));
    assert_eq!(parse_u64("18446744073709551615"), Some(u64::MAX));
}

#[test]
fn parse_u64_rejects_junk() {
    assert_eq!(parse_u64(""), None);
    assert_eq!(parse_u64("12a"), None);
    assert_eq!(parse_u64("-3"), None);
    assert_eq!(parse_u64("18446744073709551616"), None);
}

#[test]
fn trim_strips_both_ends() {
    assert_eq!(trim("  main\n"), "main");
    assert_eq!(trim("\t\r\n "), "");
    assert_eq!(trim("inner space kept"), "inner space kept");
    assert_eq!(trim(""), "");
}

#[test]
fn str_eq_compares_characters() {
    assert!(str_eq("abc", "abc"));
    assert!(!str_eq("abc", "abd"));
    assert!(!str_eq("abc", "ab"));
    assert!(str_eq("", ""));
}

#[test]
fn split_and_join_round() {
    let parts = split_char("a/b//c", '/');
    let views: Vec<&str> = parts.iter().map(|s| s.as_str()).collect();
    assert_eq!(views, vec!["a", "b", "", "c"]);
    assert_eq!(join_parts(&parts, "/"), "a/b//c");
    let lone = split_char("", '/');
    assert_eq!(lone.len(), 1);
    assert_eq!(lone[0], "");
}

#[test]
fn basename_takes_last_real_segment() {
    assert_eq!(basename("/home/user/proj"), Some("proj".to_string()));
    assert_eq!(basename("a/b/"), Some("b".to_string()));
    assert_eq!(basename("/"), None);
    assert_eq!(basename("."), None);
    assert_eq!(basename("a/.."), None);
    assert_eq!(basename("plain"), Some("plain".to_string()));
}

#[test]
fn hex_prefix_encodes_leading_bytes() {
    assert_eq!(hex_prefix("abc", 16), "616263");
    assert_eq!(hex_prefix("abc", 2), "6162");
    assert_eq!(hex_prefix("", 8), "");
}
