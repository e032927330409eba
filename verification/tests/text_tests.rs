use vellum_fe_tabbed::text::{
    decimal_string, parse_u16, parse_usize, split_three, starts_with, str_equal, strip_prefix,
    trim_owned,
};

#[test]
fn trim_removes_surrounding_whitespace() {
    assert_eq!(trim_owned("  hello world \t\n"), "hello world");
    assert_eq!(trim_owned("\u{3000}x\u{a0}"), "x");
    assert_eq!(trim_owned("   "), "");
    assert_eq!(trim_owned(""), "");
    assert_eq!(trim_owned("a b"), "a b");
}

#[test]
fn parse_usize_follows_str_parse() {
    assert_eq!(parse_usize("42"), Some(42));
    assert_eq!(parse_usize("+7"), Some(7));
    assert_eq!(parse_usize("007"), Some(7));
    assert_eq!(parse_usize(""), None);
    assert_eq!(parse_usize("+"), None);
    assert_eq!(parse_usize("-1"), None);
    assert_eq!(parse_usize(" 1"), None);
    assert_eq!(parse_usize("1x"), None);
    assert_eq!(parse_usize("18446744073709551615"), "18446744073709551615".parse::<usize>().ok());
    assert_eq!(parse_usize("18446744073709551616"), None);
}

#[test]
fn parse_u16_bounds() {
    assert_eq!(parse_u16("65535"), Some(65535));
    assert_eq!(parse_u16("65536"), None);
    assert_eq!(parse_u16("8000"), Some(8000));
    assert_eq!(parse_u16("0"), Some(0));
}

#[test]
fn decimal_string_prints_numbers() {
    assert_eq!(decimal_string(0), "0");
    assert_eq!(decimal_string(9), "9");
    assert_eq!(decimal_string(1234), "1234");
    assert_eq!(decimal_string(u64::MAX), u64::MAX.to_string());
}

#[test]
fn prefixes_and_equality() {
    assert!(starts_with("//session:next", "//session:"));
    assert!(!starts_with("//sess", "//session:"));
    assert_eq!(strip_prefix("abc", "ab"), Some("c".to_string()));
    assert_eq!(strip_prefix("abc", "b"), None);
    assert!(str_equal("é", "é"));
    assert!(!str_equal("a", "ab"));
}

#[test]
fn split_three_cuts_at_first_two_colons() {
    assert_eq!(
        split_three("acct:GS3:Brashka", ':'),
        Some(("acct".to_string(), "GS3".to_string(), "Brashka".to_string()))
    );
    assert_eq!(
        split_three("a:b:c:d", ':'),
        Some(("a".to_string(), "b".to_string(), "c:d".to_string()))
    );
    assert_eq!(split_three("a:b", ':'), None);
    assert_eq!(split_three("ab", ':'), None);
    assert_eq!(
        split_three("::", ':'),
        Some((String::new(), String::new(), String::new()))
    );
}
