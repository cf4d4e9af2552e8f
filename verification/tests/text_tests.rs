use superhero_universe::text::{
    decimal_text, eq_ignore_ascii_case, parse_i32, parse_i64, signed_decimal_text, split_char, split_whitespace, trim,
};

#[test]
fn split_whitespace_drops_empty_runs() {
    let words = split_whitespace("  heat  >=\t40 \n");
    assert_eq!(words, vec!["heat".to_string(), ">=".to_string(), "40".to_string()]);
    assert!(split_whitespace("   ").is_empty());
}

#[test]
fn split_char_keeps_empty_pieces() {
    assert_eq!(split_char("a::b:", ':'), vec!["a".to_string(), "".to_string(), "b".to_string(), "".to_string()]);
    assert_eq!(split_char("", ':'), vec!["".to_string()]);
}

#[test]
fn parse_i32_follows_rust_syntax() {
    assert_eq!(parse_i32("42"), Some(42));
    assert_eq!(parse_i32("+7"), Some(7));
    assert_eq!(parse_i32("-0"), Some(0));
    assert_eq!(parse_i32("-2147483648"), Some(i32::MIN));
    assert_eq!(parse_i32("2147483647"), Some(i32::MAX));
    assert_eq!(parse_i32("2147483648"), None);
    assert_eq!(parse_i32("+"), None);
    assert_eq!(parse_i32(""), None);
    assert_eq!(parse_i32(" 4"), None);
    assert_eq!(parse_i32("4a"), None);
}

#[test]
fn parse_i64_follows_rust_syntax() {
    assert_eq!(parse_i64("-9223372036854775808"), Some(i64::MIN));
    assert_eq!(parse_i64("9223372036854775808"), None);
    assert_eq!(parse_i64("120"), Some(120));
}

#[test]
fn signed_decimal_shows_the_sign() {
    assert_eq!(signed_decimal_text(5), "+5");
    assert_eq!(signed_decimal_text(0), "+0");
    assert_eq!(signed_decimal_text(-12), "-12");
    assert_eq!(signed_decimal_text(i64::MIN), "-9223372036854775808");
}

#[test]
fn decimal_and_trim_and_case() {
    assert_eq!(decimal_text(1907), "1907");
    assert_eq!(decimal_text(0), "0");
    assert_eq!(trim("  flag.x \t"), "flag.x");
    assert!(eq_ignore_ascii_case("CRITICAL", "critical"));
    assert!(!eq_ignore_ascii_case("max", "maxi"));
}
