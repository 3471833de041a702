use unified_panel::text::{decimal, nat_decimal, parse_i64, parse_u16, text_is};

#[test]
fn decimal_of_small_and_large_numbers() {
    assert_eq!(decimal(0), "0");
    assert_eq!(decimal(7), "7");
    assert_eq!(decimal(10), "10");
    assert_eq!(decimal(500), "500");
    assert_eq!(decimal(-1), "-1");
    assert_eq!(decimal(-42), "-42");
    assert_eq!(decimal(i64::MAX), "9223372036854775807");
    assert_eq!(decimal(i64::MIN), "-9223372036854775808");
}

#[test]
fn decimal_agrees_with_the_standard_formatter() {
    for n in [-1_000_000_007i64, -100, -9, 0, 9, 99, 100, 101, 123_456_789, 4_294_967_296] {
        assert_eq!(decimal(n), format!("{}", n));
    }
    assert_eq!(nat_decimal(u64::MAX), format!("{}", u64::MAX));
}

#[test]
fn parse_u16_accepts_digits_and_a_plus() {
    assert_eq!(parse_u16("0"), Some(0));
    assert_eq!(parse_u16("3000"), Some(3000));
    assert_eq!(parse_u16("+80"), Some(80));
    assert_eq!(parse_u16("00080"), Some(80));
    assert_eq!(parse_u16("65535"), Some(65535));
}

#[test]
fn parse_u16_refuses_everything_else() {
    assert_eq!(parse_u16(""), None);
    assert_eq!(parse_u16("+"), None);
    assert_eq!(parse_u16("-"), None);
    assert_eq!(parse_u16("-1"), None);
    assert_eq!(parse_u16("-0"), None);
    assert_eq!(parse_u16("65536"), None);
    assert_eq!(parse_u16("99999999999999999999999999"), None);
    assert_eq!(parse_u16(" 80"), None);
    assert_eq!(parse_u16("80 "), None);
    assert_eq!(parse_u16("8o"), None);
    assert_eq!(parse_u16("++8"), None);
    assert_eq!(parse_u16("٣"), None);
}

#[test]
fn parse_u16_agrees_with_the_standard_parser() {
    for text in ["", "+", "-", "0", "+0", "-0", "1", "65535", "65536", "0065535", "1e3", "12 ", "+-1"] {
        assert_eq!(parse_u16(text), text.parse::<u16>().ok(), "{:?}", text);
    }
}

#[test]
fn parse_i64_accepts_both_signs_and_the_extremes() {
    assert_eq!(parse_i64("86400"), Some(86400));
    assert_eq!(parse_i64("+5"), Some(5));
    assert_eq!(parse_i64("-5"), Some(-5));
    assert_eq!(parse_i64("-0"), Some(0));
    assert_eq!(parse_i64("9223372036854775807"), Some(i64::MAX));
    assert_eq!(parse_i64("-9223372036854775808"), Some(i64::MIN));
}

#[test]
fn parse_i64_refuses_everything_else() {
    assert_eq!(parse_i64(""), None);
    assert_eq!(parse_i64("-"), None);
    assert_eq!(parse_i64("+"), None);
    assert_eq!(parse_i64("9223372036854775808"), None);
    assert_eq!(parse_i64("-9223372036854775809"), None);
    assert_eq!(parse_i64("--1"), None);
    assert_eq!(parse_i64("1.5"), None);
    assert_eq!(parse_i64("one day"), None);
}

#[test]
fn parse_i64_agrees_with_the_standard_parser() {
    for text in ["", "-", "+", "0", "-1", "+1", "18446744073709551616", "-9223372036854775808", "12a", " 1"] {
        assert_eq!(parse_i64(text), text.parse::<i64>().ok(), "{:?}", text);
    }
}

#[test]
fn parse_undoes_decimal() {
    for n in [i64::MIN, -86400, -1, 0, 1, 65535, i64::MAX] {
        assert_eq!(parse_i64(&decimal(n)), Some(n));
    }
}

#[test]
fn text_is_compares_whole_texts() {
    assert!(text_is("online", "online"));
    assert!(!text_is("online", "Online"));
    assert!(!text_is("online", "onlin"));
    assert!(text_is("", ""));
}
