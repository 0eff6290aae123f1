use telemt_admin::decimal::i64_to_decimal;
use telemt_admin::decimal::parse_i64;
use telemt_admin::decimal::u64_to_decimal;

#[test]
fn decimal_text_of_small_numbers() {
    assert_eq!(u64_to_decimal(0), "0");
    assert_eq!(u64_to_decimal(7), "7");
    assert_eq!(u64_to_decimal(10), "10");
    assert_eq!(u64_to_decimal(443), "443");
    assert_eq!(i64_to_decimal(0), "0");
    assert_eq!(i64_to_decimal(-1), "-1");
    assert_eq!(i64_to_decimal(111), "111");
}

#[test]
fn decimal_text_of_the_largest_and_smallest() {
    assert_eq!(u64_to_decimal(u64::MAX), "18446744073709551615");
    assert_eq!(i64_to_decimal(i64::MAX), "9223372036854775807");
    assert_eq!(i64_to_decimal(i64::MIN), "-9223372036854775808");
}

#[test]
fn decimal_text_agrees_with_std() {
    for n in [0i64, 1, -1, 9, 10, 99, 100, -100, 1234567890123, -987654321, i64::MAX, i64::MIN] {
        assert_eq!(i64_to_decimal(n), n.to_string());
    }
}

#[test]
fn parse_reads_sign_and_digits() {
    assert_eq!(parse_i64("0"), Some(0));
    assert_eq!(parse_i64("42"), Some(42));
    assert_eq!(parse_i64("+5"), Some(5));
    assert_eq!(parse_i64("-5"), Some(-5));
    assert_eq!(parse_i64("-0"), Some(0));
    assert_eq!(parse_i64("007"), Some(7));
}

#[test]
fn parse_refuses_what_is_no_number() {
    assert_eq!(parse_i64(""), None);
    assert_eq!(parse_i64("-"), None);
    assert_eq!(parse_i64("+"), None);
    assert_eq!(parse_i64("12a"), None);
    assert_eq!(parse_i64(" 12"), None);
    assert_eq!(parse_i64("12 "), None);
    assert_eq!(parse_i64("1_000"), None);
    assert_eq!(parse_i64("--1"), None);
    assert_eq!(parse_i64("١٢"), None);
}

#[test]
fn parse_keeps_to_the_range_of_i64() {
    assert_eq!(parse_i64("9223372036854775807"), Some(i64::MAX));
    assert_eq!(parse_i64("9223372036854775808"), None);
    assert_eq!(parse_i64("-9223372036854775808"), Some(i64::MIN));
    assert_eq!(parse_i64("-9223372036854775809"), None);
    assert_eq!(parse_i64("99999999999999999999999999"), None);
    assert_eq!(parse_i64("00000000000000000000000001"), Some(1));
}

#[test]
fn parse_agrees_with_std() {
    for s in ["", "0", "-0", "+0", "+", "-", "17", "-17", "+17", "1 7", "9223372036854775807",
        "9223372036854775808", "-9223372036854775808", "-9223372036854775809", "abc", "0x10"] {
        assert_eq!(parse_i64(s), s.parse::<i64>().ok(), "input {:?}", s);
    }
}

#[test]
fn parse_undoes_decimal_text() {
    for n in [0i64, 1, -1, 111, -111, i64::MAX, i64::MIN] {
        assert_eq!(parse_i64(&i64_to_decimal(n)), Some(n));
    }
}
