use todo_backend::text::{parse_bool, parse_i64};

#[test]
fn parse_i64_reads_plain_digits() {
    assert_eq!(parse_i64("0"), Some(0));
    assert_eq!(parse_i64("7"), Some(7));
    assert_eq!(parse_i64("42"), Some(42));
    assert_eq!(parse_i64("1234567890"), Some(1234567890));
}

#[test]
fn parse_i64_reads_a_sign() {
    assert_eq!(parse_i64("-42"), Some(-42));
    assert_eq!(parse_i64("+42"), Some(42));
    assert_eq!(parse_i64("-0"), Some(0));
    assert_eq!(parse_i64("+0"), Some(0));
}

#[test]
fn parse_i64_allows_leading_zeros() {
    assert_eq!(parse_i64("007"), Some(7));
    assert_eq!(parse_i64("-007"), Some(-7));
    assert_eq!(parse_i64("00000000000000000000000000000000000000001"), Some(1));
    assert_eq!(parse_i64("0000000000000000000009223372036854775807"), Some(i64::MAX));
}

#[test]
fn parse_i64_reads_the_ends_of_the_range() {
    assert_eq!(parse_i64("9223372036854775807"), Some(i64::MAX));
    assert_eq!(parse_i64("+9223372036854775807"), Some(i64::MAX));
    assert_eq!(parse_i64("-9223372036854775808"), Some(i64::MIN));
    assert_eq!(parse_i64("-9223372036854775807"), Some(i64::MIN + 1));
}

#[test]
fn parse_i64_refuses_what_does_not_fit() {
    assert_eq!(parse_i64("9223372036854775808"), None);
    assert_eq!(parse_i64("-9223372036854775809"), None);
    assert_eq!(parse_i64("18446744073709551616"), None);
    assert_eq!(parse_i64("99999999999999999999999999999999999999"), None);
    assert_eq!(parse_i64("-99999999999999999999999999999999999999"), None);
}

#[test]
fn parse_i64_refuses_text_without_digits() {
    assert_eq!(parse_i64(""), None);
    assert_eq!(parse_i64("+"), None);
    assert_eq!(parse_i64("-"), None);
    assert_eq!(parse_i64("abc"), None);
    assert_eq!(parse_i64("--1"), None);
    assert_eq!(parse_i64("+-1"), None);
}

#[test]
fn parse_i64_refuses_anything_beside_the_digits() {
    assert_eq!(parse_i64(" 42"), None);
    assert_eq!(parse_i64("42 "), None);
    assert_eq!(parse_i64("4 2"), None);
    assert_eq!(parse_i64("1_000"), None);
    assert_eq!(parse_i64("0x10"), None);
    assert_eq!(parse_i64("12.0"), None);
    assert_eq!(parse_i64("1e3"), None);
    assert_eq!(parse_i64("42\n"), None);
    assert_eq!(parse_i64("4/2"), None);
    assert_eq!(parse_i64("4:2"), None);
}

#[test]
fn parse_i64_refuses_digits_outside_ascii() {
    assert_eq!(parse_i64("１２"), None);
    assert_eq!(parse_i64("٣"), None);
    assert_eq!(parse_i64("4é"), None);
    assert_eq!(parse_i64("−1"), None);
}

#[test]
fn parse_i64_agrees_with_the_standard_parser() {
    let samples = [
        "", "0", "-", "+", "1", "-1", "+1", "10", "0010", "9223372036854775807",
        "9223372036854775808", "-9223372036854775808", "-9223372036854775809", "12a", "a12",
        " 1", "1 ", "١", "+-3", "922337203685477580", "92233720368547758070",
    ];
    for sample in samples {
        assert_eq!(parse_i64(sample), sample.parse::<i64>().ok(), "{:?}", sample);
    }
}

#[test]
fn parse_bool_reads_true_and_false_only() {
    assert_eq!(parse_bool("true"), Some(true));
    assert_eq!(parse_bool("false"), Some(false));
    assert_eq!(parse_bool("True"), None);
    assert_eq!(parse_bool("FALSE"), None);
    assert_eq!(parse_bool("1"), None);
    assert_eq!(parse_bool("0"), None);
    assert_eq!(parse_bool("on"), None);
    assert_eq!(parse_bool(""), None);
    assert_eq!(parse_bool("true "), None);
    assert_eq!(parse_bool(" false"), None);
    assert_eq!(parse_bool("truee"), None);
    assert_eq!(parse_bool("tru"), None);
    assert_eq!(parse_bool("trüe"), None);
}
