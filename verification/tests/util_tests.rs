//! Decimal parsing into fixed-point values.

use control_rust::util::{parse_float, parse_int};

#[test]
fn test_parse_float() {
    assert_eq!(parse_float("1"), Some(1_000_000));
    assert_eq!(parse_float("-1"), Some(-1_000_000));
    assert_eq!(parse_float("2.0"), Some(2_000_000));
    assert_eq!(parse_float("-0.1"), Some(-100_000));
    assert_eq!(parse_float("-2.0"), Some(-2_000_000));
    assert_eq!(parse_float("123.456"), Some(123_456_000));
    assert_eq!(parse_float("-123.456"), Some(-123_456_000));
    assert_eq!(parse_float("0.1"), Some(100_000));
    assert_eq!(parse_float("-0.0"), Some(0));
    assert_eq!(parse_float("12a"), None);
    assert_eq!(parse_float("1.2.3"), None);
}

#[test]
fn test_parse_int() {
    assert_eq!(parse_int("123"), Some(123));
    assert_eq!(parse_int(""), Some(0));
    assert_eq!(parse_int("0042"), Some(42));
    assert_eq!(parse_int("12a"), None);
    assert_eq!(parse_int("-1"), None);
    assert_eq!(parse_int("99999999999"), None);
}
