use hft_executor::numeric::parse_decimal_cents;

#[test]
fn parses_plain_integer() {
    assert_eq!(parse_decimal_cents("50000"), Some(5_000_000));
}

#[test]
fn parses_two_fraction_digits() {
    assert_eq!(parse_decimal_cents("50000.12"), Some(5_000_012));
}

#[test]
fn parses_single_fraction_digit() {
    assert_eq!(parse_decimal_cents("67500.5"), Some(6_750_050));
}

#[test]
fn parses_sub_dollar_value() {
    assert_eq!(parse_decimal_cents("0.5"), Some(50));
}

#[test]
fn truncates_past_second_fraction_digit() {
    assert_eq!(parse_decimal_cents("1.239"), Some(123));
    assert_eq!(parse_decimal_cents("1.2399999"), Some(123));
}

#[test]
fn accepts_trailing_point() {
    assert_eq!(parse_decimal_cents("50."), Some(5_000));
}

#[test]
fn rejects_empty_and_garbage() {
    assert_eq!(parse_decimal_cents(""), None);
    assert_eq!(parse_decimal_cents("abc"), None);
    assert_eq!(parse_decimal_cents("."), None);
    assert_eq!(parse_decimal_cents(".5"), None);
    assert_eq!(parse_decimal_cents("12.34.5"), None);
    assert_eq!(parse_decimal_cents("-5"), None);
    assert_eq!(parse_decimal_cents("1 2"), None);
}

#[test]
fn rejects_more_than_sixteen_integer_digits() {
    assert_eq!(parse_decimal_cents("12345678901234567"), None);
    assert_eq!(parse_decimal_cents("1234567890123456"), Some(123_456_789_012_345_600));
}

#[test]
fn parses_zero() {
    assert_eq!(parse_decimal_cents("0"), Some(0));
    assert_eq!(parse_decimal_cents("0.00"), Some(0));
}
