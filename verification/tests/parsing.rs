use hft_backtest::engine::{parse_tick_timestamp, TickError};
use hft_backtest::numparse::parse_i64;

#[test]
fn parse_i64_reads_plain_and_signed_numbers() {
    assert_eq!(parse_i64("123"), Some(123));
    assert_eq!(parse_i64("-45"), Some(-45));
    assert_eq!(parse_i64("+7"), Some(7));
    assert_eq!(parse_i64("0000123"), Some(123));
    assert_eq!(parse_i64("0"), Some(0));
    assert_eq!(parse_i64("-0"), Some(0));
}

#[test]
fn parse_i64_refuses_malformed_text() {
    assert_eq!(parse_i64(""), None);
    assert_eq!(parse_i64("+"), None);
    assert_eq!(parse_i64("-"), None);
    assert_eq!(parse_i64("12a"), None);
    assert_eq!(parse_i64(" 1"), None);
    assert_eq!(parse_i64("1 "), None);
    assert_eq!(parse_i64("--1"), None);
    assert_eq!(parse_i64("1.5"), None);
}

#[test]
fn parse_i64_bounds_match_std() {
    for s in [
        "9223372036854775807",
        "9223372036854775808",
        "-9223372036854775808",
        "-9223372036854775809",
        "000000000000000000000009223372036854775807",
        "99999999999999999999999",
        "-99999999999999999999999",
        "+0",
        "\u{661}\u{662}",
    ] {
        assert_eq!(parse_i64(s), s.parse::<i64>().ok(), "input {}", s);
    }
}

#[test]
fn tick_timestamp_accepts_valid_millis() {
    assert_eq!(parse_tick_timestamp("1704067200000"), Ok(1704067200000));
    assert_eq!(parse_tick_timestamp("0"), Ok(0));
    assert_eq!(parse_tick_timestamp("8210266876799999"), Ok(8210266876799999));
}

#[test]
fn tick_timestamp_errors() {
    assert_eq!(parse_tick_timestamp("abc"), Err(TickError::InvalidTimestamp));
    assert_eq!(parse_tick_timestamp(""), Err(TickError::InvalidTimestamp));
    assert_eq!(parse_tick_timestamp("-1"), Err(TickError::NegativeTimestamp));
    assert_eq!(parse_tick_timestamp("8210266876800000"), Err(TickError::TimestampOutOfRange));
    assert_eq!(parse_tick_timestamp("9223372036854775807"), Err(TickError::TimestampOutOfRange));
}
