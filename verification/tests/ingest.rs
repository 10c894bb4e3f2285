use hft_backtest::calendar::{MAX_EPOCH_DAY, MAX_UTC_MILLIS, MIN_EPOCH_DAY, MIN_UTC_MILLIS};
use hft_backtest::ingest::{day_file_name, day_for_row, day_key, DateFilters, DayTally, FilterError, RowError};

#[test]
fn date_filters_parse_both_bounds() {
    let f = DateFilters::new(Some("2024-01-02"), Some("2024-01-05")).unwrap();
    assert_eq!(f.start, Some(19724));
    assert_eq!(f.end, Some(19727));
    assert!(!f.includes(19723));
    assert!(f.includes(19724));
    assert!(f.includes(19727));
    assert!(!f.includes(19728));
}

#[test]
fn date_filters_without_bounds_include_every_day() {
    let f = DateFilters::new(None, None).unwrap();
    assert!(f.includes(i32::MIN));
    assert!(f.includes(0));
    assert!(f.includes(i32::MAX));
}

#[test]
fn date_filters_single_day_window() {
    let f = DateFilters::new(Some("2024-01-01"), Some("2024-01-01")).unwrap();
    assert!(f.includes(19723));
    assert!(!f.includes(19722));
    assert!(!f.includes(19724));
}

#[test]
fn date_filters_errors() {
    match DateFilters::new(Some("2024/01/02"), Some("also bad")) {
        Err(FilterError::InvalidStartDate { value, .. }) => assert_eq!(value, "2024/01/02"),
        other => panic!("unexpected {:?}", other),
    }
    match DateFilters::new(Some("2024-01-02"), Some("2024-13-01")) {
        Err(FilterError::InvalidEndDate { value, .. }) => assert_eq!(value, "2024-13-01"),
        other => panic!("unexpected {:?}", other),
    }
    assert!(matches!(
        DateFilters::new(Some("2024-01-05"), Some("2024-01-02")),
        Err(FilterError::StartAfterEnd)
    ));
    assert!(matches!(DateFilters::from_days(Some(3), Some(2)), Err(FilterError::StartAfterEnd)));
}

#[test]
fn date_filters_open_ended() {
    let from = DateFilters::new(Some("2024-01-02"), None).unwrap();
    assert!(from.includes(30000));
    assert!(!from.includes(19723));
    let until = DateFilters::new(None, Some("2024-01-02")).unwrap();
    assert!(until.includes(-5));
    assert!(!until.includes(19725));
}

#[test]
fn rows_go_to_their_utc_day() {
    let all = DateFilters::new(None, None).unwrap();
    assert_eq!(day_for_row(1704067200000, true, &all), Ok(Some(19723)));
    assert_eq!(day_for_row(1704067199999, true, &all), Ok(Some(19722)));
    assert_eq!(day_for_row(-1, true, &all), Ok(Some(-1)));
    assert_eq!(day_for_row(0, true, &all), Ok(Some(0)));
}

#[test]
fn rows_with_non_positive_prices_are_skipped() {
    let all = DateFilters::new(None, None).unwrap();
    assert_eq!(day_for_row(1704067200000, false, &all), Ok(None));
    assert_eq!(day_for_row(i64::MAX, false, &all), Ok(None));
}

#[test]
fn rows_outside_the_window_are_skipped() {
    let f = DateFilters::new(Some("2024-01-02"), Some("2024-01-05")).unwrap();
    assert_eq!(day_for_row(1704067200000, true, &f), Ok(None));
    assert_eq!(day_for_row(1704067200000 + 86_400_000, true, &f), Ok(Some(19724)));
}

#[test]
fn utc_range_limits_match_chrono() {
    let all = DateFilters::new(None, None).unwrap();
    assert_eq!(day_for_row(MAX_UTC_MILLIS, true, &all), Ok(Some(95026236)));
    assert_eq!(
        day_for_row(MAX_UTC_MILLIS + 1, true, &all),
        Err(RowError::TimestampOutOfRange { timestamp_ms: MAX_UTC_MILLIS + 1 })
    );
    assert_eq!(day_for_row(MIN_UTC_MILLIS, true, &all), Ok(Some(-96465292)));
    assert_eq!(
        day_for_row(MIN_UTC_MILLIS - 1, true, &all),
        Err(RowError::TimestampOutOfRange { timestamp_ms: MIN_UTC_MILLIS - 1 })
    );
    assert!(chrono::DateTime::from_timestamp_millis(MAX_UTC_MILLIS).is_some());
    assert!(chrono::DateTime::from_timestamp_millis(MAX_UTC_MILLIS + 1).is_none());
    assert!(chrono::DateTime::from_timestamp_millis(MIN_UTC_MILLIS).is_some());
    assert!(chrono::DateTime::from_timestamp_millis(MIN_UTC_MILLIS - 1).is_none());
}

#[test]
fn day_tally_counts_rows_per_day_in_day_order() {
    let mut t = DayTally::new();
    assert_eq!(t.total(), 0);
    t.record(19725);
    t.record(19723);
    t.record(19725);
    t.record(19724);
    t.record(19723);
    t.record(19725);
    assert_eq!(t.entries(), &[(19723, 2), (19724, 1), (19725, 3)][..]);
    assert_eq!(t.total(), 6);
}

#[test]
fn day_keys_and_file_names() {
    assert_eq!(day_key(19723).as_deref(), Some("2024-01-01"));
    assert_eq!(day_key(0).as_deref(), Some("1970-01-01"));
    assert_eq!(day_key(-1).as_deref(), Some("1969-12-31"));
    assert_eq!(day_file_name(19724).as_deref(), Some("xauusd_2024-01-02.csv"));
    assert!(day_key(MAX_EPOCH_DAY).is_some());
    assert!(day_key(MIN_EPOCH_DAY).is_some());
    assert_eq!(day_key(MAX_EPOCH_DAY + 1), None);
    assert_eq!(day_key(MIN_EPOCH_DAY - 1), None);
    assert_eq!(day_file_name(i32::MAX), None);
}
