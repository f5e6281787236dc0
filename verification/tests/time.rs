use chrono::{DateTime, NaiveDate, TimeZone, Utc};
use orderx_core::time::{UtcTimestamp, MAX_TIMESTAMP_SECS, MIN_TIMESTAMP_SECS};

#[test]
fn timestamp_range_matches_chrono() {
    assert_eq!(DateTime::<Utc>::MIN_UTC.timestamp(), MIN_TIMESTAMP_SECS);
    assert_eq!(DateTime::<Utc>::MAX_UTC.timestamp(), MAX_TIMESTAMP_SECS);
    assert!(UtcTimestamp::new(MIN_TIMESTAMP_SECS, 0).is_some());
    assert!(UtcTimestamp::new(MAX_TIMESTAMP_SECS, 999_999_999).is_some());
    assert!(UtcTimestamp::new(MIN_TIMESTAMP_SECS - 1, 0).is_none());
    assert!(UtcTimestamp::new(MAX_TIMESTAMP_SECS + 1, 0).is_none());
    assert!(DateTime::from_timestamp(MIN_TIMESTAMP_SECS - 1, 0).is_none());
    assert!(DateTime::from_timestamp(MAX_TIMESTAMP_SECS + 1, 0).is_none());
}

#[test]
fn leap_second_nanos_only_at_the_end_of_a_minute() {
    // 59 seconds past a minute: a leap second may be represented
    assert!(UtcTimestamp::new(59, 1_500_000_000).is_some());
    assert!(DateTime::from_timestamp(59, 1_500_000_000).is_some());
    assert!(UtcTimestamp::new(-1, 1_500_000_000).is_some());
    assert!(DateTime::from_timestamp(-1, 1_500_000_000).is_some());
    assert!(UtcTimestamp::new(58, 1_500_000_000).is_none());
    assert!(DateTime::from_timestamp(58, 1_500_000_000).is_none());
    assert!(UtcTimestamp::new(59, 2_000_000_000).is_none());
}

#[test]
fn micros_and_nanos_match_chrono() {
    let cases = [
        Utc.with_ymd_and_hms(2026, 3, 19, 14, 30, 0).unwrap(),
        NaiveDate::from_ymd_opt(1969, 12, 31).unwrap().and_hms_nano_opt(23, 59, 59, 123_456_789).unwrap().and_utc(),
        NaiveDate::from_ymd_opt(1677, 9, 21).unwrap().and_hms_nano_opt(0, 12, 43, 145_224_192).unwrap().and_utc(),
        NaiveDate::from_ymd_opt(1677, 9, 21).unwrap().and_hms_nano_opt(0, 12, 43, 145_224_191).unwrap().and_utc(),
        NaiveDate::from_ymd_opt(2262, 4, 11).unwrap().and_hms_nano_opt(23, 47, 16, 854_775_807).unwrap().and_utc(),
        NaiveDate::from_ymd_opt(2262, 4, 11).unwrap().and_hms_nano_opt(23, 47, 16, 854_775_808).unwrap().and_utc(),
        DateTime::<Utc>::MIN_UTC,
        DateTime::<Utc>::MAX_UTC,
    ];
    for dt in cases {
        let t = UtcTimestamp::new(dt.timestamp(), dt.timestamp_subsec_nanos()).unwrap();
        assert_eq!(t.timestamp_micros(), dt.timestamp_micros());
        assert_eq!(t.timestamp_nanos_opt(), dt.timestamp_nanos_opt());
        assert_eq!(t.to_rfc3339_seconds(), dt.to_rfc3339_opts(chrono::SecondsFormat::Secs, true));
    }
}

#[test]
fn exact_micros_and_nanos() {
    let t = UtcTimestamp::new(1_000_000_000, 555).unwrap();
    assert_eq!(t.timestamp_micros(), 1_000_000_000_000_000);
    assert_eq!(t.timestamp_nanos_opt(), Some(1_000_000_000_000_000_555));
    let early = UtcTimestamp::new(-1, 1).unwrap();
    assert_eq!(early.timestamp_nanos_opt(), Some(-999_999_999));
    assert_eq!(early.timestamp_micros(), -1_000_000);
}

#[test]
fn rfc3339_seconds_text() {
    let t = UtcTimestamp::new(1_772_323_200, 0).unwrap();
    assert_eq!(t.to_rfc3339_seconds(), "2026-03-01T00:00:00Z");
    let t = UtcTimestamp::new(0, 999_999_999).unwrap();
    assert_eq!(t.to_rfc3339_seconds(), "1970-01-01T00:00:00Z");
}

#[test]
fn later_than_orders_by_seconds_then_nanos() {
    let a = UtcTimestamp::new(10, 5).unwrap();
    let b = UtcTimestamp::new(10, 6).unwrap();
    let c = UtcTimestamp::new(11, 0).unwrap();
    assert!(b.is_later_than(&a));
    assert!(!a.is_later_than(&b));
    assert!(c.is_later_than(&b));
    assert!(!a.is_later_than(&a));
}
