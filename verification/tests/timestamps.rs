//! Timestamp construction, calendar rendering and parsing.

use libtaos::{Timestamp, TimestampPrecision};

#[test]
fn millisecond_offset_renders_as_utc_datetime() {
    let ts = Timestamp::new(1591060618000, TimestampPrecision::Milli);
    assert_eq!(ts.to_text().unwrap(), "2020-06-02 01:16:58.000");
}

#[test]
fn each_precision_renders_its_fraction_width() {
    let ts = Timestamp::new(1591060618000, TimestampPrecision::Milli);
    assert_eq!(ts.to_text().unwrap(), "2020-06-02 01:16:58.000");
    let ts = Timestamp::new(1591060618000000, TimestampPrecision::Micro);
    assert_eq!(ts.to_text().unwrap(), "2020-06-02 01:16:58.000000");
    let ts = Timestamp::new(1591060618000000000, TimestampPrecision::Nano);
    assert_eq!(ts.to_text().unwrap(), "2020-06-02 01:16:58.000000000");
}

#[test]
fn epoch_renders_as_the_reference_instant() {
    let ts = Timestamp::new(0, TimestampPrecision::Milli);
    assert_eq!(ts.to_text().unwrap(), "1970-01-01 00:00:00.000");
}

#[test]
fn unrepresentable_offsets_render_as_none() {
    let ts = Timestamp::new(i64::MIN, TimestampPrecision::Milli);
    assert_eq!(ts.to_text(), None);
    let ts = Timestamp::new(i64::MAX, TimestampPrecision::Milli);
    assert_eq!(ts.to_text(), None);
    let ts = Timestamp::new(i64::MIN, TimestampPrecision::Nano);
    assert!(ts.to_text().is_some());
}

#[test]
fn raw_offset_is_kept() {
    let ts = Timestamp::new(1591060618000, TimestampPrecision::Milli);
    assert_eq!(ts.as_raw_timestamp(), 1591060618000);
}

#[test]
fn datetime_text_parses_to_millisecond_offset() {
    let ts = Timestamp::parse_datetime("2020-06-02 01:16:58.000").unwrap();
    assert_eq!(ts.timestamp, 1591060618000);
    assert_eq!(ts.precision, TimestampPrecision::Milli);
    assert!(Timestamp::parse_datetime("not a datetime").is_none());
}

#[test]
fn rendering_and_parsing_agree() {
    let ts = Timestamp::new(1591060628123, TimestampPrecision::Milli);
    let text = ts.to_text().unwrap();
    let back = Timestamp::parse_datetime(text.as_str()).unwrap();
    assert_eq!(back.timestamp, 1591060628123);
}

#[test]
fn precision_values_match_the_engine_codes() {
    assert_eq!(TimestampPrecision::Milli.value(), 0);
    assert_eq!(TimestampPrecision::Micro.value(), 1);
    assert_eq!(TimestampPrecision::Nano.value(), 2);
    assert_eq!(TimestampPrecision::Unknown.value(), -1);
    assert_eq!(TimestampPrecision::from_value(0), TimestampPrecision::Milli);
    assert_eq!(TimestampPrecision::from_value(2), TimestampPrecision::Nano);
    assert_eq!(TimestampPrecision::from_value(9), TimestampPrecision::Unknown);
}

#[test]
fn now_carries_millisecond_precision() {
    let ts = Timestamp::now();
    assert_eq!(ts.precision, TimestampPrecision::Milli);
}
