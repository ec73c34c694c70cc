use ebird_loader::config::{compile_filter, ConfigError, RawFilterArgs};
use ebird_loader::date::ObsDate;

fn no_args() -> RawFilterArgs {
    RawFilterArgs {
        before_date: None,
        since_date: None,
        near_location: None,
        buffer: None,
        common_name_regex: None,
        scientific_name_regex: None,
        limit: None,
    }
}

#[test]
fn empty_args_compile_to_defaults() {
    let cfg = compile_filter(&no_args()).unwrap();
    assert!(cfg.before_date.is_none());
    assert!(cfg.since_date.is_none());
    assert!(cfg.near.is_none());
    assert_eq!(cfg.buffer, "1000");
    assert!(cfg.common_name.is_none());
    assert!(cfg.scientific_name.is_none());
    assert_eq!(cfg.limit, usize::MAX);
}

#[test]
fn reversed_bounds_rejected() {
    let mut a = no_args();
    a.before_date = Some("2020-01-01".to_string());
    a.since_date = Some("2020-06-01".to_string());
    assert_eq!(compile_filter(&a).unwrap_err(), ConfigError::BoundsReversed);
}

#[test]
fn equal_bounds_accepted() {
    let mut a = no_args();
    a.before_date = Some("2020-01-01".to_string());
    a.since_date = Some("2020-01-01".to_string());
    let cfg = compile_filter(&a).unwrap();
    assert_eq!(cfg.before_date, Some(ObsDate { year: 2020, month: 1, day: 1 }));
    assert_eq!(cfg.since_date, Some(ObsDate { year: 2020, month: 1, day: 1 }));
}

#[test]
fn ordered_bounds_accepted() {
    let mut a = no_args();
    a.before_date = Some("2020-06-01".to_string());
    a.since_date = Some("2020-01-01".to_string());
    assert!(compile_filter(&a).is_ok());
}

#[test]
fn invalid_before_date_rejected() {
    let mut a = no_args();
    a.before_date = Some("june 2020".to_string());
    assert_eq!(compile_filter(&a).unwrap_err(), ConfigError::InvalidBeforeDate);
}

#[test]
fn invalid_since_date_rejected() {
    let mut a = no_args();
    a.since_date = Some("2020-02-30".to_string());
    assert_eq!(compile_filter(&a).unwrap_err(), ConfigError::InvalidSinceDate);
}

#[test]
fn invalid_location_rejected() {
    let mut a = no_args();
    a.near_location = Some("LINESTRING(0 0, 1 1)".to_string());
    assert_eq!(compile_filter(&a).unwrap_err(), ConfigError::InvalidLocation);
}

#[test]
fn location_compiles_to_coordinates() {
    let mut a = no_args();
    a.near_location = Some("POINT(-122.4 37.8)".to_string());
    let cfg = compile_filter(&a).unwrap();
    let near = cfg.near.unwrap();
    assert_eq!(near.lon, "-122.4");
    assert_eq!(near.lat, "37.8");
}

#[test]
fn invalid_buffer_rejected() {
    let mut a = no_args();
    a.buffer = Some("metres".to_string());
    assert_eq!(compile_filter(&a).unwrap_err(), ConfigError::InvalidBuffer);
    a.buffer = Some("0".to_string());
    assert_eq!(compile_filter(&a).unwrap_err(), ConfigError::InvalidBuffer);
    a.buffer = Some("-10".to_string());
    assert_eq!(compile_filter(&a).unwrap_err(), ConfigError::InvalidBuffer);
}

#[test]
fn buffer_kept_as_given() {
    let mut a = no_args();
    a.buffer = Some("250".to_string());
    let cfg = compile_filter(&a).unwrap();
    assert_eq!(cfg.buffer, "250");
}

#[test]
fn invalid_patterns_rejected() {
    let mut a = no_args();
    a.common_name_regex = Some("(".to_string());
    assert_eq!(compile_filter(&a).unwrap_err(), ConfigError::InvalidCommonPattern);
    let mut b = no_args();
    b.scientific_name_regex = Some("[".to_string());
    assert_eq!(compile_filter(&b).unwrap_err(), ConfigError::InvalidScientificPattern);
}

#[test]
fn invalid_limit_rejected() {
    let mut a = no_args();
    a.limit = Some("many".to_string());
    assert_eq!(compile_filter(&a).unwrap_err(), ConfigError::InvalidLimit);
    a.limit = Some("-1".to_string());
    assert_eq!(compile_filter(&a).unwrap_err(), ConfigError::InvalidLimit);
}

#[test]
fn limit_compiles() {
    let mut a = no_args();
    a.limit = Some("42".to_string());
    let cfg = compile_filter(&a).unwrap();
    assert_eq!(cfg.limit, 42);
}

#[test]
fn first_error_wins() {
    let mut a = no_args();
    a.before_date = Some("bad".to_string());
    a.limit = Some("also bad".to_string());
    assert_eq!(compile_filter(&a).unwrap_err(), ConfigError::InvalidBeforeDate);
}

#[test]
fn error_descriptions() {
    assert_eq!(ConfigError::BoundsReversed.describe(), "since date is after before date");
    assert_eq!(ConfigError::InvalidLocation.describe(), "invalid near location");
}
