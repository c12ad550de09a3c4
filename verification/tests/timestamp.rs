use clockkit::timestamp::{
    diff_micros, split_micros, to_datetime, wall_clock_micros, MAX_CALENDAR_MICROS,
    MAX_CALENDAR_SEC, MIN_CALENDAR_MICROS, MIN_CALENDAR_SEC,
};
use clockkit::Error;

#[test]
fn diff_basic() {
    assert_eq!(diff_micros(10, 3), Ok(7));
    assert_eq!(diff_micros(3, 10), Ok(-7));
    assert_eq!(diff_micros(-5, 5), Ok(-10));
}

#[test]
fn diff_overflow() {
    assert_eq!(diff_micros(i64::MIN, 1), Err(Error::Overflow));
    assert_eq!(diff_micros(i64::MAX, -1), Err(Error::Overflow));
    assert_eq!(diff_micros(i64::MAX, 0), Ok(i64::MAX));
}

#[test]
fn split_non_negative() {
    assert_eq!(split_micros(0), Ok((0, 0)));
    assert_eq!(split_micros(1_500_000), Ok((1, 500_000)));
    assert_eq!(split_micros(999_999), Ok((0, 999_999)));
    assert_eq!(split_micros(2_000_000), Ok((2, 0)));
}

#[test]
fn split_negative() {
    // A negative count splits only when it is a whole number of seconds;
    // otherwise its fractional part would be negative.
    assert_eq!(split_micros(-2_000_000), Ok((-2, 0)));
    assert_eq!(split_micros(-1_500_000), Err(Error::Overflow));
    assert_eq!(split_micros(-1), Err(Error::Overflow));
}

#[test]
fn datetime_epoch() {
    let dt = to_datetime(0).unwrap();
    assert_eq!(dt.and_utc().timestamp(), 0);
    assert_eq!(dt.and_utc().timestamp_subsec_micros(), 0);
}

#[test]
fn datetime_fractional() {
    let dt = to_datetime(1_500_000).unwrap();
    assert_eq!(dt.and_utc().timestamp(), 1);
    assert_eq!(dt.and_utc().timestamp_subsec_micros(), 500_000);
}

#[test]
fn datetime_negative() {
    let dt = to_datetime(-2_000_000).unwrap();
    assert_eq!(dt.and_utc().timestamp(), -2);
    assert_eq!(to_datetime(-1_500_000), Err(Error::Overflow));
}

#[test]
fn datetime_boundary_max() {
    // The largest convertible count converts; one unit beyond fails.
    let dt = to_datetime(MAX_CALENDAR_MICROS).unwrap();
    assert_eq!(dt.and_utc().timestamp(), MAX_CALENDAR_SEC);
    assert_eq!(dt.and_utc().timestamp_subsec_micros(), 999_999);
    assert_eq!(to_datetime(MAX_CALENDAR_MICROS + 1), Err(Error::Overflow));
}

#[test]
fn datetime_boundary_min() {
    let dt = to_datetime(MIN_CALENDAR_MICROS).unwrap();
    assert_eq!(dt.and_utc().timestamp(), MIN_CALENDAR_SEC);
    assert_eq!(dt.and_utc().timestamp_subsec_micros(), 0);
    assert_eq!(to_datetime(MIN_CALENDAR_MICROS - 1), Err(Error::Overflow));
}

#[test]
fn wall_clock_is_current() {
    // The wall clock reads as microseconds since the Unix epoch; any
    // plausible present moment is far past 2020 and far before the cap.
    let t = wall_clock_micros();
    assert!(t > 1_577_836_800_000_000); // 2020-01-01
    assert!(t < i64::MAX);
    let u = wall_clock_micros();
    assert!(u >= t);
}
