//! Microsecond-resolution time values.
//!
//! A timestamp is a signed 64-bit count of microseconds from the Unix epoch.
//! Differences between timestamps are checked, never silently wrapped, and
//! conversion to a calendar representation reports `Overflow` instead of
//! truncating when the value falls outside the representable range.

use vstd::prelude::*;

use crate::Error;

verus! {

/// Smallest whole-second count that the calendar representation accepts.
pub const MIN_CALENDAR_SEC: i64 = -8_334_601_228_800;

/// Largest whole-second count that the calendar representation accepts.
pub const MAX_CALENDAR_SEC: i64 = 8_210_266_876_799;

/// Smallest microsecond count that converts to a calendar value.
/// The fractional part must be zero for a negative count, so this is
/// `MIN_CALENDAR_SEC` whole seconds exactly.
pub const MIN_CALENDAR_MICROS: i64 = -8_334_601_228_800_000_000;

/// Largest microsecond count that converts to a calendar value:
/// `MAX_CALENDAR_SEC` whole seconds plus 999_999 microseconds.
pub const MAX_CALENDAR_MICROS: i64 = 8_210_266_876_799_999_999;

/// Whole-second part of a microsecond count, rounded toward zero.
pub open spec fn sec_part(usec: int) -> int {
    if usec >= 0 {
        usec / 1_000_000
    } else {
        -((-usec) / 1_000_000)
    }
}

/// Fractional part left after removing `sec_part` whole seconds.
/// It carries the sign of `usec`.
pub open spec fn usec_part(usec: int) -> int {
    usec - 1_000_000 * sec_part(usec)
}

/// A count splits cleanly when its fractional part is not negative:
/// every non-negative count, and the negative counts that are whole seconds.
pub open spec fn splits_cleanly(usec: int) -> bool {
    usec >= 0 || usec_part(usec) == 0
}

/// Whole seconds the calendar representation accepts.
pub open spec fn calendar_sec_in_range(sec: int) -> bool {
    MIN_CALENDAR_SEC <= sec <= MAX_CALENDAR_SEC
}

/// A microsecond count converts to a calendar value exactly when it splits
/// cleanly and its whole-second part lies in the calendar range.
pub open spec fn converts_to_calendar(usec: int) -> bool {
    splits_cleanly(usec) && calendar_sec_in_range(sec_part(usec))
}

/// Relies on std's `SystemTime::now` and `duration_since(UNIX_EPOCH)`:
/// reads the wall clock as microseconds since the Unix epoch.  A reading
/// before the epoch is reported as zero and one beyond the representable
/// range saturates, so the result is never negative; nothing more can be
/// promised of a clock reading.
#[verifier::external_body]
pub fn wall_clock_micros() -> (r: i64)
    ensures
        0 <= r,
{
    match std::time::SystemTime::now().duration_since(std::time::UNIX_EPOCH) {
        Ok(d) => i64::try_from(d.as_micros()).unwrap_or(i64::MAX),
        Err(_) => 0,
    }
}

/// Checked difference of two timestamps, in microseconds.
pub fn diff_micros(a: i64, b: i64) -> (r: Result<i64, Error>)
    ensures
        i64::MIN <= a - b <= i64::MAX ==> (r matches Ok(d) && d == a - b),
        !(i64::MIN <= a - b <= i64::MAX) ==> (r matches Err(e) && e == Error::Overflow),
{
    match a.checked_sub(b) {
        Some(d) => Ok(d),
        None => Err(Error::Overflow),
    }
}

/// Split a microsecond count into whole seconds and a non-negative
/// microsecond remainder, rejecting counts whose remainder would be negative.
pub fn split_micros(usec: i64) -> (r: Result<(i64, u32), Error>)
    ensures
        splits_cleanly(usec as int) ==> (r matches Ok(p) && p.0 == sec_part(usec as int)
            && p.1 == usec_part(usec as int) && p.1 < 1_000_000),
        !splits_cleanly(usec as int) ==> (r matches Err(e) && e == Error::Overflow),
{
    if usec >= 0 {
        let u: u64 = usec as u64;
        let q: u64 = u / 1_000_000;
        let rem: u64 = u % 1_000_000;
        Ok((q as i64, rem as u32))
    } else {
        // Magnitude computed without negating `i64::MIN`.
        let m: u64 = ((-(usec + 1)) as u64) + 1;
        if m % 1_000_000 == 0 {
            let q: u64 = m / 1_000_000;
            proof {
                assert(m == -(usec as int));
                assert((-(usec as int)) % 1_000_000 == 0);
                assert(usec_part(usec as int) == 0) by {
                    vstd::arithmetic::div_mod::lemma_fundamental_div_mod(
                        -(usec as int),
                        1_000_000,
                    );
                };
            }
            Ok((-(q as i64), 0))
        } else {
            proof {
                assert(m == -(usec as int));
                assert(usec_part(usec as int) != 0) by {
                    vstd::arithmetic::div_mod::lemma_fundamental_div_mod(
                        -(usec as int),
                        1_000_000,
                    );
                };
            }
            Err(Error::Overflow)
        }
    }
}

#[verifier::external_type_specification]
#[verifier::external_body]
pub struct ExNaiveDateTime(chrono::NaiveDateTime);

/// Relies on chrono's `DateTime::<Utc>::from_timestamp` (the result taken
/// with `naive_utc`): with a nanosecond part below one billion it returns
/// `Some` exactly when the second count lies within the calendar range
/// (at most about 262,000 years away from the common era), and `None`
/// otherwise.
#[verifier::external_body]
fn naive_from_timestamp(secs: i64, nsecs: u32) -> (r: Option<chrono::NaiveDateTime>)
    requires
        nsecs < 1_000_000_000,
    ensures
        r is Some <==> calendar_sec_in_range(secs as int),
{
    match chrono::DateTime::<chrono::Utc>::from_timestamp(secs, nsecs) {
        Some(dt) => Some(dt.naive_utc()),
        None => None,
    }
}

/// Convert a microsecond count to a calendar value, reporting `Overflow`
/// for a count whose fractional second is negative or whose whole-second
/// part falls outside the calendar range.
pub fn to_datetime(usec: i64) -> (r: Result<chrono::NaiveDateTime, Error>)
    ensures
        converts_to_calendar(usec as int) <==> r is Ok,
        !converts_to_calendar(usec as int) ==> (r matches Err(e) && e == Error::Overflow),
{
    match split_micros(usec) {
        Ok((sec, us)) => {
            let nsec: u32 = us * 1000;
            match naive_from_timestamp(sec, nsec) {
                Some(dt) => Ok(dt),
                None => Err(Error::Overflow),
            }
        },
        Err(e) => Err(e),
    }
}

/// The boundary of the calendar conversion: the extreme microsecond counts
/// convert, and one unit beyond each does not.
pub proof fn lemma_conversion_boundary()
    ensures
        converts_to_calendar(MAX_CALENDAR_MICROS as int),
        !converts_to_calendar(MAX_CALENDAR_MICROS + 1),
        converts_to_calendar(MIN_CALENDAR_MICROS as int),
        !converts_to_calendar(MIN_CALENDAR_MICROS - 1),
{
    assert(MAX_CALENDAR_MICROS as int / 1_000_000 == MAX_CALENDAR_SEC as int)
        by (nonlinear_arith);
    assert((MAX_CALENDAR_MICROS + 1) / 1_000_000 == MAX_CALENDAR_SEC + 1)
        by (nonlinear_arith);
    assert((-(MIN_CALENDAR_MICROS as int)) / 1_000_000 == -(MIN_CALENDAR_SEC as int))
        by (nonlinear_arith);
    assert((-(MIN_CALENDAR_MICROS - 1)) / 1_000_000 == -(MIN_CALENDAR_SEC as int))
        by (nonlinear_arith);
    assert(1_000_000 * (-(MIN_CALENDAR_SEC as int)) == -(MIN_CALENDAR_MICROS as int))
        by (nonlinear_arith);
}

} // verus!
