//! Clock access: the monotonic clock that times a typing test, and the
//! calendar date of today.

use std::time::Instant;

use vstd::prelude::*;

verus! {

/// `std::time::Instant`, carried opaquely.
#[verifier::external_type_specification]
#[verifier::external_body]
pub struct ExInstant(Instant);

/// Reads the monotonic clock (`Instant::now`). Nothing is stated of the
/// value: it depends on when the call is made.
#[verifier::external_body]
pub(crate) fn instant_now() -> (i: Instant) {
    Instant::now()
}

/// Whole milliseconds elapsed since `start` (`Instant::elapsed`, truncated to
/// `u64`). Nothing is stated of the value: it depends on the clock.
#[verifier::external_body]
pub(crate) fn millis_since(start: &Instant) -> (ms: u64) {
    start.elapsed().as_millis() as u64
}

/// `std::time::SystemTime`, carried opaquely.
#[verifier::external_type_specification]
#[verifier::external_body]
pub struct ExSystemTime(std::time::SystemTime);

/// Reads the system clock (`SystemTime::now`). Nothing is stated of the
/// value: it depends on when the call is made.
#[verifier::external_body]
fn system_now() -> (t: std::time::SystemTime) {
    std::time::SystemTime::now()
}

/// Whole seconds and the nanoseconds beyond them from the Unix epoch to `t`
/// (`SystemTime::duration_since(UNIX_EPOCH)`); `None` when `t` is before
/// the epoch. Nothing is stated of the value: `t` is opaque here.
#[verifier::external_body]
fn since_unix_epoch(t: std::time::SystemTime) -> (r: Option<(u64, u32)>) {
    match t.duration_since(std::time::UNIX_EPOCH) {
        Ok(d) => Some((d.as_secs(), d.subsec_nanos())),
        Err(_) => None,
    }
}

/// The UTC calendar date, as `YYYY-MM-DD`, of the instant `seconds` +
/// `nanos` after the Unix epoch; `None` when the instant is outside
/// chrono's range.
pub uninterp spec fn utc_date_of(seconds: i64, nanos: u32) -> Option<Seq<char>>;

/// Formats the instant with `chrono::DateTime::<Utc>::from_timestamp` and
/// `format("%Y-%m-%d")`. The contract names the text: the calendar is
/// chrono's.
#[verifier::external_body]
fn format_utc_date(seconds: i64, nanos: u32) -> (r: Option<String>)
    ensures
        match r {
            Some(s) => utc_date_of(seconds, nanos) == Some(s@),
            None => utc_date_of(seconds, nanos) is None,
        },
{
    chrono::DateTime::<chrono::Utc>::from_timestamp(seconds, nanos).map(
        |t| t.format("%Y-%m-%d").to_string(),
    )
}

/// Today's date in UTC as `YYYY-MM-DD`, read from the system clock; `None`
/// when the clock reads before the Unix epoch or beyond the calendar's
/// range. Which date it is depends on the clock.
pub(crate) fn utc_today() -> (r: Option<String>)
    ensures
        r matches Some(s) ==> exists|seconds: i64, nanos: u32| utc_date_of(seconds, nanos)
            == Some(s@),
{
    let now = system_now();
    match since_unix_epoch(now) {
        None => None,
        Some((secs, nanos)) => {
            if secs > i64::MAX as u64 {
                return None;
            }
            format_utc_date(secs as i64, nanos)
        },
    }
}

} // verus!
