//! The clock, days in UTC, and points in time as texts.

use chrono::{DateTime, Utc};
use std::time::{Duration, SystemTime, SystemTimeError, UNIX_EPOCH};
use vstd::prelude::*;

verus! {

#[verifier::external_type_specification]
#[verifier::external_body]
pub struct ExSystemTime(SystemTime);

#[verifier::external_type_specification]
#[verifier::external_body]
pub struct ExSystemTimeError(SystemTimeError);

/// `SystemTime::now`. Nothing is claimed of the time that it gives.
#[verifier::external_body]
fn system_now() -> (r: SystemTime) {
    SystemTime::now()
}

/// `SystemTime::duration_since`, from the Unix epoch. Nothing is claimed of the
/// duration; there is none where the time lies before the epoch.
#[verifier::external_body]
fn since_epoch(time: &SystemTime) -> (r: Result<Duration, SystemTimeError>) {
    time.duration_since(UNIX_EPOCH)
}

/// `Duration::as_millis`. Nothing is claimed of the number.
#[verifier::external_body]
fn whole_millis(duration: &Duration) -> (r: u128) {
    duration.as_millis()
}

/// A count of milliseconds as a timestamp: the count itself as far as an `i64`
/// can hold it, its low 64 bits beyond that.
pub fn timestamp(millis: u128) -> (r: i64)
    ensures
        r == millis as i64,
        millis <= i64::MAX ==> r == millis,
{
    millis as i64
}

/// The timestamp for the milliseconds that have elapsed since the Unix epoch;
/// nothing, and only then, where the clock stands before the epoch.
pub fn stamp(elapsed: Result<u128, SystemTimeError>) -> (r: Option<i64>)
    ensures
        match elapsed {
            Ok(millis) => r == Some(millis as i64),
            Err(_) => r is None,
        },
{
    match elapsed {
        Ok(millis) => Some(timestamp(millis)),
        Err(_) => None,
    }
}

/// Milliseconds since the Unix epoch, by the system clock; nothing where the
/// clock stands before the epoch. What the clock says is not stated: `stamp` says
/// what becomes of it.
pub fn now_ms() -> (r: Option<i64>) {
    stamp(
        match since_epoch(&system_now()) {
            Ok(elapsed) => Ok(whole_millis(&elapsed)),
            Err(e) => Err(e),
        },
    )
}

/// The first millisecond that chrono can hold: the start of the year -262143.
pub const EARLIEST_MS: i64 = -8_334_601_228_800_000;

/// The last millisecond that chrono can hold: the end of the year 262142.
pub const LATEST_MS: i64 = 8_210_266_876_799_999;

pub const DAY_MS: i64 = 86_400_000;

/// The millisecond lies in the years that chrono can hold.
pub open spec fn in_calendar(ms: i64) -> bool {
    EARLIEST_MS <= ms <= LATEST_MS
}

/// The last midnight in UTC at or before the given millisecond.
pub open spec fn midnight(ms: int) -> int {
    ms - ms % (DAY_MS as int)
}

/// `Utc::now`, in milliseconds since the Unix epoch (`DateTime::timestamp_millis`).
/// Whatever the clock says, a `DateTime<Utc>` lies between `MIN_UTC` and `MAX_UTC`;
/// a clock that stands before the epoch ends the program.
#[verifier::external_body]
fn utc_now() -> (r: i64)
    ensures
        in_calendar(r),
{
    Utc::now().timestamp_millis()
}

/// The calendar day of a point in time (`DateTime::from_timestamp_millis`,
/// `DateTime::date_naive`), taken at midnight (`NaiveDate::and_hms_opt`) and back
/// in milliseconds since the Unix epoch: the last midnight in UTC.
#[verifier::external_body]
fn utc_midnight(ms: i64) -> (r: i64)
    requires
        in_calendar(ms),
    ensures
        r == midnight(ms as int),
{
    DateTime::from_timestamp_millis(ms)
        .unwrap()
        .date_naive()
        .and_hms_opt(0, 0, 0)
        .unwrap()
        .and_utc()
        .timestamp_millis()
}

/// The current time in UTC, in milliseconds since the Unix epoch.
pub fn utc_now_ms() -> (r: i64)
    ensures
        in_calendar(r),
{
    utc_now()
}

/// The whole second that the given millisecond lies in.
pub fn seconds(ms: i64) -> (r: i64)
    ensures
        r == ms as int / 1000,
{
    match ms.checked_div_euclid(1000) {
        Some(s) => s,
        None => 0,
    }
}

/// Midnight in UTC of the day that the given millisecond lies in.
pub fn day_start(ms: i64) -> (r: i64)
    requires
        in_calendar(ms),
    ensures
        r == midnight(ms as int),
        r <= ms < r + DAY_MS,
        r % DAY_MS == 0,
{
    let r: i64 = utc_midnight(ms);
    assert(r % DAY_MS == 0 && r <= ms < r + DAY_MS) by {
        vstd::arithmetic::div_mod::lemma_fundamental_div_mod(ms as int, DAY_MS as int);
        vstd::arithmetic::div_mod::lemma_mod_multiples_basic(
            (ms as int) / (DAY_MS as int),
            DAY_MS as int,
        );
        vstd::arithmetic::div_mod::lemma_mod_bound(ms as int, DAY_MS as int);
        vstd::arithmetic::mul::lemma_mul_is_commutative(DAY_MS as int, (ms as int) / (DAY_MS as int));
    }
    r
}

/// The point in time, in milliseconds since the Unix epoch, that chrono reads
/// from an RFC 3339 text; nothing where it does not take the text for one.
pub uninterp spec fn rfc3339_ms(text: Seq<char>) -> Option<i64>;

/// `DateTime::parse_from_rfc3339`, the result in milliseconds since the Unix
/// epoch (`DateTime::timestamp_millis`): a function of the text.
#[verifier::external_body]
pub(crate) fn parse_rfc3339(text: &str) -> (r: Option<i64>)
    ensures
        r == rfc3339_ms(text@),
{
    DateTime::parse_from_rfc3339(text).ok().map(|time| time.timestamp_millis())
}

} // verus!
