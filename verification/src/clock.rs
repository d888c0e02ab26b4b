//! The wall clock and the calendar.

use vstd::prelude::*;

verus! {

/// The calendar date, in UTC, of the moment `secs` seconds after the Unix
/// epoch, written `YYYY-MM-DD` as `chrono` does; `None` where `chrono` has no
/// date for it.
pub uninterp spec fn utc_date(secs: i64) -> Option<Seq<char>>;

/// `std::time::SystemTime`, a reading of the system clock. Nothing is known
/// of what a value holds.
#[verifier::external_type_specification]
#[verifier::external_body]
pub struct ExSystemTime(std::time::SystemTime);

/// `std::time::SystemTime::now`. Nothing is claimed of the reading: two
/// readings may differ.
#[verifier::external_body]
fn clock_reading() -> std::time::SystemTime {
    std::time::SystemTime::now()
}

/// `std::time::SystemTime::duration_since`, from the Unix epoch on; `None`
/// where std reports that the reading lies before the epoch. Nothing is
/// claimed of the duration.
#[verifier::external_body]
fn since_epoch(reading: &std::time::SystemTime) -> Option<std::time::Duration> {
    reading.duration_since(std::time::UNIX_EPOCH).ok()
}

/// `std::time::Duration::as_secs`: the whole seconds of a duration. Nothing
/// is claimed of the number.
#[verifier::external_body]
fn seconds_in(duration: &std::time::Duration) -> u64 {
    duration.as_secs()
}

/// The time that a count of seconds since the Unix epoch stands for: the
/// count itself, unless it is beyond what a signed 64-bit timestamp holds,
/// which no calendar function takes.
pub open spec fn seconds_of(count: u64) -> Option<u64> {
    if count <= i64::MAX {
        Some(count)
    } else {
        None
    }
}

/// Turns a count of seconds since the Unix epoch into a time.
pub(crate) fn whole_seconds(count: u64) -> (r: Option<u64>)
    ensures
        r == seconds_of(count),
{
    if count <= i64::MAX as u64 {
        Some(count)
    } else {
        None
    }
}

/// The time by the system clock, in whole seconds since the Unix epoch;
/// `None` when the clock stands before the epoch. Which time comes back is
/// the clock's to say; whatever it is, it fits a signed 64-bit timestamp, so
/// it is a time that the calendar functions take.
pub(crate) fn system_seconds() -> (r: Option<u64>)
    ensures
        r matches Some(secs) ==> secs <= i64::MAX,
{
    let reading = clock_reading();
    match since_epoch(&reading) {
        Some(duration) => whole_seconds(seconds_in(&duration)),
        None => None,
    }
}

/// `chrono::DateTime::from_timestamp` and the `Display` of the date it
/// holds. Trusted: the result is a function of `secs` alone.
#[verifier::external_body]
pub(crate) fn chrono_date(secs: i64) -> (r: Option<String>)
    ensures
        r is Some <==> utc_date(secs) is Some,
        r matches Some(text) ==> utc_date(secs) == Some(text@),
{
    chrono::DateTime::from_timestamp(secs, 0).map(|t| t.date_naive().to_string())
}

/// The date on which a timestamp falls, if it has one. A count of seconds
/// that a signed 64-bit number cannot hold has none.
pub open spec fn date_of(timestamp: u64) -> Option<Seq<char>> {
    if timestamp <= i64::MAX {
        utc_date(timestamp as i64)
    } else {
        None
    }
}

/// The date on which a timestamp falls, as text.
pub fn date_of_timestamp(timestamp: u64) -> (r: Option<String>)
    ensures
        r is Some <==> date_of(timestamp) is Some,
        r matches Some(text) ==> date_of(timestamp) == Some(text@),
{
    if timestamp <= i64::MAX as u64 {
        chrono_date(timestamp as i64)
    } else {
        None
    }
}

} // verus!
