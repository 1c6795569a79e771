//! The local clock: the current instant and the local time zone's offset.

use vstd::prelude::*;

verus! {

/// `std::time::SystemTime::now()`: the system clock's current reading. Nothing is
/// promised of the value.
#[verifier::external_body]
fn system_now() -> std::time::SystemTime {
    std::time::SystemTime::now()
}

/// `SystemTime::duration_since(UNIX_EPOCH)`, with its error turned into `None`:
/// the time since the Unix epoch, or `None` when the clock reads before it.
/// Nothing more is promised.
#[verifier::external_body]
fn since_unix_epoch(t: &std::time::SystemTime) -> Option<std::time::Duration> {
    t.duration_since(std::time::UNIX_EPOCH).ok()
}

/// `Duration::as_nanos`: whole nanoseconds of a duration. Nothing is promised of
/// the value, as the duration's contents are not visible here.
#[verifier::external_body]
fn duration_nanos(d: &std::time::Duration) -> u128 {
    d.as_nanos()
}

/// `chrono`'s `Local.offset_from_utc_datetime` for the instant `utc_nanos`
/// nanoseconds after the Unix epoch (made with `DateTime::from_timestamp_nanos`,
/// which takes every `i64`), as seconds east of UTC (`local_minus_utc`). Nothing
/// is promised of the value: it is the time zone's. Left unsaid as a fact of the
/// code: chrono unwraps the zone's answer, so it panics when the system's zone
/// data gives an offset of a whole day or more, which no valid zone has; for an
/// instant an `i64` of nanoseconds can hold, the zone lookup itself is in range.
#[verifier::external_body]
fn local_offset_secs(utc_nanos: i64) -> i32 {
    chrono::TimeZone::offset_from_utc_datetime(
        &chrono::Local,
        &chrono::DateTime::from_timestamp_nanos(utc_nanos).naive_utc(),
    ).local_minus_utc()
}

/// The current instant as nanoseconds since the Unix epoch, with the local
/// offset from UTC in seconds at that instant; `None` when the clock reads before
/// the epoch or too far after it for an `i64` of nanoseconds.
pub(crate) fn local_now() -> (r: Option<(i64, i32)>)
    ensures
        r matches Some(p) ==> p.0 >= 0,
{
    let now = system_now();
    match since_unix_epoch(&now) {
        Some(d) => {
            let n = duration_nanos(&d);
            if n > i64::MAX as u128 {
                None
            } else {
                let utc_nanos = n as i64;
                Some((utc_nanos, local_offset_secs(utc_nanos)))
            }
        },
        None => None,
    }
}

/// Local wall-clock time as nanoseconds since 1970-01-01 00:00:00, for an instant
/// (nanoseconds since the Unix epoch) and a UTC offset in seconds; `None` when it
/// does not fit in an `i64`.
pub fn local_wall_nanos(utc_nanos: i64, offset_secs: i32) -> (r: Option<i64>)
    ensures
        ({
            let v = utc_nanos + offset_secs * 1_000_000_000int;
            &&& (i64::MIN <= v <= i64::MAX) ==> r == Some(v as i64)
            &&& !(i64::MIN <= v <= i64::MAX) ==> r is None
        }),
{
    let shift: i128 = (offset_secs as i128) * 1_000_000_000;
    let v: i128 = (utc_nanos as i128) + shift;
    if v < i64::MIN as i128 || v > i64::MAX as i128 {
        None
    } else {
        Some(v as i64)
    }
}

} // verus!
