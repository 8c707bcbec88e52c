//! Calendar times for the creation timestamp, through `chrono`.

use vstd::prelude::*;

verus! {

/// `chrono`'s date and time without a time zone, carried through as an opaque
/// value.
#[verifier::external_type_specification]
#[verifier::external_body]
pub struct ExNaiveDateTime(chrono::NaiveDateTime);

/// The calendar time that lies `secs` seconds and `nsecs` nanoseconds after
/// 1970-01-01 00:00:00 UTC, as `chrono` computes it; `None` where `chrono`
/// has no such time.
pub uninterp spec fn datetime_at(secs: i64, nsecs: u32) -> Option<chrono::NaiveDateTime>;

/// `chrono::DateTime::from_timestamp`, read off as a naive time with
/// `naive_local` (the time is in UTC, so that no offset is added).
///
/// The result depends on the two arguments alone. `from_timestamp` answers
/// with a time whenever the day is within `chrono`'s range of about 262,000
/// years and the nanoseconds are under a second; both hold for the inputs
/// named in the second clause.
#[verifier::external_body]
pub(crate) fn datetime_from_timestamp(secs: i64, nsecs: u32) -> (r: Option<chrono::NaiveDateTime>)
    ensures
        r == datetime_at(secs, nsecs),
        0 <= secs < 0x100_0000_0000 && nsecs < 1_000_000_000 ==> r is Some,
{
    match chrono::DateTime::from_timestamp(secs, nsecs) {
        Some(t) => Some(t.naive_local()),
        None => None,
    }
}

} // verus!
