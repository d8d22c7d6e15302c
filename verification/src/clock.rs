//! Readings of the system clock and parsing of RFC 3339 times, through chrono.

use vstd::prelude::*;

verus! {

/// Calls `chrono::Utc::now()` and formats it with `to_rfc3339`. The reading
/// depends on the clock, so nothing is stated of it.
#[verifier::external_body]
pub(crate) fn now_rfc3339() -> (r: String) {
    chrono::Utc::now().to_rfc3339()
}

/// Calls `chrono::Utc::now()` and formats it as `%Y%m%d%H%M%S`, the form of
/// Maven's `lastUpdated`. The reading depends on the clock, so nothing is
/// stated of it.
#[verifier::external_body]
pub(crate) fn now_compact_timestamp() -> (r: String) {
    chrono::Utc::now().format("%Y%m%d%H%M%S").to_string()
}

/// Calls `chrono::Utc::now()` and takes its Unix time as whole seconds and
/// the nanoseconds past them. The reading depends on the clock; of it only
/// what `timestamp_subsec_nanos` documents is stated: the nanoseconds are
/// below 2 000 000 000 (above 999 999 999 only in a leap second).
#[verifier::external_body]
pub(crate) fn now_unix_instant() -> (r: (i64, u32))
    ensures
        r.1 < 2_000_000_000,
{
    let now = chrono::Utc::now();
    (now.timestamp(), now.timestamp_subsec_nanos())
}

/// Calls `chrono::Utc::now()` once and gives that time and the time
/// `seconds` later, both formatted with `to_rfc3339`. The reading depends on
/// the clock, so the times themselves are not stated. `to_rfc3339` writes
/// every digit of the nanoseconds, and adding `TimeDelta::seconds` moves the
/// time by exactly that many seconds, so where both texts read back through
/// `parse_from_rfc3339`, the second is `seconds` after the first, to the
/// nanosecond.
#[verifier::external_body]
pub(crate) fn now_and_later_rfc3339(seconds: i64) -> (r: (String, String))
    requires
        0 <= seconds <= 1_000_000_000,
    ensures
        rfc3339_instant(r.0@) matches Some(a) ==> (rfc3339_instant(r.1@) matches Some(b) ==> (b.0 == a.0 + seconds
            && b.1 == a.1)),
{
    let now = chrono::Utc::now();
    (now.to_rfc3339(), (now + chrono::Duration::seconds(seconds)).to_rfc3339())
}

/// The Unix time of an RFC 3339 date and time, as whole seconds and the
/// nanoseconds past them, as `chrono::DateTime::parse_from_rfc3339` reads
/// it; `None` for text that it refuses.
pub uninterp spec fn rfc3339_instant(s: Seq<char>) -> Option<(i64, u32)>;

/// Calls `chrono::DateTime::parse_from_rfc3339` and takes the Unix time of
/// the result (`timestamp` and `timestamp_subsec_nanos`). What it returns
/// is named by `rfc3339_instant` of the text; the nanoseconds are below
/// 2 000 000 000, as `timestamp_subsec_nanos` documents.
#[verifier::external_body]
pub(crate) fn parse_rfc3339_instant(s: &str) -> (r: Option<(i64, u32)>)
    ensures
        r == rfc3339_instant(s@),
        r matches Some(t) ==> t.1 < 2_000_000_000,
{
    match chrono::DateTime::parse_from_rfc3339(s) {
        Ok(t) => Some((t.timestamp(), t.timestamp_subsec_nanos())),
        Err(_) => None,
    }
}

} // verus!
