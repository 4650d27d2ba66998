//! The clock, time-of-day parsing and RFC 3339 timestamps, through `chrono`.
use vstd::prelude::*;
use chrono::Timelike;

verus! {

/// What `chrono::NaiveTime::parse_from_str(s, fmt)` gives, as whole seconds
/// since midnight and the nanoseconds past that second (1,000,000,000 or
/// more inside a leap second), or `None` when parsing fails.
pub uninterp spec fn parsed_time_of_day(s: Seq<char>, fmt: Seq<char>) -> Option<(u32, u32)>;

/// Parses a time of day: `chrono::NaiveTime::parse_from_str(s, fmt)`, read
/// back with `num_seconds_from_midnight` and `nanosecond`. Claimed: the
/// result is the parse of these two strings and nothing else; a parsed time
/// has fewer than 86,400 whole seconds and fewer than 2,000,000,000
/// nanoseconds, as chrono documents for those two readings; and with the
/// format `%H:%M:%S`, which reads no fraction, the nanoseconds are 0, or
/// exactly 1,000,000,000 when the seconds read 60 (chrono's
/// `Parsed::to_naive_time`).
#[verifier::external_body]
pub(crate) fn parse_time_of_day(s: &str, fmt: &str) -> (r: Option<(u32, u32)>)
    ensures
        r == parsed_time_of_day(s@, fmt@),
        r matches Some((secs, nanos)) ==> secs < 86_400 && nanos < 2_000_000_000,
        fmt@ == "%H:%M:%S"@ ==> (r matches Some((secs, nanos)) ==> nanos == 0 || nanos
            == 1_000_000_000),
{
    match chrono::NaiveTime::parse_from_str(s, fmt) {
        Ok(t) => Some((t.num_seconds_from_midnight(), t.nanosecond())),
        Err(_) => None,
    }
}

/// The current time as a Unix timestamp: `chrono::Utc::now()`, read back with
/// `timestamp` and `timestamp_subsec_nanos`. Claimed: the seconds are not
/// negative and the nanoseconds are fewer than 1,000,000,000, since
/// `Utc::now` builds its value from the time elapsed since 1970 (it panics on
/// a clock set before then); and the reading has an RFC 3339 text, since
/// `Utc::now` itself is `DateTime::from_timestamp` of that reading, unwrapped.
/// Which time it is depends on the clock and is not stated.
#[verifier::external_body]
pub(crate) fn utc_now_timestamp() -> (r: (i64, u32))
    ensures
        r.0 >= 0,
        r.1 < 1_000_000_000,
        rfc3339_text(r.0, r.1) is Some,
{
    let now = chrono::Utc::now();
    (now.timestamp(), now.timestamp_subsec_nanos())
}

/// What `chrono::DateTime::from_timestamp(secs, nanos)` followed by
/// `to_rfc3339` gives, or `None` when chrono refuses the timestamp.
pub uninterp spec fn rfc3339_text(secs: i64, nanos: u32) -> Option<Seq<char>>;

/// The view of an optional string.
pub open spec fn opt_text(o: Option<String>) -> Option<Seq<char>> {
    match o {
        Some(s) => Some(s@),
        None => None,
    }
}

/// The RFC 3339 text of a Unix timestamp in UTC:
/// `chrono::DateTime::from_timestamp(secs, nanos)`, then `to_rfc3339`.
/// Claimed: the result is that of these two arguments and nothing else.
#[verifier::external_body]
pub(crate) fn rfc3339_at(secs: i64, nanos: u32) -> (r: Option<String>)
    ensures
        opt_text(r) == rfc3339_text(secs, nanos),
{
    match chrono::DateTime::from_timestamp(secs, nanos) {
        Some(t) => Some(t.to_rfc3339()),
        None => None,
    }
}

/// The RFC 3339 text of the Unix time `(secs, nanos)` in UTC, when chrono can
/// represent it.
pub fn timestamp_text(secs: i64, nanos: u32) -> (r: Option<String>)
    ensures
        opt_text(r) == rfc3339_text(secs, nanos),
{
    rfc3339_at(secs, nanos)
}

/// The current time as RFC 3339 text.
pub fn now_rfc3339() -> (r: String)
    ensures
        exists|secs: i64, nanos: u32|
            secs >= 0 && nanos < 1_000_000_000 && rfc3339_text(secs, nanos) == Some(r@),
{
    let (secs, nanos) = utc_now_timestamp();
    match timestamp_text(secs, nanos) {
        Some(t) => t,
        None => String::new(),
    }
}

} // verus!
