//! Time readings and timestamp rendering.
//!
//! Timestamps travel through the library as Unix seconds; rendering them
//! in the wire formats peers parse is delegated to chrono behind trusted
//! wrappers whose results are named. Reading the clock is a trusted call
//! with no contract: nothing can be promised of the time now.

use vstd::prelude::*;

verus! {

/// The highest second this library renders as a calendar date: the last
/// second of year 9999, comfortably inside chrono's documented range.
pub const MAX_RENDERED_UNIX_SECS: i64 = 253402300799;

/// A Unix second rendered as `YYYY-MM-DD HH:MM:SS` in UTC, the fixed wire
/// format of actor-document timestamps.
pub uninterp spec fn wire_timestamp(secs: int) -> Seq<char>;

/// A Unix second rendered as RFC 1123, e.g. `Tue, 27 Feb 2024 06:17:54 GMT`.
pub uninterp spec fn rfc1123_timestamp(secs: int) -> Seq<char>;

/// A Unix second rendered as ISO 8601, e.g. `2024-02-27T06:17:54Z`.
pub uninterp spec fn iso8601_timestamp(secs: int) -> Seq<char>;

/// Relies on `chrono::DateTime::from_timestamp`, which its documentation
/// says is `None` only out of range, and on formatting a UTC datetime
/// with `%Y-%m-%d %H:%M:%S`: a fixed-format rendering, a function of the
/// second alone, named by `wire_timestamp`.
#[verifier::external_body]
pub fn format_wire_timestamp(secs: i64) -> (r: Option<String>)
    ensures
        r matches Some(s) ==> s@ == wire_timestamp(secs as int),
        0 <= secs <= MAX_RENDERED_UNIX_SECS ==> r is Some,
{
    let dt = chrono::DateTime::from_timestamp(secs, 0)?;
    Some(dt.format("%Y-%m-%d %H:%M:%S").to_string())
}

/// Relies on `chrono::DateTime::from_timestamp` and formatting a UTC
/// datetime with `%a, %d %b %Y %H:%M:%S GMT`; a function of the second
/// alone, named by `rfc1123_timestamp`.
#[verifier::external_body]
pub fn format_rfc1123_timestamp(secs: i64) -> (r: Option<String>)
    ensures
        r matches Some(s) ==> s@ == rfc1123_timestamp(secs as int),
        0 <= secs <= MAX_RENDERED_UNIX_SECS ==> r is Some,
{
    let dt = chrono::DateTime::from_timestamp(secs, 0)?;
    Some(dt.format("%a, %d %b %Y %H:%M:%S GMT").to_string())
}

/// Relies on `chrono::DateTime::from_timestamp` and formatting a UTC
/// datetime with `%Y-%m-%dT%H:%M:%SZ`; a function of the second alone,
/// named by `iso8601_timestamp`.
#[verifier::external_body]
pub fn format_iso8601_timestamp(secs: i64) -> (r: Option<String>)
    ensures
        r matches Some(s) ==> s@ == iso8601_timestamp(secs as int),
        0 <= secs <= MAX_RENDERED_UNIX_SECS ==> r is Some,
{
    let dt = chrono::DateTime::from_timestamp(secs, 0)?;
    Some(dt.format("%Y-%m-%dT%H:%M:%SZ").to_string())
}

/// Relies on `chrono::Utc::now`. The reading depends on the system clock,
/// so nothing is promised of it.
#[verifier::external_body]
pub fn now_unix() -> i64 {
    chrono::Utc::now().timestamp()
}

/// The current time in RFC 1123 form, e.g. for a `Date` header.
pub fn get_current_time_in_rfc_1123() -> (r: Option<String>)
    ensures
        r matches Some(s) ==> exists|t: int| s@ == rfc1123_timestamp(t),
{
    let now = now_unix();
    let r = format_rfc1123_timestamp(now);
    proof {
        if r is Some {
            assert(r->0@ == rfc1123_timestamp(now as int));
        }
    }
    r
}

/// The current time in ISO 8601 form, e.g. for an activity's `published`
/// field.
pub fn get_current_time_in_iso_8601() -> (r: Option<String>)
    ensures
        r matches Some(s) ==> exists|t: int| s@ == iso8601_timestamp(t),
{
    let now = now_unix();
    let r = format_iso8601_timestamp(now);
    proof {
        if r is Some {
            assert(r->0@ == iso8601_timestamp(now as int));
        }
    }
    r
}

} // verus!
