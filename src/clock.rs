use vstd::prelude::*;

verus! {

/// The instant that an RFC 3339 text names, in microseconds since the Unix
/// epoch, or `None` where the text is no RFC 3339 date and time.
pub uninterp spec fn rfc3339_micros(s: Seq<char>) -> Option<i64>;

/// Relies on `chrono::Utc::now`: the current time in microseconds since
/// the Unix epoch.
#[verifier::external_body]
pub(crate) fn now_micros() -> (r: i64) {
    chrono::Utc::now().timestamp_micros()
}

/// Relies on `chrono::DateTime::parse_from_rfc3339`, read as microseconds
/// since the Unix epoch.
#[verifier::external_body]
pub(crate) fn parse_rfc3339(s: &str) -> (r: Option<i64>)
    ensures
        r == rfc3339_micros(s@),
{
    chrono::DateTime::parse_from_rfc3339(s).ok().map(|t| t.timestamp_micros())
}

} // verus!
