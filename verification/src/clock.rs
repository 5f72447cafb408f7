//! Timestamps: the network reports transaction times as RFC 3339 text; local
//! rows carry microseconds since the Unix epoch.

use vstd::prelude::*;

verus! {

/// The UTC timestamp, in microseconds since the Unix epoch, of an RFC 3339
/// string; `None` when the text does not parse. The result is a function of
/// the text alone.
pub uninterp spec fn rfc3339_utc_micros(text: Seq<char>) -> Option<int>;

/// Relies on chrono::DateTime::parse_from_rfc3339 and
/// DateTime::timestamp_micros.
#[verifier::external_body]
pub(crate) fn parse_rfc3339_micros(text: &str) -> (r: Option<i64>)
    ensures
        r is Some <==> rfc3339_utc_micros(text@) is Some,
        r matches Some(v) ==> rfc3339_utc_micros(text@) == Some(v as int),
{
    match chrono::DateTime::parse_from_rfc3339(text) {
        Ok(d) => Some(d.timestamp_micros()),
        Err(_) => None,
    }
}

/// Relies on chrono::Utc::now and DateTime::timestamp_micros: the current
/// time in microseconds since the Unix epoch. Nothing is promised of the
/// value.
#[verifier::external_body]
pub(crate) fn now_utc_micros() -> i64 {
    chrono::Utc::now().timestamp_micros()
}

} // verus!
