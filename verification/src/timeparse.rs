use vstd::prelude::*;

verus! {

/// The instant named by an RFC 3339 date-time text, in nanoseconds since
/// the Unix epoch: `Some` exactly when the text is a valid RFC 3339
/// date-time whose instant those nanoseconds can express.
pub uninterp spec fn rfc3339_instant(s: Seq<char>) -> Option<i64>;

/// Relies on chrono's `DateTime::parse_from_rfc3339` and
/// `DateTime::timestamp_nanos_opt`.  Parsing is a pure function of the
/// text, and the nanosecond conversion a pure function of the parsed value,
/// so the composition is a function of the text alone; neither call panics.
#[verifier::external_body]
pub(crate) fn parse_rfc3339_nanos(s: &str) -> (r: Option<i64>)
    ensures
        r == rfc3339_instant(s@),
{
    match chrono::DateTime::parse_from_rfc3339(s) {
        Ok(dt) => dt.timestamp_nanos_opt(),
        Err(_) => None,
    }
}

} // verus!
