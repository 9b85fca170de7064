//! Timestamp parsing, delegated to the calendar library.
//!
//! The wire carries instants as RFC 3339 strings.  What such a string
//! denotes is a pure function of its characters; the library leaves the
//! calendar arithmetic to the outside crate and names its result.

use vstd::prelude::*;

verus! {

/// The instant an RFC 3339 string denotes, as signed milliseconds since
/// the Unix epoch; `None` when the string is not a valid RFC 3339
/// date-time.
pub uninterp spec fn rfc3339_epoch_ms(s: Seq<char>) -> Option<i64>;

/// Relies on chrono's `DateTime::parse_from_rfc3339` and
/// `DateTime::timestamp_millis`: parsing and the epoch conversion are
/// pure functions of the string alone.
#[verifier::external_body]
pub fn parse_rfc3339_epoch_ms(s: &str) -> (r: Option<i64>)
    ensures
        r == rfc3339_epoch_ms(s@),
{
    match chrono::DateTime::parse_from_rfc3339(s) {
        Ok(dt) => Some(dt.timestamp_millis()),
        Err(_) => None,
    }
}

} // verus!
