//! Reading RFC 3339 timestamps.
//!
//! The parsing is `chrono`'s. The one function that reaches into `chrono` is
//! the private one at the end of this file, and its contract is taken on trust.

use crate::views::seconds_of;
use vstd::prelude::*;

verus! {

/// The instant that `chrono` reads from `text` as an RFC 3339 date and time,
/// in whole seconds since 1970-01-01T00:00:00Z without leap seconds, or
/// `None` where it rejects `text`.
pub uninterp spec fn rfc3339_seconds(text: Seq<char>) -> Option<int>;

#[verifier::external_type_specification]
#[verifier::external_body]
pub struct ExParseError(chrono::ParseError);

/// Reads `text` as an RFC 3339 date and time and gives its instant in Unix
/// seconds; `None` where `text` is no such date and time.
pub fn unix_seconds(text: &str) -> (seconds: Option<i64>)
    ensures
        seconds_of(seconds) == rfc3339_seconds(text@),
{
    match parse_rfc3339(text) {
        Ok(t) => Some(t),
        Err(_) => None,
    }
}

/// `chrono::DateTime::parse_from_rfc3339`, and `chrono::DateTime::timestamp`
/// to turn what was parsed into seconds. The contract claims that whether
/// the parsing succeeds, and the seconds it gives, depend on `text` alone:
/// they are what [`rfc3339_seconds`] names.
#[verifier::external_body]
fn parse_rfc3339(text: &str) -> (r: Result<i64, chrono::ParseError>)
    ensures
        r matches Ok(t) ==> rfc3339_seconds(text@) == Some(t as int),
        r is Err ==> rfc3339_seconds(text@) is None,
{
    match chrono::DateTime::parse_from_rfc3339(text) {
        Ok(moment) => Ok(moment.timestamp()),
        Err(e) => Err(e),
    }
}

} // verus!
