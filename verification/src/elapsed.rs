//! How long ago a release was, in whole hours, and how that is worded.

use crate::decimal::{decimal, decimal_string};
use vstd::prelude::*;
use vstd::string::*;

verus! {

/// The seconds of an hour.
pub const SECONDS_PER_HOUR: i64 = 3600;

/// The whole hours in a span of `seconds`, rounded toward zero.
pub open spec fn whole_hours(seconds: int) -> int {
    if seconds >= 0 {
        seconds / (SECONDS_PER_HOUR as int)
    } else {
        -((-seconds) / (SECONDS_PER_HOUR as int))
    }
}

/// What follows the word `hour` for a count of `hours`: nothing for 0 and for
/// 1, an `s` for every other count.
pub open spec fn plural_ending(hours: int) -> Seq<char> {
    if hours == 0 || hours == 1 {
        Seq::empty()
    } else {
        "s"@
    }
}

/// The wording of a span of `hours`: the count in decimal, ` hour`, the
/// plural ending, and ` ago`.
pub open spec fn phrase(hours: int) -> Seq<char> {
    decimal(hours) + " hour"@ + plural_ending(hours) + " ago"@
}

/// The whole hours from the instant `released` to the instant `now`, both in
/// Unix seconds; negative where `released` is the later one.
pub fn hours_between(now: i64, released: i64) -> (hours: i64)
    ensures
        hours == whole_hours(now - released),
{
    let span: i128 = now as i128 - released as i128;
    let hours: i128 = span / (SECONDS_PER_HOUR as i128);
    hours as i64
}

/// Words a span of `hours`.
pub fn elapsed_phrase(hours: i64) -> (text: String)
    ensures
        text@ == phrase(hours as int),
{
    let mut text = decimal_string(hours);
    text.append(" hour");
    if hours != 0 && hours != 1 {
        text.append("s");
    }
    text.append(" ago");
    text
}

} // verus!
