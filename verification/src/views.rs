//! How contracts see optional texts, lists of texts and optional counts:
//! as their characters and as integers.

use vstd::prelude::*;

verus! {

/// The characters of an optional text.
pub open spec fn text_of(text: Option<String>) -> Option<Seq<char>> {
    match text {
        Some(t) => Some(t@),
        None => None,
    }
}

/// The characters of each of `texts`.
pub open spec fn texts_of(texts: Seq<String>) -> Seq<Seq<char>> {
    Seq::new(texts.len(), |i: int| texts[i]@)
}

/// An optional count of seconds as an integer.
pub open spec fn seconds_of(seconds: Option<i64>) -> Option<int> {
    match seconds {
        Some(s) => Some(s as int),
        None => None,
    }
}

} // verus!
