//! Reading JSON documents.
//!
//! Documents are parsed and walked by `serde_json`. What this library knows of
//! a parsed value is its [`Json`] model. The functions that reach into
//! `serde_json` stand at the end of this file; their contracts are taken on
//! trust, and everything else is proved from them.

use crate::views::text_of;
use vstd::prelude::*;

verus! {

/// The shape of a JSON value: its kind, the text of a string, the items of
/// an array and the members of an object. Which boolean or which number a
/// value is, is not part of the model.
pub ghost enum Json {
    Null,
    Bool,
    Number,
    Text(Seq<char>),
    List(Seq<Json>),
    Record(Map<Seq<char>, Json>),
}

impl Json {
    /// The member `key` of an object; `Null` where `self` is no object or has
    /// no such member.
    pub open spec fn member(self, key: Seq<char>) -> Json {
        match self {
            Json::Record(members) => if members.dom().contains(key) {
                members[key]
            } else {
                Json::Null
            },
            _ => Json::Null,
        }
    }

    /// The item at `index` of an array; `Null` where `self` is no array or is
    /// too short.
    pub open spec fn item(self, index: int) -> Json {
        match self {
            Json::List(items) => if 0 <= index < items.len() {
                items[index]
            } else {
                Json::Null
            },
            _ => Json::Null,
        }
    }

    /// The text of a string; `None` for every other kind of value.
    pub open spec fn text(self) -> Option<Seq<char>> {
        match self {
            Json::Text(text) => Some(text),
            _ => None,
        }
    }
}

/// The model of the value that `serde_json` parses the whole of `text` into,
/// or `None` where it rejects `text`.
pub uninterp spec fn json_document(text: Seq<char>) -> Option<Json>;

/// The model of a parsed value: `Null`, `Bool` and `Number` for a null, a
/// boolean and a number, `Text` with the characters of a string, `List` with
/// the models of an array's items in their order, and `Record` with the
/// models of an object's members under their names.
pub uninterp spec fn json_model(value: serde_json::Value) -> Json;

#[verifier::external_type_specification]
#[verifier::external_body]
pub struct ExValue(serde_json::Value);

#[verifier::external_type_specification]
#[verifier::external_body]
pub struct ExError(serde_json::Error);

/// Parses `text` as one JSON document; `None` where it is none.
pub(crate) fn parse(text: &str) -> (document: Option<serde_json::Value>)
    ensures
        document matches Some(value) ==> json_document(text@) == Some(json_model(value)),
        document is None ==> json_document(text@) is None,
{
    match from_str(text) {
        Ok(value) => Some(value),
        Err(_) => None,
    }
}

/// The text of `value` as a string of its own, where `value` is a string.
pub(crate) fn owned_text(value: &serde_json::Value) -> (text: Option<String>)
    ensures
        text_of(text) == json_model(*value).text(),
{
    match as_str(value) {
        Some(text) => Some(text.to_owned()),
        None => None,
    }
}

/// `serde_json::from_str` at the type `serde_json::Value`. The contract
/// claims that whether it succeeds, and the model of the value it gives,
/// depend on `text` alone: they are what [`json_document`] names.
#[verifier::external_body]
pub(crate) fn from_str(text: &str) -> (parsed: Result<serde_json::Value, serde_json::Error>)
    ensures
        parsed matches Ok(value) ==> json_document(text@) == Some(json_model(value)),
        parsed is Err ==> json_document(text@) is None,
{
    serde_json::from_str::<serde_json::Value>(text)
}

/// The index operator of `serde_json::Value` with a string. The contract
/// claims what its documentation says: it gives the member of that name, or
/// a null where `value` is no object or has no such member.
#[verifier::external_body]
pub(crate) fn member<'a>(value: &'a serde_json::Value, key: &str) -> (found: &'a serde_json::Value)
    ensures
        json_model(*found) == json_model(*value).member(key@),
{
    &value[key]
}

/// The index operator of `serde_json::Value` with a number. The contract
/// claims what its documentation says: it gives the item at that place, or a
/// null where `value` is no array or is too short.
#[verifier::external_body]
pub(crate) fn item<'a>(value: &'a serde_json::Value, index: usize) -> (found: &'a serde_json::Value)
    ensures
        json_model(*found) == json_model(*value).item(index as int),
{
    &value[index]
}

/// `serde_json::Value::as_str`. The contract claims what its documentation
/// says: it gives the text of a string, and `None` for every other kind of
/// value.
#[verifier::external_body]
pub(crate) fn as_str<'a>(value: &'a serde_json::Value) -> (text: Option<&'a str>)
    ensures
        text is Some == json_model(*value).text() is Some,
        text matches Some(t) ==> json_model(*value).text() == Some(t@),
{
    value.as_str()
}

} // verus!
