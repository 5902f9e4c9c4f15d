//! What the watcher reads from the two documents it fetches.

use crate::json::{item, json_document, json_model, member, owned_text, parse, Json};
use crate::views::text_of;
use vstd::prelude::*;

verus! {

/// What the watcher reads from a version manifest. A field is `None` where
/// the manifest does not hold a string at its place.
#[derive(Debug, PartialEq, Eq)]
pub struct ManifestReading {
    /// The identifier of the latest snapshot, at `latest.snapshot`.
    pub snapshot: Option<String>,
    /// The address of the first listed version's detail document, at
    /// `versions[0].url`.
    pub detail_url: Option<String>,
}

/// A manifest reading as contracts speak of it.
pub ghost struct ManifestReadingView {
    pub snapshot: Option<Seq<char>>,
    pub detail_url: Option<Seq<char>>,
}

impl View for ManifestReading {
    type V = ManifestReadingView;

    open spec fn view(&self) -> ManifestReadingView {
        ManifestReadingView {
            snapshot: text_of(self.snapshot),
            detail_url: text_of(self.detail_url),
        }
    }
}

/// What the watcher reads from a version's detail document.
#[derive(Debug, PartialEq, Eq)]
pub struct DetailReading {
    /// The release timestamp, at `releaseTime`.
    pub release_time: Option<String>,
    /// The kind of the version, such as `snapshot` or `release`, at `type`.
    pub kind: Option<String>,
}

/// A detail reading as contracts speak of it.
pub ghost struct DetailReadingView {
    pub release_time: Option<Seq<char>>,
    pub kind: Option<Seq<char>>,
}

impl View for DetailReading {
    type V = DetailReadingView;

    open spec fn view(&self) -> DetailReadingView {
        DetailReadingView {
            release_time: text_of(self.release_time),
            kind: text_of(self.kind),
        }
    }
}

/// The reading of the manifest `document`. The first entry of `versions` is
/// taken to be the newest; the list is neither sorted nor searched.
pub open spec fn manifest_reading(document: Json) -> ManifestReadingView {
    ManifestReadingView {
        snapshot: document.member("latest"@).member("snapshot"@).text(),
        detail_url: document.member("versions"@).item(0).member("url"@).text(),
    }
}

/// The reading of the detail `document`.
pub open spec fn detail_reading(document: Json) -> DetailReadingView {
    DetailReadingView {
        release_time: document.member("releaseTime"@).text(),
        kind: document.member("type"@).text(),
    }
}

/// The reading of the manifest in a response `body`: `None` where there is
/// no body or the body is not a JSON document.
pub open spec fn manifest_in(body: Option<Seq<char>>) -> Option<ManifestReadingView> {
    match body {
        Some(text) => match json_document(text) {
            Some(document) => Some(manifest_reading(document)),
            None => None,
        },
        None => None,
    }
}

/// The reading of the detail document in a response `body`: `None` where
/// there is no body or the body is not a JSON document.
pub open spec fn detail_in(body: Option<Seq<char>>) -> Option<DetailReadingView> {
    match body {
        Some(text) => match json_document(text) {
            Some(document) => Some(detail_reading(document)),
            None => None,
        },
        None => None,
    }
}

/// A view of an optional manifest reading.
pub open spec fn manifest_view(reading: Option<ManifestReading>) -> Option<ManifestReadingView> {
    match reading {
        Some(r) => Some(r@),
        None => None,
    }
}

/// A view of an optional detail reading.
pub open spec fn detail_view(reading: Option<DetailReading>) -> Option<DetailReadingView> {
    match reading {
        Some(r) => Some(r@),
        None => None,
    }
}

/// Reads a parsed manifest.
pub(crate) fn read_manifest(document: &serde_json::Value) -> (reading: ManifestReading)
    ensures
        reading@ == manifest_reading(json_model(*document)),
{
    let snapshot = owned_text(member(member(document, "latest"), "snapshot"));
    let detail_url = owned_text(member(item(member(document, "versions"), 0), "url"));
    ManifestReading { snapshot, detail_url }
}

/// Reads a parsed detail document.
pub(crate) fn read_detail(document: &serde_json::Value) -> (reading: DetailReading)
    ensures
        reading@ == detail_reading(json_model(*document)),
{
    let release_time = owned_text(member(document, "releaseTime"));
    let kind = owned_text(member(document, "type"));
    DetailReading { release_time, kind }
}

/// Reads the manifest in a response body, if the body holds one.
pub fn manifest_from(body: &Option<String>) -> (reading: Option<ManifestReading>)
    ensures
        manifest_view(reading) == manifest_in(text_of(*body)),
{
    match body {
        Some(text) => match parse(text.as_str()) {
            Some(document) => Some(read_manifest(&document)),
            None => None,
        },
        None => None,
    }
}

/// Reads the detail document in a response body, if the body holds one.
pub fn detail_from(body: &Option<String>) -> (reading: Option<DetailReading>)
    ensures
        detail_view(reading) == detail_in(text_of(*body)),
{
    match body {
        Some(text) => match parse(text.as_str()) {
            Some(document) => Some(read_detail(&document)),
            None => None,
        },
        None => None,
    }
}

} // verus!
