use mc_update_watcher::documents::{detail_from, manifest_from, DetailReading, ManifestReading};

const MANIFEST: &str = "{\"latest\": {\"release\": \"1.20.4\", \"snapshot\": \"24w14a\"}, \
    \"versions\": [{\"id\": \"24w14a\", \"type\": \"snapshot\", \
    \"url\": \"https://example.org/24w14a.json\"}, {\"id\": \"24w13a\", \"type\": \"snapshot\", \
    \"url\": \"https://example.org/24w13a.json\"}]}";

const DETAIL: &str = "{\"id\": \"24w14a\", \"releaseTime\": \"2024-04-03T12:00:00+00:00\", \
    \"type\": \"snapshot\"}";

fn manifest_of(text: &str) -> ManifestReading {
    manifest_from(&Some(text.to_string())).unwrap()
}

fn detail_of(text: &str) -> DetailReading {
    detail_from(&Some(text.to_string())).unwrap()
}

fn kind_of(text: &str) -> Option<String> {
    detail_of(text).kind
}

#[test]
fn a_manifest_is_read() {
    assert_eq!(
        manifest_of(MANIFEST),
        ManifestReading {
            snapshot: Some("24w14a".to_string()),
            detail_url: Some("https://example.org/24w14a.json".to_string()),
        }
    );
}

#[test]
fn every_document_has_a_reading() {
    let nothing = Some(ManifestReading { snapshot: None, detail_url: None });
    assert_eq!(manifest_from(&Some("{}".to_string())), nothing);
    assert_eq!(manifest_from(&Some("null".to_string())), nothing);
    assert_eq!(manifest_from(&Some(" [1, 2.5, true] ".to_string())), nothing);
    assert_eq!(manifest_from(&Some("\"latest\"".to_string())), nothing);
}

#[test]
fn no_body_and_no_document_give_no_manifest() {
    assert_eq!(manifest_from(&None), None);
    assert_eq!(manifest_from(&Some(String::new())), None);
    assert_eq!(manifest_from(&Some("{\"latest\": {\"snapshot\": \"a\"".to_string())), None);
    assert_eq!(manifest_from(&Some("<html></html>".to_string())), None);
    assert_eq!(manifest_from(&Some("{} {}".to_string())), None);
    assert_eq!(manifest_from(&Some("{'latest': 1}".to_string())), None);
}

#[test]
fn only_a_string_has_a_text() {
    assert_eq!(kind_of("{\"type\": \"snapshot\"}"), Some("snapshot".to_string()));
    assert_eq!(kind_of("{\"type\": \"\"}"), Some(String::new()));
    assert_eq!(kind_of("{\"type\": \"a\\u0041\\n\"}"), Some("aA\n".to_string()));
    assert_eq!(kind_of("{\"type\": null}"), None);
    assert_eq!(kind_of("{\"type\": true}"), None);
    assert_eq!(kind_of("{\"type\": 12}"), None);
    assert_eq!(kind_of("{\"type\": [\"snapshot\"]}"), None);
    assert_eq!(kind_of("{\"type\": {\"type\": \"snapshot\"}}"), None);
}

#[test]
fn the_first_listed_version_is_taken() {
    let text = "{\"latest\": {\"snapshot\": \"b\"}, \
        \"versions\": [{\"url\": \"first\"}, {\"url\": \"second\"}]}";
    assert_eq!(manifest_of(text).detail_url, Some("first".to_string()));
}

#[test]
fn a_manifest_without_a_snapshot() {
    assert_eq!(manifest_of("{\"versions\": [{\"url\": \"u\"}]}").snapshot, None);
    assert_eq!(manifest_of("{\"latest\": {\"release\": \"1.20.4\"}}").snapshot, None);
    assert_eq!(manifest_of("{\"latest\": {\"snapshot\": 7}}").snapshot, None);
    assert_eq!(manifest_of("{\"latest\": {\"snapshot\": null}}").snapshot, None);
    assert_eq!(manifest_of("{\"latest\": \"24w14a\"}").snapshot, None);
    assert_eq!(manifest_of("{\"latest\": [\"snapshot\"]}").snapshot, None);
    assert_eq!(manifest_of("[\"latest\", \"snapshot\"]").snapshot, None);
    assert_eq!(manifest_of("{\"Latest\": {\"snapshot\": \"a\"}}").snapshot, None);
}

#[test]
fn a_manifest_without_a_detail_address() {
    assert_eq!(manifest_of("{\"latest\": {\"snapshot\": \"a\"}}").detail_url, None);
    assert_eq!(manifest_of("{\"versions\": []}").detail_url, None);
    assert_eq!(manifest_of("{\"versions\": [{\"id\": \"a\"}]}").detail_url, None);
    assert_eq!(manifest_of("{\"versions\": [{\"url\": 3}]}").detail_url, None);
    assert_eq!(manifest_of("{\"versions\": {\"0\": {\"url\": \"u\"}}}").detail_url, None);
    assert_eq!(manifest_of("{\"versions\": [[\"url\"]]}").detail_url, None);
    assert_eq!(manifest_of("{\"versions\": [null, {\"url\": \"u\"}]}").detail_url, None);
}

#[test]
fn the_two_fields_of_a_manifest_are_read_apart() {
    assert_eq!(
        manifest_of("{\"latest\": {\"snapshot\": \"a\"}, \"versions\": []}"),
        ManifestReading { snapshot: Some("a".to_string()), detail_url: None }
    );
    assert_eq!(
        manifest_of("{\"versions\": [{\"url\": \"u\"}]}"),
        ManifestReading { snapshot: None, detail_url: Some("u".to_string()) }
    );
}

#[test]
fn a_repeated_member_counts_once() {
    let text = "{\"latest\": {\"snapshot\": \"a\"}, \"latest\": {\"snapshot\": \"b\"}}";
    assert_eq!(manifest_of(text).snapshot, Some("b".to_string()));
}

#[test]
fn a_detail_document_is_read() {
    assert_eq!(
        detail_of(DETAIL),
        DetailReading {
            release_time: Some("2024-04-03T12:00:00+00:00".to_string()),
            kind: Some("snapshot".to_string()),
        }
    );
}

#[test]
fn a_detail_document_with_missing_fields() {
    assert_eq!(
        detail_of("{\"type\": \"release\"}"),
        DetailReading { release_time: None, kind: Some("release".to_string()) }
    );
    assert_eq!(
        detail_of("{\"releaseTime\": \"soon\"}"),
        DetailReading { release_time: Some("soon".to_string()), kind: None }
    );
    assert_eq!(
        detail_of("{\"releaseTime\": 1712145600, \"type\": [\"snapshot\"]}"),
        DetailReading { release_time: None, kind: None }
    );
    assert_eq!(detail_of("[]"), DetailReading { release_time: None, kind: None });
}

#[test]
fn no_body_and_no_document_give_no_detail() {
    assert_eq!(detail_from(&None), None);
    assert_eq!(detail_from(&Some("not json".to_string())), None);
    assert_eq!(detail_from(&Some("{\"type\": \"snapshot\"".to_string())), None);
}
