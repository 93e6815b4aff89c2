//! The lyrics lookup: URL building and response reading.

use lyrics_pipeline::fetch::{build_search_url, fetch, lyrics_from_body, lyrics_from_response};

#[test]
fn url_percent_encodes_both_fields() {
    let u = build_search_url("hello world", "AC/DC");
    assert_eq!(
        u,
        "https://lrclib.net/api/search?track_name=hello%20world&artist_name=AC%2FDC"
    );
}

#[test]
fn body_first_record_wins() {
    let body = "[{\"id\":7,\"plainLyrics\":\"la\",\"syncedLyrics\":\"[00:01.00] la\"},{\"syncedLyrics\":\"other\"}]";
    assert_eq!(lyrics_from_body(body).as_deref(), Some("[00:01.00] la"));
}

#[test]
fn body_first_record_null_lyrics() {
    let body = "[{\"syncedLyrics\":null},{\"syncedLyrics\":\"other\"}]";
    assert_eq!(lyrics_from_body(body), None);
}

#[test]
fn body_first_record_missing_field() {
    let body = "[{\"id\":2},{\"syncedLyrics\":\"other\"}]";
    assert_eq!(lyrics_from_body(body), None);
}

#[test]
fn empty_malformed_and_transport_failures_are_identical() {
    // The three failure modes must be indistinguishable: an empty result
    // array, a body that does not parse, and a failed request.
    let empty = lyrics_from_body("[]");
    let malformed = lyrics_from_body("{not json");
    let transport = lyrics_from_response(None);
    assert_eq!(empty, None);
    assert_eq!(malformed, None);
    assert_eq!(transport, None);
}

#[test]
fn body_not_an_array() {
    assert_eq!(lyrics_from_body("{\"a\":1}"), None);
    assert_eq!(lyrics_from_body("42"), None);
}

#[test]
fn fetch_unmatchable_pair_misses() {
    // With no reachable service this is a transport failure; with one it is
    // an empty result; either way the fetch reports a miss.
    assert_eq!(fetch("zzqx vvqw unmatchable title", "zzqx vvqw nobody"), None);
}
