//! The lyrics lookup: building the search request and reading its response.
//!
//! The response body is a JSON array of result records, each optionally
//! carrying a synchronized-lyrics string.  Only the first record is ever
//! considered; an empty array, a malformed body and a transport failure all
//! collapse to "no lyrics found".

use vstd::prelude::*;

verus! {

/// What urlencoding::encode returns for a given character sequence; the
/// result depends on the characters alone.
pub uninterp spec fn encoded_of(s: Seq<char>) -> Seq<char>;

/// Relies on urlencoding::encode: percent-encodes every byte except
/// alphanumerics and `-`, `_`, `.`, `~`; a pure function of its input.
#[verifier::external_body]
fn percent_encode(s: &str) -> (r: String)
    ensures
        r@ == encoded_of(s@),
{
    urlencoding::encode(s).into_owned()
}

/// The GET request line for a title/artist pair.
pub open spec fn search_url_of(title: Seq<char>, artist: Seq<char>) -> Seq<char> {
    "https://lrclib.net/api/search?track_name="@ + encoded_of(title) + "&artist_name="@
        + encoded_of(artist)
}

/// Builds the search URL, percent-encoding both fields.
pub fn build_search_url(title: &str, artist: &str) -> (u: String)
    ensures
        u@ == search_url_of(title@, artist@),
{
    let mut u: String = String::from_str("https://lrclib.net/api/search?track_name=");
    let et = percent_encode(title);
    u.append(et.as_str());
    u.append("&artist_name=");
    let ea = percent_encode(artist);
    u.append(ea.as_str());
    proof {
        assert(u@ =~= search_url_of(title@, artist@));
    }
    u
}

/// What the response body parses to: `None` when the body is not a JSON
/// array, otherwise one entry per record holding its synchronized-lyrics
/// string when the record has one; a pure function of the body.
pub uninterp spec fn synced_rows_of(body: Seq<char>) -> Option<Seq<Option<Seq<char>>>>;

/// Relies on serde_json::from_str and serde_json::Value: parses the body as
/// JSON; for an array, each element's `"syncedLyrics"` string field is taken
/// when present, and `None` stands for a missing, null or non-string field;
/// any non-array or unparseable body gives `None`.
#[verifier::external_body]
fn parse_synced_rows(body: &str) -> (r: Option<Vec<Option<String>>>)
    ensures
        r.deep_view() == synced_rows_of(body@),
{
    let v: serde_json::Value = match serde_json::from_str(body) {
        Ok(v) => v,
        Err(_) => return None,
    };
    match v.as_array() {
        Some(arr) => Some(
            arr.iter()
                .map(|e| e.get("syncedLyrics").and_then(|x| x.as_str()).map(|s| s.to_string()))
                .collect(),
        ),
        None => None,
    }
}

/// The lyrics a parsed response yields: the first record's synchronized
/// lyrics, or nothing when the body was malformed or the array empty.
pub open spec fn first_synced(rows: Option<Seq<Option<Seq<char>>>>) -> Option<Seq<char>> {
    match rows {
        Some(rs) => if rs.len() > 0 {
            rs[0]
        } else {
            None
        },
        None => None,
    }
}

/// Reads a response body: the synchronized lyrics of the first record of a
/// well-formed result array, and nothing for an empty array or a malformed
/// body.
pub fn lyrics_from_body(body: &str) -> (r: Option<String>)
    ensures
        r.deep_view() == first_synced(synced_rows_of(body@)),
{
    match parse_synced_rows(body) {
        Some(mut rows) => {
            if rows.len() > 0 {
                let first = rows.remove(0);
                first
            } else {
                None
            }
        },
        None => None,
    }
}

/// Collapses a transport outcome and its body into the fetch result: a
/// failed request yields nothing, a received body is read by
/// `lyrics_from_body` — the two failure modes are indistinguishable, as
/// intended.
pub fn lyrics_from_response(body: Option<String>) -> (r: Option<String>)
    ensures
        body is None ==> r is None,
        body matches Some(b) ==> r.deep_view() == first_synced(synced_rows_of(b@)),
{
    match body {
        Some(b) => lyrics_from_body(b.as_str()),
        None => None,
    }
}

/// Relies on reqwest's blocking client: one GET of `url`, the response body
/// as text; `None` on any transport or decoding failure.  A timeout keeps a
/// run from blocking indefinitely on one request.
#[verifier::external_body]
fn http_get_text(url: &str) -> (r: Option<String>) {
    let client = match reqwest::blocking::Client::builder().timeout(
        std::time::Duration::from_secs(10),
    ).build() {
        Ok(c) => c,
        Err(_) => return None,
    };
    match client.get(url).send() {
        Ok(resp) => resp.text().ok(),
        Err(_) => None,
    }
}

/// Fetches lyrics for a title/artist pair.  What comes back depends on the
/// network, so nothing exact can be promised here; how any received body is
/// read is stated on `lyrics_from_response`, which this function applies to
/// whatever the request returned.
pub fn fetch(title: &str, artist: &str) -> (r: Option<String>) {
    let url = build_search_url(title, artist);
    let body = http_get_text(url.as_str());
    lyrics_from_response(body)
}

} // verus!
