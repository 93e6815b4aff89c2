//! Resolving a (title, artist) key for an audio file.
//!
//! The key is read from the file's tag container when the container parses;
//! only when it cannot be parsed at all does the file name serve as a
//! fallback, split on the first `" - "` into artist and title.  A container
//! that parses but carries empty or absent fields is taken as it is — the
//! fallback is deliberately not applied then.

use vstd::prelude::*;
use crate::paths::{file_stem, stem_str};

verus! {

/// The per-file lookup key: both fields optional, a fetch is attempted only
/// when both are present.
#[derive(Debug, PartialEq, Eq)]
pub struct TrackKey {
    pub title: Option<String>,
    pub artist: Option<String>,
}

/// Whitespace that is trimmed around the filename-derived split.
pub open spec fn is_space_char(c: char) -> bool {
    c == ' ' || c == '\t' || c == '\r' || c == '\n'
}

/// Executable mirror of `is_space_char`.
fn char_is_space(c: char) -> (r: bool)
    ensures
        r == is_space_char(c),
{
    c == ' ' || c == '\t' || c == '\r' || c == '\n'
}

/// `s` without its leading whitespace.
pub open spec fn trim_left(s: Seq<char>) -> Seq<char>
    decreases s.len(),
{
    if s.len() > 0 && is_space_char(s[0]) {
        trim_left(s.drop_first())
    } else {
        s
    }
}

/// `s` without its trailing whitespace.
pub open spec fn trim_right(s: Seq<char>) -> Seq<char>
    decreases s.len(),
{
    if s.len() > 0 && is_space_char(s.last()) {
        trim_right(s.drop_last())
    } else {
        s
    }
}

/// `s` without its surrounding whitespace.
pub open spec fn trim_spec(s: Seq<char>) -> Seq<char> {
    trim_right(trim_left(s))
}

/// Drops leading whitespace.
fn trim_front<'a>(s: &'a str) -> (r: &'a str)
    ensures
        r@ == trim_left(s@),
    decreases s@.len(),
{
    let n = s.unicode_len();
    if n > 0 && char_is_space(s.get_char(0)) {
        let rest = s.substring_char(1, n);
        proof {
            assert(rest@ =~= s@.drop_first());
        }
        trim_front(rest)
    } else {
        s
    }
}

/// Drops trailing whitespace.
fn trim_back<'a>(s: &'a str) -> (r: &'a str)
    ensures
        r@ == trim_right(s@),
    decreases s@.len(),
{
    let n = s.unicode_len();
    if n > 0 && char_is_space(s.get_char(n - 1)) {
        let rest = s.substring_char(0, n - 1);
        proof {
            assert(rest@ =~= s@.drop_last());
        }
        trim_back(rest)
    } else {
        s
    }
}

/// Drops surrounding whitespace.
pub fn trim_str<'a>(s: &'a str) -> (r: &'a str)
    ensures
        r@ == trim_spec(s@),
{
    trim_back(trim_front(s))
}

/// The `" - "` separator stands at index `i` of `s`.
pub open spec fn is_sep_at(s: Seq<char>, i: int) -> bool {
    0 <= i && i + 3 <= s.len() && s[i] == ' ' && s[i + 1] == '-' && s[i + 2] == ' '
}

/// `s` contains the `" - "` separator somewhere.
pub open spec fn has_separator(s: Seq<char>) -> bool {
    exists|i: int| is_sep_at(s, i)
}

/// `i` is the first index of `s` where the separator stands.
pub open spec fn first_sep_at(s: Seq<char>, i: int) -> bool {
    is_sep_at(s, i) && forall|j: int| 0 <= j < i ==> !is_sep_at(s, j)
}

/// The first index of `s` where the separator stands.
pub open spec fn first_sep(s: Seq<char>) -> int {
    choose|i: int| first_sep_at(s, i)
}

proof fn lemma_first_sep_unique(s: Seq<char>, k1: int, k2: int)
    requires
        first_sep_at(s, k1),
        first_sep_at(s, k2),
    ensures
        k1 == k2,
{
    if k1 < k2 {
        assert(!is_sep_at(s, k1));
    }
    if k2 < k1 {
        assert(!is_sep_at(s, k2));
    }
}

/// The title a stem yields: what follows the first separator, trimmed, or
/// the whole stem when there is none.
pub open spec fn stem_key_title(stem: Seq<char>) -> Seq<char> {
    if has_separator(stem) {
        trim_spec(stem.subrange(first_sep(stem) + 3, stem.len() as int))
    } else {
        stem
    }
}

/// The artist a stem yields: what precedes the first separator, trimmed, or
/// nothing when there is none.
pub open spec fn stem_key_artist(stem: Seq<char>) -> Option<Seq<char>> {
    if has_separator(stem) {
        Some(trim_spec(stem.subrange(0, first_sep(stem))))
    } else {
        None
    }
}

/// Finds the first occurrence of `" - "` in `stem`, if any.
fn find_sep(stem: &str) -> (r: Option<usize>)
    ensures
        r matches Some(i) ==> first_sep_at(stem@, i as int),
        r is None ==> !has_separator(stem@),
{
    let n = stem.unicode_len();
    if n < 3 {
        proof {
            assert(forall|j: int| !is_sep_at(stem@, j));
        }
        return None;
    }
    let mut i: usize = 0;
    while i <= n - 3
        invariant
            n == stem@.len(),
            3 <= n,
            i <= n - 2,
            forall|j: int| 0 <= j < i ==> !is_sep_at(stem@, j),
        decreases n - i,
    {
        if stem.get_char(i) == ' ' && stem.get_char(i + 1) == '-' && stem.get_char(i + 2) == ' ' {
            return Some(i);
        }
        i = i + 1;
    }
    proof {
        assert forall|j: int| !is_sep_at(stem@, j) by {
            if 0 <= j < i {
                assert(!is_sep_at(stem@, j));
            } else {
                assert(j < 0 || j + 3 > n);
            }
        };
    }
    None
}

/// Splits a filename stem into the fallback key: on the first `" - "`, the
/// left side is the artist and the right side the title, both trimmed; with
/// no separator the whole stem is the title and the artist is absent.
pub fn parse_stem(stem: &str) -> (r: TrackKey)
    ensures
        r.title.deep_view() == Some(stem_key_title(stem@)),
        r.artist.deep_view() == stem_key_artist(stem@),
{
    let n = stem.unicode_len();
    match find_sep(stem) {
        Some(i) => {
            proof {
                assert(is_sep_at(stem@, i as int));
                assert(has_separator(stem@));
                let k = first_sep(stem@);
                assert(first_sep_at(stem@, k));
                lemma_first_sep_unique(stem@, k, i as int);
            }
            let artist_raw = stem.substring_char(0, i);
            let title_raw = stem.substring_char(i + 3, n);
            let artist = trim_str(artist_raw);
            let title = trim_str(title_raw);
            TrackKey { title: Some(title.to_owned()), artist: Some(artist.to_owned()) }
        },
        None => TrackKey { title: Some(stem.to_owned()), artist: None },
    }
}

/// Relies on lofty::read_from_path, TaggedFileExt::primary_tag and
/// Tag::get_string: `None` when the container cannot be opened or parsed at
/// all; otherwise the primary tag's track-title and track-artist strings,
/// each absent when the tag lacks it (or there is no primary tag).
#[verifier::external_body]
fn read_tag_fields(path: &str) -> (r: Option<(Option<String>, Option<String>)>) {
    match lofty::read_from_path(path) {
        Ok(f) => {
            let tag = <lofty::TaggedFile as lofty::TaggedFileExt>::primary_tag(&f);
            let title = tag.and_then(|t| t.get_string(&lofty::ItemKey::TrackTitle).map(|s| s.to_string()));
            let artist = tag.and_then(|t| t.get_string(&lofty::ItemKey::TrackArtist).map(|s| s.to_string()));
            Some((title, artist))
        },
        Err(_) => None,
    }
}

/// Combines the container fields with the filename fallback: fields read
/// from a parsed container are kept exactly as they are, even when empty or
/// absent; only a container that failed to parse falls back to the stem,
/// and a path without a file name resolves to nothing at all.
pub fn resolve_from(tag_fields: Option<(Option<String>, Option<String>)>, path: &str) -> (r:
    TrackKey)
    ensures
        tag_fields matches Some(p) ==> r.title == p.0 && r.artist == p.1,
        tag_fields is None && file_stem(path@).len() > 0 ==> r.title.deep_view() == Some(
            stem_key_title(file_stem(path@)),
        ) && r.artist.deep_view() == stem_key_artist(file_stem(path@)),
        tag_fields is None && file_stem(path@).len() == 0 ==> r.title is None && r.artist is None,
{
    match tag_fields {
        Some((t, a)) => TrackKey { title: t, artist: a },
        None => {
            let stem = stem_str(path);
            if stem.unicode_len() == 0 {
                TrackKey { title: None, artist: None }
            } else {
                parse_stem(stem)
            }
        },
    }
}

/// Resolves the lookup key for `path`: from the tag container when it
/// parses, from the file name otherwise.  What the container holds depends
/// on the file on disk, so the exact relation is stated on `resolve_from`,
/// which this function applies to whatever was read.
pub fn resolve(path: &str) -> (r: TrackKey) {
    let tag_fields = read_tag_fields(path);
    resolve_from(tag_fields, path)
}

} // verus!
