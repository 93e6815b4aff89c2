//! Embedding lyrics into a file's tag container.
//!
//! A container is opaque here; what the contracts speak of is which tag
//! kinds it holds and what lyrics text its tag of a given kind carries.
//! The embed step makes sure a tag of the kind the format family requires
//! exists, overwrites its lyrics field, and persists the container back to
//! the file.

use vstd::prelude::*;
use crate::paths::FormatClass;

verus! {

#[verifier::external_type_specification]
#[verifier::external_body]
pub struct ExTaggedFile(lofty::TaggedFile);

/// The integer standing for the tag kind a format family requires: one
/// value for the MP3 family's kind, another for the FLAC family's.
pub open spec fn kind_code(fc: FormatClass) -> int {
    match fc {
        FormatClass::Mp3Like => 0,
        FormatClass::FlacLike => 1,
    }
}

/// The kinds of tag a container holds, as `kind_code` values; what a
/// container holds can only be learned through the trusted accessors below.
pub uninterp spec fn tag_kinds(f: lofty::TaggedFile) -> Set<int>;

/// The lyrics text of the container's first tag of the given kind: absent
/// when there is no such tag or it has no text lyrics item.
pub uninterp spec fn tag_lyrics(f: lofty::TaggedFile, kind: int) -> Option<Seq<char>>;

/// Relies on lofty::read_from_path: `None` when the file cannot be opened
/// or its container cannot be parsed.
#[verifier::external_body]
fn open_tagged(path: &str) -> (r: Option<lofty::TaggedFile>) {
    lofty::read_from_path(path).ok()
}

/// Relies on TaggedFileExt::contains_tag_type: whether a tag of the kind
/// the format family requires is present.
#[verifier::external_body]
fn has_tag_kind(f: &lofty::TaggedFile, fc: FormatClass) -> (r: bool)
    ensures
        r == tag_kinds(*f).contains(kind_code(fc)),
{
    let tt = match fc {
        FormatClass::Mp3Like => lofty::TagType::Id3v2,
        FormatClass::FlacLike => lofty::TagType::VorbisComments,
    };
    <lofty::TaggedFile as lofty::AudioFile>::contains_tag_type(f, tt)
}

/// Relies on TaggedFileExt::insert_tag with a fresh lofty::Tag: when the
/// file's format accepts the kind, any tag of that kind is replaced by the
/// empty one and the kind is then present; a format that refuses the kind
/// leaves the container unchanged.
#[verifier::external_body]
fn insert_empty_tag(f: &mut lofty::TaggedFile, fc: FormatClass)
    ensures
        (tag_kinds(*final(f)) == tag_kinds(*old(f)).insert(kind_code(fc))) || *final(f) == *old(
            f,
        ),
{
    let tt = match fc {
        FormatClass::Mp3Like => lofty::TagType::Id3v2,
        FormatClass::FlacLike => lofty::TagType::VorbisComments,
    };
    <lofty::TaggedFile as lofty::TaggedFileExt>::insert_tag(f, lofty::Tag::new(tt));
}

/// Relies on TaggedFileExt::tag_mut and Tag::insert_text: when a tag of the
/// required kind is present, its lyrics item is set to exactly `lyrics`
/// (the lyrics key maps to a frame in both kinds written here, so the
/// insert succeeds); without such a tag nothing changes and the call
/// reports failure.
#[verifier::external_body]
fn set_tag_lyrics(f: &mut lofty::TaggedFile, fc: FormatClass, lyrics: &str) -> (r: bool)
    ensures
        r == tag_kinds(*old(f)).contains(kind_code(fc)),
        r ==> tag_kinds(*final(f)) == tag_kinds(*old(f)),
        r ==> tag_lyrics(*final(f), kind_code(fc)) == Some(lyrics@),
        !r ==> *final(f) == *old(f),
{
    let tt = match fc {
        FormatClass::Mp3Like => lofty::TagType::Id3v2,
        FormatClass::FlacLike => lofty::TagType::VorbisComments,
    };
    match <lofty::TaggedFile as lofty::TaggedFileExt>::tag_mut(f, tt) {
        Some(tag) => tag.insert_text(lofty::ItemKey::Lyrics, lyrics.to_string()),
        None => false,
    }
}

/// Relies on TaggedFileExt::tag and Tag::get_string: the lyrics text held
/// by the tag of the kind the format family requires, when there is one.
#[verifier::external_body]
fn get_tag_lyrics(f: &lofty::TaggedFile, fc: FormatClass) -> (r: Option<String>)
    ensures
        r.deep_view() == tag_lyrics(*f, kind_code(fc)),
{
    let tt = match fc {
        FormatClass::Mp3Like => lofty::TagType::Id3v2,
        FormatClass::FlacLike => lofty::TagType::VorbisComments,
    };
    match <lofty::TaggedFile as lofty::TaggedFileExt>::tag(f, tt) {
        Some(tag) => tag.get_string(&lofty::ItemKey::Lyrics).map(|s| s.to_string()),
        None => None,
    }
}

/// Relies on AudioFile::save_to_path: persists the container back to the
/// file in place; whether it succeeds depends on the disk.
#[verifier::external_body]
fn save_tagged(f: &lofty::TaggedFile, path: &str) -> (r: bool) {
    <lofty::TaggedFile as lofty::AudioFile>::save_to_path(f, path).is_ok()
}

/// Puts `lyrics` into the container: a tag of the required kind is created
/// when none is present, and its lyrics field is overwritten.  Success is
/// owed whenever the container already holds the required kind; it is
/// reported truthfully in every case, and on success the container holds
/// the required kind with exactly the given lyrics.
pub fn embed_into(f: &mut lofty::TaggedFile, fc: FormatClass, lyrics: &str) -> (r: bool)
    ensures
        r ==> tag_kinds(*final(f)).contains(kind_code(fc)),
        r ==> tag_lyrics(*final(f), kind_code(fc)) == Some(lyrics@),
        tag_kinds(*old(f)).contains(kind_code(fc)) ==> r,
        !r ==> *final(f) == *old(f),
{
    if !has_tag_kind(f, fc) {
        insert_empty_tag(f, fc);
    }
    set_tag_lyrics(f, fc, lyrics)
}

/// Embeds `lyrics` into the file at `path`: the container is re-opened
/// fresh, the required tag is created when missing, the lyrics field is
/// overwritten, and the container is saved back in place.  `false` on open
/// failure, on a container that refuses the required kind, and on save
/// failure — what the disk holds decides, so nothing exact can be promised
/// here; the tag mutation itself is stated on `embed_into`.
pub fn embed(path: &str, fc: FormatClass, lyrics: &str) -> (r: bool) {
    match open_tagged(path) {
        Some(mut f) => {
            if embed_into(&mut f, fc, lyrics) {
                save_tagged(&f, path)
            } else {
                false
            }
        },
        None => false,
    }
}

/// Reads back the lyrics field of the tag kind the format family requires,
/// from the file at `path`; what is found depends on the file on disk.
pub fn read_embedded_lyrics(path: &str, fc: FormatClass) -> (r: Option<String>) {
    match open_tagged(path) {
        Some(f) => get_tag_lyrics(&f, fc),
        None => None,
    }
}

} // verus!
