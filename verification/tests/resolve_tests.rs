//! Metadata resolution: container fields win, the filename fallback only
//! applies when the container cannot be parsed at all.

use lyrics_pipeline::track::{parse_stem, resolve, resolve_from};

#[test]
fn parse_stem_splits_on_separator() {
    let k = parse_stem("Artist - Title");
    assert_eq!(k.title.as_deref(), Some("Title"));
    assert_eq!(k.artist.as_deref(), Some("Artist"));
}

#[test]
fn parse_stem_trims_both_sides() {
    let k = parse_stem("  Queen   -   Bohemian Rhapsody  ");
    assert_eq!(k.title.as_deref(), Some("Bohemian Rhapsody"));
    assert_eq!(k.artist.as_deref(), Some("Queen"));
}

#[test]
fn parse_stem_no_separator_is_all_title() {
    let k = parse_stem("SoloName");
    assert_eq!(k.title.as_deref(), Some("SoloName"));
    assert_eq!(k.artist, None);
}

#[test]
fn parse_stem_no_separator_keeps_whitespace() {
    let k = parse_stem(" Solo ");
    assert_eq!(k.title.as_deref(), Some(" Solo "));
    assert_eq!(k.artist, None);
}

#[test]
fn parse_stem_splits_on_first_separator() {
    let k = parse_stem("A - B - C");
    assert_eq!(k.artist.as_deref(), Some("A"));
    assert_eq!(k.title.as_deref(), Some("B - C"));
}

#[test]
fn resolve_from_keeps_container_fields() {
    let tag = Some((Some("Real Title".to_string()), Some("Real Artist".to_string())));
    let k = resolve_from(tag, "music/Other - Name.mp3");
    assert_eq!(k.title.as_deref(), Some("Real Title"));
    assert_eq!(k.artist.as_deref(), Some("Real Artist"));
}

#[test]
fn resolve_from_keeps_absent_container_fields() {
    // A container that parsed but exposed nothing does not fall back to the
    // file name.
    let k = resolve_from(Some((None, None)), "music/Other - Name.mp3");
    assert_eq!(k.title, None);
    assert_eq!(k.artist, None);
}

#[test]
fn resolve_from_falls_back_to_stem() {
    let k = resolve_from(None, "music/Some Artist - Some Title.mp3");
    assert_eq!(k.title.as_deref(), Some("Some Title"));
    assert_eq!(k.artist.as_deref(), Some("Some Artist"));
}

#[test]
fn resolve_from_empty_file_name_resolves_nothing() {
    let k = resolve_from(None, "somewhere/");
    assert_eq!(k.title, None);
    assert_eq!(k.artist, None);
}

#[test]
fn resolve_unparseable_file_uses_stem() {
    fs_err::create_dir_all("/tmp/lp_t_resolve").unwrap();
    let path = "/tmp/lp_t_resolve/AA - BB.mp3";
    fs_err::write(path, b"this is not an audio container").unwrap();
    let k = resolve(path);
    assert_eq!(k.title.as_deref(), Some("BB"));
    assert_eq!(k.artist.as_deref(), Some("AA"));
    fs_err::remove_file(path).unwrap();
}
