//! Path classification and sidecar-path derivation.

use lyrics_pipeline::paths::{audio_class, lrc_path, FormatClass};

#[test]
fn lrc_replaces_extension() {
    assert_eq!(lrc_path("music/A - B.mp3"), "music/A - B.lrc");
}

#[test]
fn lrc_appends_when_no_extension() {
    assert_eq!(lrc_path("C"), "C.lrc");
}

#[test]
fn lrc_ignores_dots_in_directories() {
    assert_eq!(lrc_path("a.b/c"), "a.b/c.lrc");
}

#[test]
fn lrc_hidden_file_has_no_extension() {
    assert_eq!(lrc_path(".hidden"), ".hidden.lrc");
}

#[test]
fn lrc_backslash_paths() {
    assert_eq!(lrc_path("C:\\music\\A.mp3"), "C:\\music\\A.lrc");
}

#[test]
fn class_is_case_insensitive() {
    assert_eq!(audio_class("x.MP3"), Some(FormatClass::Mp3Like));
    assert_eq!(audio_class("x.mp3"), Some(FormatClass::Mp3Like));
    assert_eq!(audio_class("y.FlAc"), Some(FormatClass::FlacLike));
    assert_eq!(audio_class("y.flac"), Some(FormatClass::FlacLike));
}

#[test]
fn class_rejects_other_files() {
    assert_eq!(audio_class("z.txt"), None);
    assert_eq!(audio_class("noext"), None);
    assert_eq!(audio_class("x.amp3"), None);
    assert_eq!(audio_class("x.mp34"), None);
}

#[test]
fn class_needs_the_dot_inside_the_file_name() {
    // The dot in a directory name starts no extension.
    assert_eq!(audio_class("dir.mp3/file"), None);
}
