//! The sidecar writer, the tag embedder, and the folder pipeline.

use lyrics_pipeline::paths::FormatClass;
use lyrics_pipeline::run::{run, run_files, LogEvent, Mode};
use lyrics_pipeline::sidecar::write_sidecar;
use lyrics_pipeline::tags::{embed, read_embedded_lyrics};

/// A smallest well-formed FLAC stream: the marker, a STREAMINFO block
/// (44100 Hz, stereo, 16 bit, no audio frames) and a final PADDING block.
fn minimal_flac() -> Vec<u8> {
    let mut v = vec![b'f', b'L', b'a', b'C'];
    v.extend_from_slice(&[0x00, 0x00, 0x00, 0x22]);
    v.extend_from_slice(&[0x10, 0x00, 0x10, 0x00]);
    v.extend_from_slice(&[0x00; 6]);
    v.extend_from_slice(&[0x0A, 0xC4, 0x42, 0xF0]);
    v.extend_from_slice(&[0x00; 4]);
    v.extend_from_slice(&[0x00; 16]);
    v.extend_from_slice(&[0x81, 0x00, 0x00, 0x10]);
    v.extend_from_slice(&[0x00; 16]);
    v
}

#[test]
fn sidecar_roundtrip_and_overwrite() {
    fs_err::create_dir_all("/tmp/lp_t_p4").unwrap();
    let path = "/tmp/lp_t_p4/song.mp3";
    let text = "line1\nline2\n";
    assert!(write_sidecar(path, text));
    assert_eq!(fs_err::read("/tmp/lp_t_p4/song.lrc").unwrap(), text.as_bytes());
    assert!(write_sidecar(path, "short"));
    assert_eq!(fs_err::read("/tmp/lp_t_p4/song.lrc").unwrap(), b"short");
    fs_err::remove_file("/tmp/lp_t_p4/song.lrc").unwrap();
}

#[test]
fn embed_creates_tag_and_roundtrips() {
    fs_err::create_dir_all("/tmp/lp_t_embed").unwrap();
    let path = "/tmp/lp_t_embed/sample.flac";
    fs_err::write(path, minimal_flac()).unwrap();
    let lyr = "[00:01.00] hello\n[00:02.00] world\n";
    assert!(embed(path, FormatClass::FlacLike, lyr));
    assert_eq!(read_embedded_lyrics(path, FormatClass::FlacLike).as_deref(), Some(lyr));
    assert!(embed(path, FormatClass::FlacLike, "[00:03.00] new"));
    assert_eq!(
        read_embedded_lyrics(path, FormatClass::FlacLike).as_deref(),
        Some("[00:03.00] new")
    );
    fs_err::remove_file(path).unwrap();
}

/// A smallest MPEG stream: two consecutive 417-byte MPEG-1 Layer-3 frames
/// (128 kbps, 44100 Hz) with no tag of any kind.
fn minimal_mp3() -> Vec<u8> {
    let mut v = Vec::new();
    for _ in 0..2 {
        v.extend_from_slice(&[0xFF, 0xFB, 0x90, 0x00]);
        v.extend(std::iter::repeat(0x00).take(413));
    }
    v
}

#[test]
fn embed_mp3_creates_missing_tag() {
    fs_err::create_dir_all("/tmp/lp_t_embed_mp3").unwrap();
    let path = "/tmp/lp_t_embed_mp3/sample.mp3";
    fs_err::write(path, minimal_mp3()).unwrap();
    assert_eq!(read_embedded_lyrics(path, FormatClass::Mp3Like), None);
    let lyr = "[00:01.00] first line";
    assert!(embed(path, FormatClass::Mp3Like, lyr));
    assert_eq!(read_embedded_lyrics(path, FormatClass::Mp3Like).as_deref(), Some(lyr));
    fs_err::remove_file(path).unwrap();
}

#[test]
fn run_files_counts_audio_entries() {
    let entries = vec![
        (true, "target/t_rf/Zzqx Unmatchable - Vvqw Nothing.mp3".to_string()),
        (true, "target/t_rf/Cc.flac".to_string()),
        (true, "target/t_rf/readme.txt".to_string()),
        (false, "target/t_rf".to_string()),
    ];
    let (res, log) = run_files(&entries, Mode::Sidecar);
    assert_eq!(res.scanned, 2);
    assert_eq!(res.affected, 0);
    assert!(matches!(log.last(), Some(LogEvent::Totals(0, 2))));
    assert!(log.iter().any(|e| matches!(e, LogEvent::SkippedMissingMetadata(_))));
}

#[test]
fn run_walks_the_tree_and_counts() {
    let _ = fs_err::remove_dir_all("/tmp/lp_t_tree");
    fs_err::create_dir_all("/tmp/lp_t_tree/sub").unwrap();
    fs_err::write("/tmp/lp_t_tree/Zzqx Qq - Vvqw Ww.mp3", b"not a container").unwrap();
    fs_err::write("/tmp/lp_t_tree/sub/Cc.flac", b"not a container").unwrap();
    fs_err::write("/tmp/lp_t_tree/readme.txt", b"ignored").unwrap();
    let (res, log) = run("/tmp/lp_t_tree", Mode::Sidecar);
    assert_eq!(res.scanned, 2);
    assert_eq!(res.affected, 0);
    let writes = log
        .iter()
        .filter(|e| matches!(e, LogEvent::SidecarSaved(_) | LogEvent::Embedded(_)))
        .count();
    assert_eq!(writes, res.affected);
    assert!(fs_err::read("/tmp/lp_t_tree/Zzqx Qq - Vvqw Ww.lrc").is_err());
    fs_err::remove_dir_all("/tmp/lp_t_tree").unwrap();
}
