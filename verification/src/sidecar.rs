//! Writing the lyrics sidecar file.
//!
//! The sidecar stands beside the audio file, named by replacing the audio
//! extension with `.lrc`, and holds exactly the fetched lyrics text; an
//! existing sidecar is overwritten.  The path derivation is verified
//! (`lrc_path`); the write itself is a best-effort disk operation.

use vstd::prelude::*;
use crate::paths::lrc_path;

verus! {

/// Relies on fs_err::write: creates or truncates the file at `path` and
/// writes exactly the bytes of `text`; `true` only when the whole write
/// succeeded.
#[verifier::external_body]
fn fs_write_text(path: &str, text: &str) -> (r: bool) {
    fs_err::write(path, text).is_ok()
}

/// Writes `lyrics` to the sidecar of `path` — the sibling file whose path
/// is `lrc_path_of(path@)` — overwriting any earlier sidecar.  Whether the
/// write succeeds depends on the disk, so only the target path is exact
/// here (through `lrc_path`).
pub fn write_sidecar(path: &str, lyrics: &str) -> (r: bool) {
    let target = lrc_path(path);
    fs_write_text(target.as_str(), lyrics)
}

} // verus!
