//! A verified core for a lyrics-fetching pipeline: it resolves a title and
//! artist for each audio file in a folder tree, looks the pair up against a
//! remote lyrics service, and writes the lyrics either to a sidecar file or
//! into the file's own tag container.

pub mod fetch;
pub mod paths;
pub mod run;
pub mod sidecar;
pub mod tags;
pub mod track;
