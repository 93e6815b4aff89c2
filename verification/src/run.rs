//! The folder pipeline: one linear pass over the entries of a folder tree.
//!
//! Every regular file whose extension marks it as audio is scanned; its
//! title/artist key is resolved; when both fields are present the lyrics are
//! fetched, and a hit is written out according to the mode — a sidecar file
//! or an embedded tag field.  Each step appends an event to the run's log,
//! and the run ends with the aggregate counts.

use vstd::prelude::*;
use crate::fetch::fetch;
use crate::paths::{audio_class, audio_class_of, lrc_path};
use crate::sidecar::write_sidecar;
use crate::tags::embed;
use crate::track::resolve;

verus! {

/// What a fetch hit is written to.
#[derive(Clone, Copy, Debug, PartialEq, Eq, Structural)]
pub enum Mode {
    Sidecar,
    Embed,
}

/// The aggregate outcome of one run: how many audio files were seen, and
/// for how many of them lyrics were written out.
#[derive(Clone, Copy, Debug, PartialEq, Eq, Structural)]
pub struct RunResult {
    pub scanned: usize,
    pub affected: usize,
}

/// One entry of the ordered run log.  The presentation layer renders these;
/// the pipeline only appends.
#[derive(Debug, PartialEq, Eq)]
pub enum LogEvent {
    /// An audio file was found; its path.
    FileFound(String),
    /// The resolved title and artist, as resolved (either may be absent).
    FieldsResolved(Option<String>, Option<String>),
    /// The file was skipped because title or artist is missing; its path.
    SkippedMissingMetadata(String),
    /// A lookup is being attempted for this title and artist.
    Fetching(String, String),
    /// Lyrics were written to this sidecar path.
    SidecarSaved(String),
    /// Lyrics were embedded into the file at this path.
    Embedded(String),
    /// Lyrics were fetched but the write or embed failed; the file's path.
    WriteFailed(String),
    /// No lyrics were found for this title and artist.
    NoLyricsFound(String, String),
    /// Running totals after a file: files scanned so far, files affected so
    /// far.
    Progress(usize, usize),
    /// Final totals of the run: files affected, files scanned.
    Totals(usize, usize),
}

/// An entry takes part in the run when it is a regular file with an audio
/// extension.
pub open spec fn is_audio_entry(e: (bool, String)) -> bool {
    e.0 && audio_class_of(e.1@) is Some
}

/// How many of the entries take part in the run.
pub open spec fn count_audio(s: Seq<(bool, String)>) -> int
    decreases s.len(),
{
    if s.len() == 0 {
        0
    } else {
        count_audio(s.drop_last()) + if is_audio_entry(s.last()) {
            1int
        } else {
            0int
        }
    }
}

/// The events that record a successful write of lyrics.
pub open spec fn is_write_event(ev: LogEvent) -> bool {
    ev is SidecarSaved || ev is Embedded
}

/// How many successful writes a log records.
pub open spec fn count_written(log: Seq<LogEvent>) -> int
    decreases log.len(),
{
    if log.len() == 0 {
        0
    } else {
        count_written(log.drop_last()) + if is_write_event(log.last()) {
            1int
        } else {
            0int
        }
    }
}

proof fn lemma_count_audio_snoc(s: Seq<(bool, String)>, i: int)
    requires
        0 <= i < s.len(),
    ensures
        count_audio(s.subrange(0, i + 1)) == count_audio(s.subrange(0, i)) + if is_audio_entry(
            s[i],
        ) {
            1int
        } else {
            0int
        },
{
    let t = s.subrange(0, i + 1);
    assert(t.drop_last() =~= s.subrange(0, i));
    assert(t.last() == s[i]);
}

proof fn lemma_count_written_push(log: Seq<LogEvent>, ev: LogEvent)
    ensures
        count_written(log.push(ev)) == count_written(log) + if is_write_event(ev) {
            1int
        } else {
            0int
        },
{
    assert(log.push(ev).drop_last() =~= log);
    assert(log.push(ev).last() == ev);
}

/// A log without a single write event records no write at all: together
/// with `run`'s contract this says that a run in which every fetch missed —
/// a miss never logs a write — has `affected == 0`.
pub proof fn lemma_no_write_events_no_affected(log: Seq<LogEvent>)
    requires
        forall|i: int| 0 <= i < log.len() ==> !is_write_event(log[i]),
    ensures
        count_written(log) == 0,
    decreases log.len(),
{
    if log.len() > 0 {
        assert(!is_write_event(log.last()));
        let l2 = log.drop_last();
        assert forall|i: int| 0 <= i < l2.len() implies !is_write_event(l2[i]) by {
            assert(l2[i] == log[i]);
        };
        lemma_no_write_events_no_affected(l2);
    }
}

/// Appends one event, keeping track of the write count.
fn log_event(log: &mut Vec<LogEvent>, ev: LogEvent)
    ensures
        final(log)@ == old(log)@.push(ev),
        count_written(final(log)@) == count_written(old(log)@) + if is_write_event(ev) {
            1int
        } else {
            0int
        },
{
    proof {
        lemma_count_written_push(log@, ev);
    }
    log.push(ev);
}

/// Clones an optional string, field for field.
fn clone_opt_string(o: &Option<String>) -> (r: Option<String>)
    ensures
        r.deep_view() == o.deep_view(),
{
    match o {
        Some(s) => Some(s.clone()),
        None => None,
    }
}

/// One pass over the given entries — each a (is-regular-file, path) pair —
/// in order.  `scanned` counts exactly the audio entries; `affected` counts
/// the successful writes, which the log records one event each, and so
/// never exceeds `scanned`.
pub fn run_files(entries: &Vec<(bool, String)>, mode: Mode) -> (out: (RunResult, Vec<LogEvent>))
    ensures
        out.0.scanned as int == count_audio(entries@),
        out.0.affected <= out.0.scanned,
        out.0.affected as int == count_written(out.1@),
        out.1@.len() > 0 && out.1@.last() == LogEvent::Totals(out.0.affected, out.0.scanned),
{
    let mut scanned: usize = 0;
    let mut affected: usize = 0;
    let mut log: Vec<LogEvent> = Vec::new();
    let mut idx: usize = 0;
    while idx < entries.len()
        invariant
            idx <= entries.len(),
            scanned <= idx,
            affected <= scanned,
            scanned as int == count_audio(entries@.subrange(0, idx as int)),
            affected as int == count_written(log@),
        decreases entries.len() - idx,
    {
        let e = &entries[idx];
        if e.0 {
            match audio_class(e.1.as_str()) {
                Some(fc) => {
                    scanned = scanned + 1;
                    log_event(&mut log, LogEvent::FileFound(e.1.clone()));
                    let key = resolve(e.1.as_str());
                    log_event(
                        &mut log,
                        LogEvent::FieldsResolved(
                            clone_opt_string(&key.title),
                            clone_opt_string(&key.artist),
                        ),
                    );
                    match (&key.title, &key.artist) {
                        (Some(t), Some(a)) => {
                            log_event(&mut log, LogEvent::Fetching(t.clone(), a.clone()));
                            match fetch(t.as_str(), a.as_str()) {
                                Some(lyrics) => {
                                    match mode {
                                        Mode::Sidecar => {
                                            if write_sidecar(e.1.as_str(), lyrics.as_str()) {
                                                affected = affected + 1;
                                                log_event(
                                                    &mut log,
                                                    LogEvent::SidecarSaved(lrc_path(e.1.as_str())),
                                                );
                                            } else {
                                                log_event(
                                                    &mut log,
                                                    LogEvent::WriteFailed(e.1.clone()),
                                                );
                                            }
                                        },
                                        Mode::Embed => {
                                            if embed(e.1.as_str(), fc, lyrics.as_str()) {
                                                affected = affected + 1;
                                                log_event(
                                                    &mut log,
                                                    LogEvent::Embedded(e.1.clone()),
                                                );
                                            } else {
                                                log_event(
                                                    &mut log,
                                                    LogEvent::WriteFailed(e.1.clone()),
                                                );
                                            }
                                        },
                                    }
                                },
                                None => {
                                    log_event(
                                        &mut log,
                                        LogEvent::NoLyricsFound(t.clone(), a.clone()),
                                    );
                                },
                            }
                        },
                        _ => {
                            log_event(&mut log, LogEvent::SkippedMissingMetadata(e.1.clone()));
                        },
                    }
                    log_event(&mut log, LogEvent::Progress(scanned, affected));
                },
                None => {},
            }
        }
        proof {
            lemma_count_audio_snoc(entries@, idx as int);
        }
        idx = idx + 1;
    }
    proof {
        assert(entries@.subrange(0, entries@.len() as int) =~= entries@);
    }
    log_event(&mut log, LogEvent::Totals(affected, scanned));
    (RunResult { scanned, affected }, log)
}

/// Relies on walkdir::WalkDir: every entry reachable under `root`, in
/// traversal order, paired with whether it is a regular file; entries that
/// cannot be read are dropped.  What comes back depends on the disk.
#[verifier::external_body]
fn walk_entries(root: &str) -> (r: Vec<(bool, String)>) {
    walkdir::WalkDir::new(root)
        .into_iter()
        .filter_map(|e| e.ok())
        .map(|e| (e.file_type().is_file(), e.path().to_string_lossy().into_owned()))
        .collect()
}

/// Runs the pipeline over the folder tree rooted at `root`.  The entries
/// come from the disk, so the exact scanned count is stated on `run_files`,
/// which this applies to whatever the traversal found; whatever that was,
/// `affected` counts exactly the logged writes and never exceeds `scanned`.
pub fn run(root: &str, mode: Mode) -> (out: (RunResult, Vec<LogEvent>))
    ensures
        out.0.affected <= out.0.scanned,
        out.0.affected as int == count_written(out.1@),
        out.1@.len() > 0 && out.1@.last() == LogEvent::Totals(out.0.affected, out.0.scanned),
{
    let entries = walk_entries(root);
    run_files(&entries, mode)
}

} // verus!
