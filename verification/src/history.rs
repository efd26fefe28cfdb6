//! The transcription history: newest entry first, bounded in length.

use std::path::{Path, PathBuf};
use vstd::prelude::*;
use vstd::slice::slice_subrange;
use vstd::string::StringExecFns;

use crate::paths::{join, path_joined};

verus! {

/// How many entries the stored history holds at most.
pub const MAX_ENTRIES: usize = 5000;

/// One finished transcription.
#[derive(Debug, Clone, PartialEq, Eq)]
pub struct HistoryEntry {
    pub id: String,
    pub created_at: String,
    pub text: String,
    pub model_id: String,
    pub recording_duration_ms: u64,
    pub transcription_duration_ms: u64,
    pub audio_device: Option<String>,
    pub audio_file_name: Option<String>,
}

/// Where the history is stored.
pub fn get_history_path(app_data_dir: &Path) -> (path: PathBuf)
    ensures
        path == path_joined(app_data_dir, "history.json"@),
{
    join(app_data_dir, "history.json")
}

/// Where the audio of finished recordings is stored.
pub fn get_recordings_dir(app_data_dir: &Path) -> (path: PathBuf)
    ensures
        path == path_joined(app_data_dir, "recordings"@),
{
    join(app_data_dir, "recordings")
}

/// A copy of an optional text, equal to it.
fn copy_of_text(text: &Option<String>) -> (copy: Option<String>)
    ensures
        copy == *text,
{
    match text {
        Some(t) => Some(t.clone()),
        None => None,
    }
}

impl HistoryEntry {
    /// A copy of the entry, equal to it field by field.
    pub fn duplicate(&self) -> (copy: Self)
        ensures
            copy == *self,
    {
        HistoryEntry {
            id: self.id.clone(),
            created_at: self.created_at.clone(),
            text: self.text.clone(),
            model_id: self.model_id.clone(),
            recording_duration_ms: self.recording_duration_ms,
            transcription_duration_ms: self.transcription_duration_ms,
            audio_device: copy_of_text(&self.audio_device),
            audio_file_name: copy_of_text(&self.audio_file_name),
        }
    }
}

/// The part of a history that is stored: its first [`MAX_ENTRIES`] entries.
pub open spec fn stored_part(entries: Seq<HistoryEntry>) -> Seq<HistoryEntry> {
    if entries.len() > MAX_ENTRIES {
        entries.take(MAX_ENTRIES as int)
    } else {
        entries
    }
}

/// The entries that are written when a history is saved: the oldest ones
/// beyond the bound are dropped.
pub fn entries_to_save(entries: &[HistoryEntry]) -> (kept: &[HistoryEntry])
    ensures
        kept@ == stored_part(entries@),
{
    if entries.len() > MAX_ENTRIES {
        slice_subrange(entries, 0, MAX_ENTRIES)
    } else {
        entries
    }
}

/// Put `entry` in front of the history.
pub fn add_entry(entries: &mut Vec<HistoryEntry>, entry: &HistoryEntry)
    ensures
        final(entries)@ == seq![*entry] + old(entries)@,
{
    entries.insert(0, entry.duplicate());
    assert(entries@ == seq![*entry] + old(entries)@);
}

/// The first `n` entries without those that bear `id`, in order.
pub open spec fn without_id(entries: Seq<HistoryEntry>, id: Seq<char>, n: int) -> Seq<HistoryEntry>
    decreases n,
{
    if n <= 0 {
        Seq::empty()
    } else if entries[n - 1].id@ == id {
        without_id(entries, id, n - 1)
    } else {
        without_id(entries, id, n - 1).push(entries[n - 1])
    }
}

/// The audio file of the first among the first `n` entries that bears `id`,
/// if there is such an entry and it has a file.
pub open spec fn audio_file_of(entries: Seq<HistoryEntry>, id: Seq<char>, n: int) -> Option<String>
    decreases n,
{
    if n <= 0 {
        None
    } else if exists|j: int| 0 <= j < n - 1 && entries[j].id@ == id {
        audio_file_of(entries, id, n - 1)
    } else if entries[n - 1].id@ == id {
        entries[n - 1].audio_file_name
    } else {
        None
    }
}

/// Remove every entry that bears `id` from the history.
///
/// The result names the audio file that is to be deleted with them: that of
/// the first such entry, where it has one.
pub fn delete_entry(entries: &mut Vec<HistoryEntry>, id: &str) -> (audio_file: Option<String>)
    ensures
        final(entries)@ == without_id(old(entries)@, id@, old(entries)@.len() as int),
        audio_file == audio_file_of(old(entries)@, id@, old(entries)@.len() as int),
{
    let wanted = String::from_str(id);
    let n = entries.len();
    let mut kept: Vec<HistoryEntry> = Vec::new();
    let mut audio_file: Option<String> = None;
    let mut found = false;
    let mut i: usize = 0;
    while i < n
        invariant
            n == entries@.len(),
            entries@ == old(entries)@,
            wanted@ == id@,
            i <= n,
            kept@ == without_id(entries@, id@, i as int),
            found <==> exists|j: int| 0 <= j < i && entries@[j].id@ == id@,
            audio_file == audio_file_of(entries@, id@, i as int),
        decreases n - i,
    {
        if entries[i].id == wanted {
            if !found {
                audio_file = copy_of_text(&entries[i].audio_file_name);
                found = true;
            }
        } else {
            kept.push(entries[i].duplicate());
        }
        i += 1;
    }
    *entries = kept;
    audio_file
}

} // verus!
