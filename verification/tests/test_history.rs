//! The history: newest first, bounded, and deletion by identifier.

use std::path::Path;

use text_to_code_lib::history::{
    add_entry, delete_entry, entries_to_save, get_history_path, get_recordings_dir,
    HistoryEntry, MAX_ENTRIES,
};

fn entry(id: &str, audio: Option<&str>) -> HistoryEntry {
    HistoryEntry {
        id: id.to_string(),
        created_at: "2025-01-01T00:00:00+00:00".to_string(),
        text: format!("text of {}", id),
        model_id: "small-en".to_string(),
        recording_duration_ms: 1000,
        transcription_duration_ms: 200,
        audio_device: None,
        audio_file_name: audio.map(|a| a.to_string()),
    }
}

#[test]
fn test_history_paths() {
    let dir = Path::new("/data/app");
    assert_eq!(get_history_path(dir), Path::new("/data/app/history.json"));
    assert_eq!(get_recordings_dir(dir), Path::new("/data/app/recordings"));
}

#[test]
fn test_add_entry_puts_newest_first() {
    let mut entries = vec![entry("a", None), entry("b", None)];
    add_entry(&mut entries, &entry("c", Some("c.wav")));
    assert_eq!(entries, vec![entry("c", Some("c.wav")), entry("a", None), entry("b", None)]);

    let mut empty = Vec::new();
    add_entry(&mut empty, &entry("x", None));
    assert_eq!(empty, vec![entry("x", None)]);
}

#[test]
fn test_duplicate_is_equal() {
    let first = entry("a", Some("a.wav"));
    assert_eq!(first.duplicate(), first);
}

#[test]
fn test_delete_entry_removes_all_with_id_and_names_first_audio() {
    let mut entries = vec![
        entry("a", Some("a.wav")),
        entry("b", Some("b1.wav")),
        entry("c", None),
        entry("b", Some("b2.wav")),
    ];
    let audio = delete_entry(&mut entries, "b");
    assert_eq!(audio, Some("b1.wav".to_string()));
    assert_eq!(entries, vec![entry("a", Some("a.wav")), entry("c", None)]);
}

#[test]
fn test_delete_entry_without_audio_or_match() {
    let mut entries = vec![entry("a", None), entry("a", Some("late.wav")), entry("c", None)];
    // The first entry with the identifier has no audio, so none is named.
    assert_eq!(delete_entry(&mut entries, "a"), None);
    assert_eq!(entries, vec![entry("c", None)]);

    assert_eq!(delete_entry(&mut entries, "zzz"), None);
    assert_eq!(entries, vec![entry("c", None)]);
}

#[test]
fn test_saved_history_is_bounded() {
    let many: Vec<HistoryEntry> = (0..MAX_ENTRIES + 3).map(|i| entry(&i.to_string(), None)).collect();
    let kept = entries_to_save(&many);
    assert_eq!(kept.len(), 5000);
    assert_eq!(kept[0].id, "0");
    assert_eq!(kept[4999].id, "4999");

    let few = vec![entry("a", None)];
    assert_eq!(entries_to_save(&few), &few[..]);
    let exactly: Vec<HistoryEntry> = (0..MAX_ENTRIES).map(|i| entry(&i.to_string(), None)).collect();
    assert_eq!(entries_to_save(&exactly).len(), 5000);
}
