//! Target windows and the target mode.

use text_to_code_lib::injection::windows::offer_windows;
use text_to_code_lib::injection::TargetWindow;
use text_to_code_lib::preferences::{TargetMode, UserPreferences};
use text_to_code_lib::transcription::engine::TranscriptionEngine;
use text_to_code_lib::AppState;

struct NoCapture;

struct NoEngine;

impl TranscriptionEngine<f32> for NoEngine {
    fn transcribe(&self, _audio: &[f32]) -> Result<String, String> {
        Ok(String::new())
    }
}

fn make_test_state() -> AppState<NoCapture, NoEngine> {
    AppState {
        preferences: UserPreferences::default(),
        recording_active: false,
        engine: None,
        active_capture: None,
        recording_started_at: None,
    }
}

fn window(id: &str, title: &str, app_name: &str, process_id: u32) -> TargetWindow {
    TargetWindow {
        window_id: id.to_string(),
        title: title.to_string(),
        app_name: app_name.to_string(),
        process_id,
        icon: None,
    }
}

// --- list_windows contract tests ---

#[test]
fn test_list_windows_returns_vec() {
    let windows: Vec<text_to_code_lib::injection::TargetWindow> = Vec::new();
    assert!(windows.is_empty());
}

// --- target mode contract tests ---

#[test]
fn test_set_window_picker_mode() {
    let mut state = make_test_state();

    state.preferences.target_mode = TargetMode::WindowPicker;

    let prefs = &state.preferences;
    assert!(
        matches!(prefs.target_mode, TargetMode::WindowPicker),
        "Expected WindowPicker target mode"
    );
}

#[test]
fn test_toggle_window_picker_to_active() {
    let mut state = make_test_state();

    // Set to WindowPicker first
    state.preferences.target_mode = TargetMode::WindowPicker;

    // Toggle back to ActiveWindow
    state.preferences.target_mode = TargetMode::ActiveWindow;

    let prefs = &state.preferences;
    assert!(matches!(prefs.target_mode, TargetMode::ActiveWindow));
}

#[test]
fn test_injection_windows_test_default_target_mode_is_active_window() {
    let state = make_test_state();
    let prefs = &state.preferences;
    assert!(
        matches!(prefs.target_mode, TargetMode::ActiveWindow),
        "Default target mode should be ActiveWindow"
    );
}

#[test]
fn test_offer_one_window_per_application() {
    let offered = offer_windows(
        vec![
            window("1", "main.rs", "Code", 100),
            window("2", "Settings", "TalkyTexty", 200),
            window("3", "lib.rs", "Code", 100),
            window("4", "zsh", "Terminal", 300),
            window("5", "Overlay", "Terminal", 200),
        ],
        200,
    );
    assert_eq!(
        offered,
        vec![window("1", "main.rs", "Code", 100), window("4", "zsh", "Terminal", 300)]
    );
}

#[test]
fn test_own_window_does_not_hide_a_namesake() {
    // An application of the same name in another process is still offered.
    let offered = offer_windows(
        vec![window("1", "A", "Notes", 200), window("2", "B", "Notes", 300)],
        200,
    );
    assert_eq!(offered, vec![window("2", "B", "Notes", 300)]);
    assert!(offer_windows(Vec::new(), 1).is_empty());
}
