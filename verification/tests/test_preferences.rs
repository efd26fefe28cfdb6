//! Preferences: defaults, validation, and the shortcuts that a change moves.

use std::path::Path;

use text_to_code_lib::commands::preferences_commands::{
    enabled_shortcuts, join, update_preferences, validate_preferences,
};
use text_to_code_lib::commands::system_commands::{permission_kind, PermissionKind, PermissionStatus};
use text_to_code_lib::commands::CommandError;
use text_to_code_lib::preferences::storage::get_preferences_path;
use text_to_code_lib::preferences::{
    detect_hotkey_conflicts, validate_hotkey_format, HotkeyAction, HotkeyBinding,
    OverlayPosition, ProcessingAnimation, RecordingMode, UserPreferences, VisualizationStyle,
};
use text_to_code_lib::AppState;

fn binding(action: HotkeyAction, keys: &str, enabled: bool) -> HotkeyBinding {
    HotkeyBinding { action, key_combination: keys.to_string(), enabled }
}

#[test]
fn test_default_preferences() {
    let prefs = UserPreferences::default();
    assert!(prefs.active_model_id.is_none());
    assert_eq!(prefs.recording_mode, RecordingMode::Toggle);
    assert_eq!(
        prefs.hotkeys,
        vec![
            binding(HotkeyAction::ToggleRecording, "CommandOrControl+Shift+Space", true),
            binding(HotkeyAction::PushToTalk, "CommandOrControl+Shift+V", false),
            binding(HotkeyAction::OpenTargetSelector, "CommandOrControl+Shift+T", true),
            binding(HotkeyAction::OpenSettings, "CommandOrControl+Shift+,", true),
        ]
    );
    assert_eq!(prefs.overlay_position, OverlayPosition::TopCenter);
    assert_eq!(prefs.overlay_opacity, 90);
    assert_eq!(prefs.overlay_visualization, VisualizationStyle::Bars);
    assert_eq!(prefs.overlay_processing_animation, ProcessingAnimation::Pulse);
    assert_eq!(ProcessingAnimation::default(), ProcessingAnimation::Pulse);
    assert!(prefs.overlay_custom_position.is_none());
    assert!(prefs.selected_audio_device.is_none());
    assert!(!prefs.launch_at_login);
}

#[test]
fn test_preferences_path() {
    assert_eq!(
        get_preferences_path(Path::new("/data/app")),
        Path::new("/data/app/preferences.json")
    );
}

#[test]
fn test_hotkey_format_messages() {
    assert_eq!(
        validate_hotkey_format(""),
        Err("Hotkey combination cannot be empty.".to_string())
    );
    assert_eq!(
        validate_hotkey_format("Space"),
        Err("Hotkey 'Space' must include at least one modifier (CommandOrControl, Shift, Alt).".to_string())
    );
    assert_eq!(
        validate_hotkey_format("Shift+alt"),
        Err("Hotkey 'Shift+alt' must include a non-modifier key.".to_string())
    );
}

#[test]
fn test_hotkey_format_edge_cases() {
    // Modifiers are recognised whatever their case.
    assert!(validate_hotkey_format("ctrl+K").is_ok());
    assert!(validate_hotkey_format("SUPER+option+F1").is_ok());
    // An empty part is a key like any other.
    assert!(validate_hotkey_format("Shift+").is_ok());
    assert!(validate_hotkey_format("+Shift").is_ok());
    assert!(validate_hotkey_format("+").is_err());
    // A modifier's name inside a longer word is a key.
    assert!(validate_hotkey_format("Shifty").is_err());
    assert!(validate_hotkey_format("Alt+Shifty").is_ok());
    // Non-ASCII letters are not folded.
    assert!(validate_hotkey_format("\u{212A}+A").is_err());
}

#[test]
fn test_conflicts_ignore_case_and_report_the_second_spelling() {
    let bindings = vec![
        binding(HotkeyAction::ToggleRecording, "Ctrl+Shift+R", true),
        binding(HotkeyAction::PushToTalk, "ctrl+shift+r", true),
        binding(HotkeyAction::OpenSettings, "CTRL+SHIFT+R", true),
        binding(HotkeyAction::OpenTargetSelector, "Alt+T", true),
    ];
    assert_eq!(detect_hotkey_conflicts(&bindings), vec!["ctrl+shift+r".to_string()]);
}

#[test]
fn test_conflicts_among_several_groups() {
    let bindings = vec![
        binding(HotkeyAction::ToggleRecording, "Alt+A", true),
        binding(HotkeyAction::PushToTalk, "Alt+B", true),
        binding(HotkeyAction::OpenSettings, "Alt+B", false),
        binding(HotkeyAction::OpenTargetSelector, "Alt+B", true),
        binding(HotkeyAction::OpenSettings, "alt+a", true),
    ];
    assert_eq!(
        detect_hotkey_conflicts(&bindings),
        vec!["Alt+B".to_string(), "alt+a".to_string()]
    );
    assert!(detect_hotkey_conflicts(&[]).is_empty());
}

#[test]
fn test_validate_preferences() {
    let mut prefs = UserPreferences::default();
    assert_eq!(validate_preferences(&prefs), Ok(()));

    // A disabled binding is not looked at.
    prefs.hotkeys[1].key_combination = "V".to_string();
    assert_eq!(validate_preferences(&prefs), Ok(()));

    // The first badly written enabled binding is reported.
    prefs.hotkeys[2].key_combination = "T".to_string();
    prefs.hotkeys[3].key_combination = String::new();
    assert_eq!(
        validate_preferences(&prefs),
        Err(CommandError {
            code: "InvalidHotkey".to_string(),
            message: "Hotkey 'T' must include at least one modifier (CommandOrControl, Shift, Alt).".to_string(),
        })
    );
}

#[test]
fn test_validate_preferences_reports_conflicts() {
    let mut prefs = UserPreferences::default();
    prefs.hotkeys[2].key_combination = "commandorcontrol+shift+space".to_string();
    prefs.hotkeys[1].enabled = true;
    prefs.hotkeys[3].key_combination = "CommandOrControl+Shift+V".to_string();
    assert_eq!(
        validate_preferences(&prefs),
        Err(CommandError {
            code: "InvalidHotkey".to_string(),
            message: "Conflicting hotkey bindings: commandorcontrol+shift+space, CommandOrControl+Shift+V".to_string(),
        })
    );
}

#[test]
fn test_join() {
    assert_eq!(join(&vec![], ", "), "");
    assert_eq!(join(&vec!["a".to_string()], ", "), "a");
    assert_eq!(join(&vec!["a".to_string(), "".to_string(), "c".to_string()], ", "), "a, , c");
}

#[test]
fn test_update_preferences_moves_shortcuts() {
    let mut state: AppState<u8, u8> = AppState::new(UserPreferences::default(), Some(1));
    state.recording_active = true;
    let mut next = UserPreferences::default();
    next.hotkeys[0].key_combination = "Alt+Shift+X".to_string();
    next.hotkeys[1].enabled = true;
    next.hotkeys[3].enabled = false;
    next.recording_mode = RecordingMode::PushToTalk;

    let change = update_preferences(&mut state, next.clone());
    assert_eq!(
        change.unregister,
        vec![
            "CommandOrControl+Shift+Space".to_string(),
            "CommandOrControl+Shift+T".to_string(),
            "CommandOrControl+Shift+,".to_string(),
        ]
    );
    assert_eq!(
        change.register,
        vec![
            "Alt+Shift+X".to_string(),
            "CommandOrControl+Shift+V".to_string(),
            "CommandOrControl+Shift+T".to_string(),
        ]
    );
    assert_eq!(state.preferences, next);
    assert!(state.recording_active);
    assert_eq!(state.engine, Some(1));
    assert_eq!(enabled_shortcuts(&[]), Vec::<String>::new());
}

#[test]
fn test_permission_kind() {
    assert_eq!(permission_kind("microphone"), Ok(PermissionKind::Microphone));
    assert_eq!(permission_kind("accessibility"), Ok(PermissionKind::Accessibility));
    assert_eq!(
        permission_kind("camera"),
        Err(CommandError {
            code: "InvalidPermissionType".to_string(),
            message: "Unknown permission type: camera".to_string(),
        })
    );
    let status = PermissionStatus { microphone: true, accessibility: false };
    assert!(status.microphone && !status.accessibility);
}

#[test]
fn test_command_error_new() {
    let error = CommandError::new("Code", "a message");
    assert_eq!(error.code, "Code");
    assert_eq!(error.message, "a message");
    assert_eq!(error.to_text(), "Code: a message");
}
