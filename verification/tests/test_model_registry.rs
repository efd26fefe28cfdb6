//! The model registry through download, activation and deletion, with the
//! saved registry held in memory.

use text_to_code_lib::commands::model_commands::{
    validate_can_delete, validate_can_download, validate_can_set_active_model,
};
use text_to_code_lib::preferences::UserPreferences;
use text_to_code_lib::transcription::models::{get_builtin_models, update_model_status};
use text_to_code_lib::transcription::{DownloadStatus, TranscriptionModel};
use text_to_code_lib::AppState;

struct NoCapture;

struct NoEngine;

fn make_test_state() -> AppState<NoCapture, NoEngine> {
    AppState {
        preferences: UserPreferences::default(),
        recording_active: false,
        engine: None,
        active_capture: None,
        recording_started_at: None,
    }
}

fn empty_registry() -> Vec<TranscriptionModel> {
    Vec::new()
}

// --- hot-swap model loading contract tests ---

#[test]
fn test_set_active_model_errors_during_recording() {
    let mut state = make_test_state();

    // Set recording active
    state.recording_active = true;

    let result = validate_can_set_active_model(&state);
    assert!(result.is_err());
    let err = result.unwrap_err();
    assert_eq!(err.code, "RecordingInProgress");
}

#[test]
fn test_set_active_model_succeeds_when_not_recording() {
    let state = make_test_state();

    // recording_active defaults to false
    let result = validate_can_set_active_model(&state);
    assert!(result.is_ok());
}

// --- download_model contract tests ---

#[test]
fn test_download_model_errors_on_already_downloaded() {
    // Get model ID and mark as downloaded
    let all_models = get_builtin_models(&empty_registry());
    let model = &all_models[0];
    let registry = update_model_status(
        &empty_registry(),
        &model.id,
        DownloadStatus::Downloaded {
            local_path: "/fake/path.bin".to_string(),
        },
    );

    // Verify model is now Downloaded
    let refreshed = get_builtin_models(&registry);
    let model = refreshed.iter().find(|m| m.id == all_models[0].id).unwrap();
    assert!(
        matches!(&model.download_status, DownloadStatus::Downloaded { .. }),
        "Model should be marked as Downloaded"
    );
    assert_eq!(
        validate_can_download(&refreshed, &all_models[0].id).unwrap_err().code,
        "AlreadyDownloaded"
    );
}

#[test]
fn test_download_model_returns_updated_model_on_success() {
    let models_list = get_builtin_models(&empty_registry());
    let model = &models_list[0];

    let registry = update_model_status(
        &empty_registry(),
        &model.id,
        DownloadStatus::Downloaded {
            local_path: "/data/models/ggml-base.en-q5_1.bin".to_string(),
        },
    );

    // Verify returned model has Downloaded status
    let updated = get_builtin_models(&registry);
    let result = updated.iter().find(|m| m.id == model.id).unwrap();
    match &result.download_status {
        DownloadStatus::Downloaded { local_path } => {
            assert!(!local_path.is_empty());
        }
        _ => panic!("Expected Downloaded status"),
    }
}

// --- delete_model contract tests ---

#[test]
fn test_delete_model_errors_on_model_in_use() {
    let mut state = make_test_state();

    let all_models = get_builtin_models(&empty_registry());
    let model_id = all_models[0].id.clone();

    // Set model as active in preferences
    state.preferences.active_model_id = Some(model_id.clone());

    let prefs = &state.preferences;
    assert_eq!(
        prefs.active_model_id.as_deref(),
        Some(model_id.as_str()),
        "Active model should match"
    );
    assert_eq!(
        validate_can_delete(&prefs.active_model_id, &all_models, &model_id).unwrap_err().code,
        "ModelInUse"
    );
}

#[test]
fn test_delete_model_errors_on_not_downloaded() {
    // All models start as NotDownloaded
    let all_models = get_builtin_models(&empty_registry());
    let model = &all_models[0];
    assert!(
        matches!(model.download_status, DownloadStatus::NotDownloaded),
        "Model should be NotDownloaded"
    );
    assert_eq!(
        validate_can_delete(&None, &all_models, &model.id).unwrap_err().code,
        "NotDownloaded"
    );
}

#[test]
fn test_delete_model_succeeds_when_downloaded_and_not_active() {
    let state = make_test_state();

    let all_models = get_builtin_models(&empty_registry());
    let model = &all_models[0];

    let registry = update_model_status(
        &empty_registry(),
        &model.id,
        DownloadStatus::Downloaded {
            local_path: "/data/models/ggml-base.en-q5_1.bin".to_string(),
        },
    );

    // Ensure no active model
    assert!(state.preferences.active_model_id.is_none());

    let downloaded = get_builtin_models(&registry);
    assert_eq!(
        validate_can_delete(&state.preferences.active_model_id, &downloaded, &model.id),
        Ok("/data/models/ggml-base.en-q5_1.bin".to_string())
    );

    // Delete: update status
    let registry = update_model_status(&registry, &model.id, DownloadStatus::NotDownloaded);

    // Verify model is now NotDownloaded
    let updated = get_builtin_models(&registry);
    let result = updated.iter().find(|m| m.id == model.id).unwrap();
    assert!(matches!(
        result.download_status,
        DownloadStatus::NotDownloaded
    ));
}

#[test]
fn test_delete_model_errors_on_unknown_model_id() {
    // Verify unknown model doesn't exist
    let all_models = get_builtin_models(&empty_registry());
    let found = all_models.iter().find(|m| m.id == "nonexistent-model");
    assert!(found.is_none(), "Unknown model ID should not be found");
    assert_eq!(
        validate_can_delete(&None, &all_models, "nonexistent-model").unwrap_err().code,
        "ModelNotFound"
    );
}

#[test]
fn test_only_one_model_has_changed_status_after_download() {
    let model_id = "small-en-q5_1";
    let registry = update_model_status(
        &empty_registry(),
        model_id,
        DownloadStatus::Downloaded {
            local_path: "/fake/small-en-q5_1.bin".to_string(),
        },
    );

    let models_list = get_builtin_models(&registry);
    let downloaded_count = models_list
        .iter()
        .filter(|m| matches!(&m.download_status, DownloadStatus::Downloaded { .. }))
        .count();
    assert_eq!(
        downloaded_count, 1,
        "Only one model should be Downloaded, others should remain NotDownloaded"
    );
}

#[test]
fn test_registry_update_sets_downloaded_status() {
    // First get models (all NotDownloaded)
    let models = get_builtin_models(&empty_registry());
    let model_id = &models[0].id;
    assert!(matches!(
        models[0].download_status,
        DownloadStatus::NotDownloaded
    ));

    let registry = update_model_status(
        &empty_registry(),
        model_id,
        DownloadStatus::Downloaded {
            local_path: "/data/models/ggml-base.en-q5_1.bin".to_string(),
        },
    );

    // Verify status updated in registry
    let updated = get_builtin_models(&registry);
    let model = updated.iter().find(|m| m.id == *model_id).unwrap();
    assert!(
        matches!(&model.download_status, DownloadStatus::Downloaded { local_path } if !local_path.is_empty()),
        "Model should be Downloaded with a path"
    );
}

#[test]
fn test_registry_preserves_status_across_reloads() {
    let models = get_builtin_models(&empty_registry());
    let model_id = models[0].id.clone();

    // Set as downloaded
    let registry = update_model_status(
        &empty_registry(),
        &model_id,
        DownloadStatus::Downloaded {
            local_path: "/fake/path.bin".to_string(),
        },
    );

    // Reload and verify persistence
    let reloaded = get_builtin_models(&get_builtin_models(&registry));
    let model = reloaded.iter().find(|m| m.id == model_id).unwrap();
    assert!(matches!(
        &model.download_status,
        DownloadStatus::Downloaded { .. }
    ));
}

#[test]
fn test_update_model_status_for_unknown_model_does_not_error() {
    // Updating a non-existent model ID changes no status
    let registry = update_model_status(
        &empty_registry(),
        "nonexistent-model-id",
        DownloadStatus::Downloaded {
            local_path: "/fake.bin".to_string(),
        },
    );

    // Verify no model has the fake status
    let models = get_builtin_models(&registry);
    for model in &models {
        if model.id == "nonexistent-model-id" {
            panic!("Unknown model should not appear in registry");
        }
        assert_eq!(model.download_status, DownloadStatus::NotDownloaded);
    }
}

#[test]
fn test_update_status_back_to_not_downloaded() {
    let models = get_builtin_models(&empty_registry());
    let model_id = models[0].id.clone();

    // Set as downloaded then revert
    let registry = update_model_status(
        &empty_registry(),
        &model_id,
        DownloadStatus::Downloaded {
            local_path: "/fake.bin".to_string(),
        },
    );

    let registry = update_model_status(&registry, &model_id, DownloadStatus::NotDownloaded);

    let reloaded = get_builtin_models(&registry);
    let model = reloaded.iter().find(|m| m.id == model_id).unwrap();
    assert!(matches!(
        model.download_status,
        DownloadStatus::NotDownloaded
    ));
}
