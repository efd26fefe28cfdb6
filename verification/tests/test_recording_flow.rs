//! The recording session from start to transcription, with a capture and an
//! engine that stand in for the hardware and the model.

use std::cell::RefCell;

use rubato::{FftFixedInOut, Resampler};
use text_to_code_lib::audio::resample::resample_to_16khz;
use text_to_code_lib::audio::TranscriptionResult;
use text_to_code_lib::commands::audio_commands::{
    cancel_recording, completed_session, new_history_entry, resampled_audio, start_recording,
    stop_recording, transcribe_recording, transcribed_text, validate_can_start_recording,
    validate_can_stop_recording,
};
use text_to_code_lib::commands::CommandError;
use text_to_code_lib::preferences::UserPreferences;
use text_to_code_lib::transcription::engine::TranscriptionEngine;
use text_to_code_lib::AppState;

#[derive(Debug, PartialEq)]
struct FakeCapture {
    samples: Vec<f32>,
    sample_rate: u32,
}

struct EchoEngine {
    text: String,
}

impl TranscriptionEngine<f32> for EchoEngine {
    fn transcribe(&self, _audio: &[f32]) -> Result<String, String> {
        Ok(self.text.clone())
    }
}

struct BrokenEngine;

impl TranscriptionEngine<f32> for BrokenEngine {
    fn transcribe(&self, _audio: &[f32]) -> Result<String, String> {
        Err("model crashed".to_string())
    }
}

fn make_test_state() -> AppState<FakeCapture, EchoEngine> {
    AppState {
        preferences: UserPreferences::default(),
        recording_active: false,
        engine: None,
        active_capture: None,
        recording_started_at: None,
    }
}

fn fft_resampler(
    source_rate: usize,
    target_rate: usize,
    chunk_size: usize,
    channels: usize,
) -> Result<(usize, impl Fn(Vec<f32>) -> Result<Vec<f32>, String>), String> {
    let resampler = FftFixedInOut::<f32>::new(source_rate, target_rate, chunk_size, channels)
        .map_err(|e| e.to_string())?;
    let frames = resampler.input_frames_next();
    let resampler = RefCell::new(resampler);
    Ok((frames, move |chunk: Vec<f32>| {
        let produced = resampler
            .borrow_mut()
            .process(&[chunk], None)
            .map_err(|e| e.to_string())?;
        Ok(produced.into_iter().next().unwrap_or_default())
    }))
}

fn one_second_of_silence(_device: Option<String>) -> Result<FakeCapture, String> {
    Ok(FakeCapture { samples: vec![0.0; 44100], sample_rate: 44100 })
}

#[test]
fn test_recording_flow_state_transitions() {
    let mut state = make_test_state();

    // Initially: not recording, no model
    assert!(validate_can_stop_recording(&state).is_err());

    // Can't start without model
    assert_eq!(
        validate_can_start_recording(&state).unwrap_err().code,
        "NoModelSelected"
    );

    // Simulate that recording started
    state.recording_active = true;

    // Now stop should be valid
    assert!(validate_can_stop_recording(&state).is_ok());

    // Can't start while recording (model still not loaded, but AlreadyRecording
    // is checked after NoModelSelected)
    assert!(validate_can_start_recording(&state).is_err());

    // Simulate recording stopped
    state.recording_active = false;

    // Back to not recording
    assert!(validate_can_stop_recording(&state).is_err());
}

#[test]
fn test_resample_then_validate_pipeline() {
    // Generate synthetic 44.1kHz audio
    let source_rate = 44100u32;
    let audio: Vec<f32> = (0..44100)
        .map(|i| (2.0 * std::f32::consts::PI * 440.0 * i as f32 / source_rate as f32).sin())
        .collect();

    // Resample to 16kHz (what the transcription engine expects)
    let resampled = resample_to_16khz(&audio, source_rate, 0.0, fft_resampler).unwrap();

    // Verify the resampled audio is suitable for the engine
    assert!(!resampled.is_empty());
    let expected_len = 16000usize; // 1 second at 16kHz
    let tolerance = 200;
    assert!(
        (resampled.len() as i64 - expected_len as i64).unsigned_abs() < tolerance,
        "Resampled audio should be ~16000 samples, got {}",
        resampled.len()
    );

    // All samples should be valid
    assert!(resampled.iter().all(|s| s.is_finite()));
}

#[test]
fn test_start_stop_returns_the_engines_text_and_start_works_again() {
    let mut state = make_test_state();
    state.engine = Some(EchoEngine { text: "hello from the model".to_string() });

    let first_id = start_recording(&mut state, 1_000, one_second_of_silence).unwrap();
    assert_eq!(first_id.len(), 36);
    assert!(state.recording_active);
    assert_eq!(state.recording_started_at, Some(1_000));
    assert!(state.active_capture.is_some());

    let stopped = stop_recording(&mut state, 1_250).unwrap();
    assert_eq!(stopped.recording_duration_ms, 250);
    assert_eq!(stopped.session_id.len(), 36);
    assert_ne!(stopped.session_id, first_id);
    assert!(!state.recording_active);
    assert!(state.active_capture.is_none());
    assert!(state.recording_started_at.is_none());

    let capture = stopped.capture;
    let audio = resampled_audio(resample_to_16khz(
        &capture.samples,
        capture.sample_rate,
        0.0,
        fft_resampler,
    ))
    .unwrap();
    let text = transcribe_recording(state.engine.as_ref(), &audio).unwrap();
    let result = completed_session(stopped.session_id.clone(), text, 42);
    assert_eq!(
        result,
        TranscriptionResult {
            session_id: stopped.session_id,
            text: "hello from the model".to_string(),
            duration_ms: 42,
        }
    );

    // The session is idle again: a second start succeeds.
    let second_id = start_recording(&mut state, 2_000, one_second_of_silence).unwrap();
    assert_ne!(second_id, first_id);
    assert!(state.recording_active);
}

#[test]
fn test_start_without_model_fails_even_while_recording() {
    let mut state = make_test_state();
    state.recording_active = true;
    state.active_capture = Some(FakeCapture { samples: vec![1.0], sample_rate: 8000 });
    let err = start_recording(&mut state, 5, |_| -> Result<FakeCapture, String> {
        panic!("the capture is not opened")
    })
    .unwrap_err();
    assert_eq!(err.code, "NoModelSelected");
    assert!(state.recording_active);
    assert_eq!(
        state.active_capture,
        Some(FakeCapture { samples: vec![1.0], sample_rate: 8000 })
    );
}

#[test]
fn test_start_while_recording_fails() {
    let mut state = make_test_state();
    state.engine = Some(EchoEngine { text: String::new() });
    start_recording(&mut state, 10, one_second_of_silence).unwrap();
    let err = start_recording(&mut state, 20, |_| -> Result<FakeCapture, String> {
        panic!("the capture is not opened")
    })
    .unwrap_err();
    assert_eq!(err.code, "AlreadyRecording");
    assert_eq!(state.recording_started_at, Some(10));
}

#[test]
fn test_start_reports_microphone_failure_and_stays_idle() {
    let mut state = make_test_state();
    state.engine = Some(EchoEngine { text: String::new() });
    let err = start_recording(&mut state, 10, |_| -> Result<FakeCapture, String> {
        Err("Failed to build input stream: device busy".to_string())
    })
    .unwrap_err();
    assert_eq!(
        err,
        CommandError {
            code: "MicrophoneUnavailable".to_string(),
            message: "Failed to build input stream: device busy".to_string(),
        }
    );
    assert!(!state.recording_active);
    assert!(state.active_capture.is_none());
    assert!(state.recording_started_at.is_none());
}

#[test]
fn test_start_opens_the_selected_device() {
    let mut state = make_test_state();
    state.engine = Some(EchoEngine { text: String::new() });
    state.preferences.selected_audio_device = Some("USB Mic".to_string());
    let asked = RefCell::new(None);
    start_recording(&mut state, 10, |device| {
        *asked.borrow_mut() = Some(device);
        Ok(FakeCapture { samples: vec![], sample_rate: 16000 })
    })
    .unwrap();
    assert_eq!(*asked.borrow(), Some(Some("USB Mic".to_string())));
}

#[test]
fn test_stop_when_idle_touches_nothing() {
    let mut state = make_test_state();
    state.active_capture = Some(FakeCapture { samples: vec![0.5], sample_rate: 8000 });
    state.recording_started_at = Some(7);
    let err = stop_recording(&mut state, 100).unwrap_err();
    assert_eq!(err.code, "NotRecording");
    assert_eq!(err.message, "No active recording session.");
    assert_eq!(
        state.active_capture,
        Some(FakeCapture { samples: vec![0.5], sample_rate: 8000 })
    );
    assert_eq!(state.recording_started_at, Some(7));
}

#[test]
fn test_stop_without_capture_clears_the_flag() {
    let mut state = make_test_state();
    state.recording_active = true;
    state.recording_started_at = Some(7);
    let err = stop_recording(&mut state, 100).unwrap_err();
    assert_eq!(err.code, "NotRecording");
    assert_eq!(err.message, "No active capture found.");
    assert!(!state.recording_active);
    assert!(state.recording_started_at.is_none());
}

#[test]
fn test_stop_duration_is_never_negative() {
    let mut state = make_test_state();
    state.engine = Some(EchoEngine { text: String::new() });
    start_recording(&mut state, 500, one_second_of_silence).unwrap();
    // A clock that reads earlier than the start gives zero.
    assert_eq!(stop_recording(&mut state, 400).unwrap().recording_duration_ms, 0);
}

#[test]
fn test_second_stop_finds_nothing() {
    let mut state = make_test_state();
    state.engine = Some(EchoEngine { text: String::new() });
    start_recording(&mut state, 0, one_second_of_silence).unwrap();
    assert!(stop_recording(&mut state, 1).is_ok());
    assert_eq!(stop_recording(&mut state, 2).unwrap_err().code, "NotRecording");
}

#[test]
fn test_cancel_discards_the_capture() {
    let mut state = make_test_state();
    assert_eq!(cancel_recording(&mut state).unwrap_err().code, "NotRecording");

    state.engine = Some(EchoEngine { text: String::new() });
    start_recording(&mut state, 0, one_second_of_silence).unwrap();
    assert_eq!(cancel_recording(&mut state), Ok(()));
    assert!(!state.recording_active);
    assert!(state.active_capture.is_none());
    assert!(state.recording_started_at.is_none());
    assert!(start_recording(&mut state, 0, one_second_of_silence).is_ok());
}

#[test]
fn test_pipeline_failures_end_the_session() {
    let to_audio: Result<Vec<f32>, String> = Err("chunk too short".to_string());
    assert_eq!(
        resampled_audio(to_audio),
        Err(CommandError {
            code: "TranscriptionFailed".to_string(),
            message: "Resampling failed: chunk too short".to_string(),
        })
    );
    assert_eq!(resampled_audio(Ok(vec![1.0f32, 2.0])), Ok(vec![1.0, 2.0]));
    assert_eq!(
        transcribed_text(Err("model crashed".to_string())),
        Err(CommandError {
            code: "TranscriptionFailed".to_string(),
            message: "model crashed".to_string(),
        })
    );
    assert_eq!(transcribed_text(Ok("hi".to_string())), Ok("hi".to_string()));
}

#[test]
fn test_transcribe_needs_an_engine() {
    let state = make_test_state();
    let err = transcribe_recording(state.engine.as_ref(), &[0.0f32]).unwrap_err();
    assert_eq!(err.code, "NoModelSelected");
    assert_eq!(err.message, "No model loaded.");

    let broken: AppState<FakeCapture, BrokenEngine> = AppState::new(
        UserPreferences::default(),
        Some(BrokenEngine),
    );
    let err = transcribe_recording(broken.engine.as_ref(), &[0.0f32]).unwrap_err();
    let shared: std::sync::Arc<dyn TranscriptionEngine<f32>> = std::sync::Arc::new(BrokenEngine);
    assert_eq!(
        transcribe_recording(Some(shared.as_ref()), &[0.0f32]).unwrap_err().code,
        "TranscriptionFailed"
    );
    assert_eq!(err.code, "TranscriptionFailed");
    assert_eq!(err.message, "model crashed");
}

#[test]
fn test_history_entry_of_a_session() {
    let mut preferences = UserPreferences::default();
    let entry = new_history_entry(&preferences, "abc", "some text", 1200, 340, None);
    assert_eq!(entry.id, "abc");
    assert_eq!(entry.text, "some text");
    assert_eq!(entry.model_id, "");
    assert_eq!(entry.recording_duration_ms, 1200);
    assert_eq!(entry.transcription_duration_ms, 340);
    assert_eq!(entry.audio_device, None);
    assert_eq!(entry.audio_file_name, None);
    // The time stamp is RFC 3339: a date, `T`, a time and an offset.
    assert!(entry.created_at.len() >= 20);
    assert_eq!(&entry.created_at[4..5], "-");
    assert_eq!(&entry.created_at[10..11], "T");

    preferences.active_model_id = Some("small-en".to_string());
    preferences.selected_audio_device = Some("USB Mic".to_string());
    let entry = new_history_entry(&preferences, "x", "y", 1, 2, Some("x.wav".to_string()));
    assert_eq!(entry.model_id, "small-en");
    assert_eq!(entry.audio_device, Some("USB Mic".to_string()));
    assert_eq!(entry.audio_file_name, Some("x.wav".to_string()));
}
