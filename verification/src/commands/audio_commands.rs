//! The recording session: its guards and its transitions.
//!
//! A session is idle, recording or being transcribed. Every transition takes
//! the process-wide [`AppState`] and either performs the whole step or
//! reports why it could not and leaves the state as it found it.

use vstd::prelude::*;
use vstd::string::StringExecFns;

use crate::audio::TranscriptionResult;
use crate::commands::{fails_with, CommandError};
use crate::history::HistoryEntry;
use crate::preferences::UserPreferences;
use crate::transcription::engine::TranscriptionEngine;
use crate::AppState;

verus! {

/// What a successful stop leaves in the caller's hands: the capture, now
/// owned by the caller alone, the identifier of the session that the
/// recording becomes, and how long the recording ran.
#[derive(Debug, PartialEq, Eq)]
pub struct StoppedRecording<C> {
    pub capture: C,
    pub session_id: String,
    pub recording_duration_ms: u64,
}

/// Milliseconds from `started_at` to `now_ms`; zero where no start was
/// recorded or the clock reads earlier than the start.
pub open spec fn elapsed_ms(started_at: Option<u64>, now_ms: u64) -> u64 {
    match started_at {
        Some(start) if start <= now_ms => (now_ms - start) as u64,
        _ => 0,
    }
}

/// Calls `uuid::Uuid::new_v4` and formats the identifier with its `Display`
/// impl, which writes the hyphenated form: 36 characters. The identifier is
/// random, so nothing else is claimed of it.
#[verifier::external_body]
fn new_session_id() -> (id: String)
    ensures
        id@.len() == 36,
{
    uuid::Uuid::new_v4().to_string()
}

/// Calls `chrono::Utc::now` and `DateTime::to_rfc3339`: the current time as
/// text. It depends on the clock, so nothing is claimed of it.
#[verifier::external_body]
fn now_rfc3339() -> String {
    chrono::Utc::now().to_rfc3339()
}

/// Validate that recording can be started: a transcription engine is loaded
/// and no recording is under way. The engine is looked at first, so a caller
/// without one is told so even while a recording runs.
pub fn validate_can_start_recording<C, E>(state: &AppState<C, E>) -> (result: Result<
    (),
    CommandError,
>)
    ensures
        state.engine is None ==> fails_with(
            result,
            "NoModelSelected"@,
            "No active transcription model loaded. Please select and download a model first."@,
        ),
        state.engine is Some && state.recording_active ==> fails_with(
            result,
            "AlreadyRecording"@,
            "A recording session is already active."@,
        ),
        state.engine is Some && !state.recording_active ==> result is Ok,
{
    if state.engine.is_none() {
        return Err(
            CommandError::new(
                "NoModelSelected",
                "No active transcription model loaded. Please select and download a model first.",
            ),
        );
    }
    if state.recording_active {
        return Err(CommandError::new("AlreadyRecording", "A recording session is already active."));
    }
    Ok(())
}

/// Validate that recording can be stopped: one is under way.
pub fn validate_can_stop_recording<C, E>(state: &AppState<C, E>) -> (result: Result<
    (),
    CommandError,
>)
    ensures
        !state.recording_active ==> fails_with(
            result,
            "NotRecording"@,
            "No active recording session."@,
        ),
        state.recording_active ==> result is Ok,
{
    if !state.recording_active {
        return Err(CommandError::new("NotRecording", "No active recording session."));
    }
    Ok(())
}

/// Start a recording session.
///
/// After the guards have passed, `open_capture` is called once with the input
/// device that the preferences select. Its capture fills the capture slot,
/// the recording flag is set, `now_ms` becomes the start instant and a fresh
/// session identifier is returned. Where a guard or `open_capture` fails, the
/// state is left untouched.
pub fn start_recording<C, E, F>(
    state: &mut AppState<C, E>,
    now_ms: u64,
    open_capture: F,
) -> (result: Result<String, CommandError>) where F: FnOnce(Option<String>) -> Result<C, String>
    requires
        open_capture.requires((old(state).preferences.selected_audio_device,)),
    ensures
        final(state).preferences == old(state).preferences,
        final(state).engine == old(state).engine,
        old(state).is_consistent() ==> final(state).is_consistent(),
        old(state).engine is None ==> *final(state) == *old(state) && fails_with(
            result,
            "NoModelSelected"@,
            "No active transcription model loaded. Please select and download a model first."@,
        ),
        old(state).engine is Some && old(state).recording_active ==> *final(state) == *old(state)
            && fails_with(
            result,
            "AlreadyRecording"@,
            "A recording session is already active."@,
        ),
        (old(state).engine is Some && !old(state).recording_active ==> exists|
            opened: Result<C, String>,
        |
            {
                &&& open_capture.ensures((old(state).preferences.selected_audio_device,), opened)
                &&& match opened {
                    Ok(capture) => {
                        &&& result matches Ok(id) && id@.len() == 36
                        &&& final(state).is_recording()
                        &&& final(state).recording_active
                        &&& final(state).active_capture == Some(capture)
                        &&& final(state).recording_started_at == Some(now_ms)
                    },
                    Err(cause) => {
                        &&& *final(state) == *old(state)
                        &&& fails_with(result, "MicrophoneUnavailable"@, cause@)
                    },
                }
            }),
{
    match validate_can_start_recording(state) {
        Err(e) => {
            return Err(e);
        },
        Ok(()) => {},
    }
    let device = match &state.preferences.selected_audio_device {
        Some(name) => Some(name.clone()),
        None => None,
    };
    let opened = open_capture(device);
    match opened {
        Err(cause) => {
            let error = CommandError::new("MicrophoneUnavailable", cause.as_str());
            assert(open_capture.ensures(
                (old(state).preferences.selected_audio_device,),
                Err::<C, String>(cause),
            ));
            Err(error)
        },
        Ok(capture) => {
            assert(open_capture.ensures(
                (old(state).preferences.selected_audio_device,),
                Ok::<C, String>(capture),
            ));
            state.active_capture = Some(capture);
            state.recording_active = true;
            state.recording_started_at = Some(now_ms);
            Ok(new_session_id())
        },
    }
}

/// Stop the recording that is under way and take over its capture.
///
/// While no recording runs, the call fails and touches nothing. Otherwise the
/// recording flag and the start instant are cleared whatever follows, and the
/// capture leaves its slot: a second stop finds none and cannot process the
/// same buffer again.
pub fn stop_recording<C, E>(state: &mut AppState<C, E>, now_ms: u64) -> (result: Result<
    StoppedRecording<C>,
    CommandError,
>)
    ensures
        final(state).preferences == old(state).preferences,
        final(state).engine == old(state).engine,
        old(state).is_consistent() ==> final(state).is_consistent(),
        !old(state).recording_active ==> *final(state) == *old(state) && fails_with(
            result,
            "NotRecording"@,
            "No active recording session."@,
        ),
        old(state).recording_active ==> final(state).is_idle(),
        old(state).recording_active && old(state).active_capture is None ==> fails_with(
            result,
            "NotRecording"@,
            "No active capture found."@,
        ),
        old(state).recording_active ==> (old(state).active_capture matches Some(capture)
            ==> result matches Ok(stopped) && stopped.capture == capture
            && stopped.recording_duration_ms == elapsed_ms(
            old(state).recording_started_at,
            now_ms,
        ) && stopped.session_id@.len() == 36),
{
    match validate_can_stop_recording(state) {
        Err(e) => {
            return Err(e);
        },
        Ok(()) => {},
    }
    let taken = state.active_capture.take();
    let started_at = state.recording_started_at.take();
    state.recording_active = false;
    let recording_duration_ms = match started_at {
        Some(start) => if start <= now_ms {
            now_ms - start
        } else {
            0
        },
        None => 0,
    };
    match taken {
        None => Err(CommandError::new("NotRecording", "No active capture found.")),
        Some(capture) => Ok(
            StoppedRecording { capture, session_id: new_session_id(), recording_duration_ms },
        ),
    }
}

/// Cancel the recording that is under way: its capture is discarded unread
/// and the session is idle again. While no recording runs, the call fails and
/// touches nothing.
pub fn cancel_recording<C, E>(state: &mut AppState<C, E>) -> (result: Result<(), CommandError>)
    ensures
        final(state).preferences == old(state).preferences,
        final(state).engine == old(state).engine,
        old(state).is_consistent() ==> final(state).is_consistent(),
        !old(state).recording_active ==> *final(state) == *old(state) && fails_with(
            result,
            "NotRecording"@,
            "No active recording session."@,
        ),
        old(state).recording_active ==> final(state).is_idle() && result is Ok,
{
    match validate_can_stop_recording(state) {
        Err(e) => {
            return Err(e);
        },
        Ok(()) => {},
    }
    let discarded = state.active_capture.take();
    state.recording_started_at = None;
    state.recording_active = false;
    Ok(())
}

/// What the session reports when conversion to the target rate has ended:
/// the converted audio, or the failure as the end of the session.
pub fn resampled_audio<S>(outcome: Result<Vec<S>, String>) -> (result: Result<
    Vec<S>,
    CommandError,
>)
    ensures
        (match outcome {
            Ok(audio) => result == Ok::<Vec<S>, CommandError>(audio),
            Err(cause) => fails_with(
                result,
                "TranscriptionFailed"@,
                "Resampling failed: "@ + cause@,
            ),
        }),
{
    match outcome {
        Ok(audio) => Ok(audio),
        Err(cause) => {
            let mut message = String::from_str("Resampling failed: ");
            message.append(cause.as_str());
            Err(CommandError::new("TranscriptionFailed", message.as_str()))
        },
    }
}

/// What the session reports when the engine has answered: the text, or the
/// engine's failure as the end of the session.
pub fn transcribed_text(outcome: Result<String, String>) -> (result: Result<String, CommandError>)
    ensures
        (match outcome {
            Ok(text) => result == Ok::<String, CommandError>(text),
            Err(cause) => fails_with(result, "TranscriptionFailed"@, cause@),
        }),
{
    match outcome {
        Ok(text) => Ok(text),
        Err(cause) => Err(CommandError::new("TranscriptionFailed", cause.as_str())),
    }
}

/// Hand the converted audio of a stopped recording to the loaded engine.
///
/// Without an engine the call fails with `NoModelSelected`. With one, the
/// engine is called once, on `audio`, and its answer decides: its text comes
/// back as it is, and its failure as `TranscriptionFailed` with the engine's
/// own message.
pub fn transcribe_recording<S, E: TranscriptionEngine<S> + ?Sized>(
    engine: Option<&E>,
    audio: &[S],
) -> (result: Result<String, CommandError>)
    ensures
        engine is None ==> fails_with(result, "NoModelSelected"@, "No model loaded."@),
        (engine matches Some(loaded) ==> exists|outcome: Result<String, String>|
            {
                &&& #[trigger] call_ensures(E::transcribe, (loaded, audio), outcome)
                &&& match outcome {
                    Ok(text) => result == Ok::<String, CommandError>(text),
                    Err(cause) => fails_with(result, "TranscriptionFailed"@, cause@),
                }
            }),
{
    match engine {
        None => Err(CommandError::new("NoModelSelected", "No model loaded.")),
        Some(loaded) => {
            let outcome = loaded.transcribe(audio);
            let ghost answered = outcome;
            let result = transcribed_text(outcome);
            assert(call_ensures(E::transcribe, (loaded, audio), answered));
            result
        },
    }
}

/// The result of a session that ended with `text`.
pub fn completed_session(stopped_session_id: String, text: String, duration_ms: u64) -> (result:
    TranscriptionResult)
    ensures
        result.session_id == stopped_session_id,
        result.text == text,
        result.duration_ms == duration_ms,
{
    TranscriptionResult { session_id: stopped_session_id, text, duration_ms }
}

/// The history entry of a session that ended with `text`, stamped with the
/// current time. The model and the input device are those that the
/// preferences name; a session without an active model is filed under the
/// empty model name.
pub fn new_history_entry(
    preferences: &UserPreferences,
    session_id: &str,
    text: &str,
    recording_duration_ms: u64,
    transcription_duration_ms: u64,
    audio_file_name: Option<String>,
) -> (entry: HistoryEntry)
    ensures
        entry.id@ == session_id@,
        entry.text@ == text@,
        (entry.model_id@ == match preferences.active_model_id {
            Some(id) => id@,
            None => Seq::<char>::empty(),
        }),
        entry.recording_duration_ms == recording_duration_ms,
        entry.transcription_duration_ms == transcription_duration_ms,
        entry.audio_device == preferences.selected_audio_device,
        entry.audio_file_name == audio_file_name,
{
    let model_id = match &preferences.active_model_id {
        Some(id) => id.clone(),
        None => String::new(),
    };
    let audio_device = match &preferences.selected_audio_device {
        Some(name) => Some(name.clone()),
        None => None,
    };
    HistoryEntry {
        id: String::from_str(session_id),
        created_at: now_rfc3339(),
        text: String::from_str(text),
        model_id,
        recording_duration_ms,
        transcription_duration_ms,
        audio_device,
        audio_file_name,
    }
}

} // verus!
