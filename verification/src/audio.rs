//! Recording sessions and the events they produce.

use vstd::prelude::*;

pub mod capture;
pub mod resample;

verus! {

/// One record-and-transcribe attempt.
#[derive(Debug, Clone, PartialEq, Eq)]
pub struct RecordingSession {
    pub id: String,
    pub started_at: String,
    pub ended_at: Option<String>,
    pub duration_ms: Option<u64>,
    pub status: RecordingStatus,
    pub model_id: String,
    pub transcription: Option<String>,
    pub target_window: TargetWindowRef,
}

/// Where a session stands. `Completed` and `Failed` are terminal.
#[derive(Debug, Clone, PartialEq, Eq)]
pub enum RecordingStatus {
    Recording,
    Transcribing,
    Completed,
    Failed { message: String },
}

/// The window that a session's text is meant for.
#[derive(Debug, Clone, Copy, PartialEq, Eq, Structural)]
pub enum TargetWindowRef {
    ActiveWindow,
    WindowPicker,
}

/// What listeners are told while a session runs. `S` is the sample type.
#[derive(Debug, Clone, PartialEq)]
pub enum AudioEvent<S> {
    RecordingStarted,
    RecordingStopped,
    AmplitudeUpdate { amplitudes: Vec<S>, rms: S },
    TranscriptionStarted,
    TranscriptionCompleted { text: String },
}

/// What a successful stop hands back.
#[derive(Debug, Clone, PartialEq, Eq)]
pub struct TranscriptionResult {
    pub session_id: String,
    pub text: String,
    pub duration_ms: u64,
}

impl RecordingSession {
    /// The session has ended: it is completed or has failed, and its status
    /// changes no more.
    pub open spec fn is_terminal(self) -> bool {
        self.status is Completed || self.status is Failed
    }

    /// The session in every respect but status, end, duration and text.
    pub open spec fn same_recording(self, other: Self) -> bool {
        &&& self.id == other.id
        &&& self.started_at == other.started_at
        &&& self.model_id == other.model_id
        &&& self.target_window == other.target_window
    }

    /// A session that has just begun to record.
    pub fn begin(
        id: String,
        started_at: String,
        model_id: String,
        target_window: TargetWindowRef,
    ) -> (session: Self)
        ensures
            session.id == id,
            session.started_at == started_at,
            session.model_id == model_id,
            session.target_window == target_window,
            session.status is Recording,
            session.ended_at is None,
            session.duration_ms is None,
            session.transcription is None,
    {
        RecordingSession {
            id,
            started_at,
            ended_at: None,
            duration_ms: None,
            status: RecordingStatus::Recording,
            model_id,
            transcription: None,
            target_window,
        }
    }

    /// The recording has stopped and its audio is being transcribed.
    ///
    /// Only a recording session can stop. The result tells whether the
    /// session took the step; one that did not is left as it was.
    pub fn stop(&mut self, ended_at: String, duration_ms: u64) -> (stopped: bool)
        ensures
            stopped == (old(self).status is Recording),
            !stopped ==> *final(self) == *old(self),
            stopped ==> final(self).status is Transcribing && final(self).ended_at == Some(
                ended_at,
            ) && final(self).duration_ms == Some(duration_ms) && final(self).transcription
                == old(self).transcription && final(self).same_recording(*old(self)),
    {
        match self.status {
            RecordingStatus::Recording => {
                self.status = RecordingStatus::Transcribing;
                self.ended_at = Some(ended_at);
                self.duration_ms = Some(duration_ms);
                true
            },
            _ => false,
        }
    }

    /// The transcription has ended: with `Ok`, the session is completed and
    /// holds the text; with `Err`, it has failed with that message and holds
    /// no text.
    ///
    /// Only a session that is being transcribed can end. The result tells
    /// whether the session took the step; one that did not is left as it
    /// was, so that a session which has ended stays as it ended.
    pub fn finish(&mut self, outcome: Result<String, String>) -> (finished: bool)
        ensures
            finished == (old(self).status is Transcribing),
            !finished ==> *final(self) == *old(self),
            finished ==> final(self).is_terminal() && final(self).ended_at == old(self).ended_at
                && final(self).duration_ms == old(self).duration_ms && final(self).same_recording(
                *old(self),
            ),
            (finished ==> match outcome {
                Ok(text) => final(self).status is Completed && final(self).transcription == Some(
                    text,
                ),
                Err(message) => final(self).status == (RecordingStatus::Failed { message })
                    && final(self).transcription is None,
            }),
    {
        match self.status {
            RecordingStatus::Transcribing => {
                match outcome {
                    Ok(text) => {
                        self.status = RecordingStatus::Completed;
                        self.transcription = Some(text);
                    },
                    Err(message) => {
                        self.status = RecordingStatus::Failed { message };
                        self.transcription = None;
                    },
                }
                true
            },
            _ => false,
        }
    }
}

} // verus!
