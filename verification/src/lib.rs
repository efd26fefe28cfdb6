//! Voice dictation core: capture bookkeeping, sample-rate conversion, the
//! recording-session state machine and the hotkey resolver.

use vstd::prelude::*;

use crate::preferences::UserPreferences;

pub mod audio;
pub mod commands;
pub mod history;
pub mod hotkeys;
pub mod injection;
pub mod overlay;
pub mod paths;
pub mod preferences;
pub mod text;
pub mod transcription;
pub mod tray;

verus! {

/// The process-wide context that every command works on.
///
/// `C` is the handle of a live capture stream and `E` the loaded
/// transcription engine; the core moves both and looks into neither.
pub struct AppState<C, E> {
    pub preferences: UserPreferences,
    pub recording_active: bool,
    pub engine: Option<E>,
    pub active_capture: Option<C>,
    /// Monotonic clock reading, in milliseconds, taken when the active
    /// recording started.
    pub recording_started_at: Option<u64>,
}

impl<C, E> AppState<C, E> {
    /// The state of a freshly launched application: idle, with `engine`
    /// loaded or not.
    pub fn new(preferences: UserPreferences, engine: Option<E>) -> (state: Self)
        ensures
            state.preferences == preferences,
            state.engine == engine,
            !state.recording_active,
            state.active_capture is None,
            state.recording_started_at is None,
            state.is_idle(),
    {
        AppState {
            preferences,
            recording_active: false,
            engine,
            active_capture: None,
            recording_started_at: None,
        }
    }

    /// No recording is under way and nothing is left of an earlier one.
    pub open spec fn is_idle(self) -> bool {
        &&& !self.recording_active
        &&& self.active_capture is None
        &&& self.recording_started_at is None
    }

    /// The state is one that the transitions of the session lead to: idle or
    /// recording, with at most one capture and never a flag without one.
    pub open spec fn is_consistent(self) -> bool {
        self.is_idle() || self.is_recording()
    }

    /// A recording is under way: the flag is set, the capture slot is
    /// filled and the start instant is known.
    pub open spec fn is_recording(self) -> bool {
        &&& self.recording_active
        &&& self.active_capture is Some
        &&& self.recording_started_at is Some
    }
}

} // verus!
