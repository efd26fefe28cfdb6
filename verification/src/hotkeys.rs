//! Resolution of hotkey events into session commands.

use vstd::prelude::*;

use crate::preferences::{HotkeyAction, HotkeyBinding, RecordingMode};

verus! {

/// A hotkey event with its press/release state.
#[derive(Debug, Clone, Copy, PartialEq, Eq, Structural)]
pub enum HotkeyEvent {
    Pressed(HotkeyAction),
    Released(HotkeyAction),
}

/// What the application does in response to a hotkey event.
#[derive(Debug, Clone, Copy, PartialEq, Eq, Structural)]
pub enum HotkeyResponse {
    StartRecording,
    StopRecordingAndTranscribe,
    CancelRecording,
    ShowSettings,
    ShowTargetSelector,
    NoOp,
}

/// The response owed to `event` under `recording_mode` when the session's
/// recording flag is `is_recording`.
pub open spec fn hotkey_response(
    event: HotkeyEvent,
    recording_mode: RecordingMode,
    is_recording: bool,
) -> HotkeyResponse {
    match event {
        HotkeyEvent::Pressed(HotkeyAction::ToggleRecording) => if is_recording {
            HotkeyResponse::StopRecordingAndTranscribe
        } else {
            HotkeyResponse::StartRecording
        },
        HotkeyEvent::Pressed(HotkeyAction::OpenSettings) => HotkeyResponse::ShowSettings,
        HotkeyEvent::Pressed(HotkeyAction::OpenTargetSelector) => {
            HotkeyResponse::ShowTargetSelector
        },
        HotkeyEvent::Pressed(HotkeyAction::PushToTalk) => if recording_mode
            == RecordingMode::PushToTalk && !is_recording {
            HotkeyResponse::StartRecording
        } else {
            HotkeyResponse::NoOp
        },
        HotkeyEvent::Released(HotkeyAction::PushToTalk) => if recording_mode
            == RecordingMode::PushToTalk && is_recording {
            HotkeyResponse::StopRecordingAndTranscribe
        } else {
            HotkeyResponse::NoOp
        },
        HotkeyEvent::Released(_) => HotkeyResponse::NoOp,
    }
}

/// Resolve a hotkey event into an application response.
///
/// Total over every combination of event, mode and recording flag, and free
/// of side effects.
pub fn resolve_hotkey_event(
    event: HotkeyEvent,
    recording_mode: &RecordingMode,
    is_recording: bool,
) -> (response: HotkeyResponse)
    ensures
        response == hotkey_response(event, *recording_mode, is_recording),
{
    let push_to_talk = matches!(recording_mode, RecordingMode::PushToTalk);
    match event {
        HotkeyEvent::Pressed(action) => match action {
            HotkeyAction::ToggleRecording => {
                if is_recording {
                    HotkeyResponse::StopRecordingAndTranscribe
                } else {
                    HotkeyResponse::StartRecording
                }
            },
            HotkeyAction::OpenSettings => HotkeyResponse::ShowSettings,
            HotkeyAction::OpenTargetSelector => HotkeyResponse::ShowTargetSelector,
            HotkeyAction::PushToTalk => {
                if push_to_talk && !is_recording {
                    HotkeyResponse::StartRecording
                } else {
                    HotkeyResponse::NoOp
                }
            },
        },
        HotkeyEvent::Released(action) => match action {
            HotkeyAction::PushToTalk => {
                if push_to_talk && is_recording {
                    HotkeyResponse::StopRecordingAndTranscribe
                } else {
                    HotkeyResponse::NoOp
                }
            },
            _ => HotkeyResponse::NoOp,
        },
    }
}

/// In push-to-talk mode the push-to-talk key starts a recording exactly when
/// it is pressed while idle and stops one exactly when it is released while
/// recording; in toggle mode the key does nothing, whatever the session is
/// doing.
pub proof fn lemma_push_to_talk_key(is_recording: bool)
    ensures
        hotkey_response(
            HotkeyEvent::Pressed(HotkeyAction::PushToTalk),
            RecordingMode::PushToTalk,
            false,
        ) == HotkeyResponse::StartRecording,
        hotkey_response(
            HotkeyEvent::Pressed(HotkeyAction::PushToTalk),
            RecordingMode::PushToTalk,
            true,
        ) == HotkeyResponse::NoOp,
        hotkey_response(
            HotkeyEvent::Released(HotkeyAction::PushToTalk),
            RecordingMode::PushToTalk,
            true,
        ) == HotkeyResponse::StopRecordingAndTranscribe,
        hotkey_response(
            HotkeyEvent::Released(HotkeyAction::PushToTalk),
            RecordingMode::PushToTalk,
            false,
        ) == HotkeyResponse::NoOp,
        hotkey_response(
            HotkeyEvent::Pressed(HotkeyAction::PushToTalk),
            RecordingMode::Toggle,
            is_recording,
        ) == HotkeyResponse::NoOp,
        hotkey_response(
            HotkeyEvent::Released(HotkeyAction::PushToTalk),
            RecordingMode::Toggle,
            is_recording,
        ) == HotkeyResponse::NoOp,
{
}

/// A response never contradicts the session: recording is started only while
/// idle and stopped only while recording, and no hotkey bound to an action
/// cancels a recording.
pub proof fn lemma_response_respects_session(
    event: HotkeyEvent,
    recording_mode: RecordingMode,
    is_recording: bool,
)
    ensures
        hotkey_response(event, recording_mode, is_recording) == HotkeyResponse::StartRecording
            ==> !is_recording,
        hotkey_response(event, recording_mode, is_recording)
            == HotkeyResponse::StopRecordingAndTranscribe ==> is_recording,
        hotkey_response(event, recording_mode, is_recording) != HotkeyResponse::CancelRecording,
        event is Released && event != HotkeyEvent::Released(HotkeyAction::PushToTalk)
            ==> hotkey_response(event, recording_mode, is_recording) == HotkeyResponse::NoOp,
{
}

/// Binding `i` answers the shortcut: it is enabled and `pressed[i]` says
/// that its key combination is the one that was struck.
pub open spec fn answers(hotkeys: Seq<HotkeyBinding>, struck: Seq<bool>, i: int) -> bool {
    0 <= i < hotkeys.len() && i < struck.len() && hotkeys[i].enabled && struck[i]
}

/// The action of the first binding that answers the shortcut, if one does.
pub open spec fn bound_action(hotkeys: Seq<HotkeyBinding>, struck: Seq<bool>, n: int) -> Option<
    HotkeyAction,
>
    decreases n,
{
    if n <= 0 {
        None
    } else if exists|j: int| 0 <= j < n - 1 && answers(hotkeys, struck, j) {
        bound_action(hotkeys, struck, n - 1)
    } else if answers(hotkeys, struck, n - 1) {
        Some(hotkeys[n - 1].action)
    } else {
        None
    }
}

/// Once a binding answers and none before it does, later bindings do not
/// change the action.
proof fn lemma_bound_action_settled(
    hotkeys: Seq<HotkeyBinding>,
    struck: Seq<bool>,
    first: int,
    n: int,
)
    requires
        0 <= first < n,
        answers(hotkeys, struck, first),
        forall|j: int| 0 <= j < first ==> !answers(hotkeys, struck, j),
    ensures
        bound_action(hotkeys, struck, n) == Some(hotkeys[first].action),
    decreases n,
{
    if n - 1 > first {
        lemma_bound_action_settled(hotkeys, struck, first, n - 1);
        assert(answers(hotkeys, struck, first));
    }
}

/// Find the action that a shortcut is bound to.
///
/// `struck[i]` tells whether the key combination of binding `i` is the one
/// that was struck; a binding without an entry was not.
pub fn find_bound_action(hotkeys: &[HotkeyBinding], struck: &[bool]) -> (action: Option<
    HotkeyAction,
>)
    ensures
        action == bound_action(hotkeys@, struck@, hotkeys@.len() as int),
{
    let mut i: usize = 0;
    while i < hotkeys.len()
        invariant
            i <= hotkeys@.len(),
            forall|j: int| 0 <= j < i ==> !answers(hotkeys@, struck@, j),
            bound_action(hotkeys@, struck@, i as int) is None,
        decreases hotkeys@.len() - i,
    {
        if i < struck.len() && hotkeys[i].enabled && struck[i] {
            proof {
                lemma_bound_action_settled(hotkeys@, struck@, i as int, hotkeys@.len() as int);
            }
            return Some(hotkeys[i].action);
        }
        i += 1;
    }
    None
}

/// The response owed to a global shortcut.
///
/// The escape key, pressed while recording, cancels the recording whatever
/// it may be bound to. Any other shortcut is resolved through the action of
/// the first enabled binding that it belongs to; one that belongs to none
/// does nothing.
pub open spec fn shortcut_response_for(
    hotkeys: Seq<HotkeyBinding>,
    recording_mode: RecordingMode,
    struck: Seq<bool>,
    is_escape: bool,
    pressed: bool,
    is_recording: bool,
) -> HotkeyResponse {
    if pressed && is_escape && is_recording {
        HotkeyResponse::CancelRecording
    } else {
        match bound_action(hotkeys, struck, hotkeys.len() as int) {
            None => HotkeyResponse::NoOp,
            Some(action) => hotkey_response(
                if pressed {
                    HotkeyEvent::Pressed(action)
                } else {
                    HotkeyEvent::Released(action)
                },
                recording_mode,
                is_recording,
            ),
        }
    }
}

/// Decide what a global shortcut does.
pub fn shortcut_response(
    hotkeys: &[HotkeyBinding],
    recording_mode: &RecordingMode,
    struck: &[bool],
    is_escape: bool,
    pressed: bool,
    is_recording: bool,
) -> (response: HotkeyResponse)
    ensures
        response == shortcut_response_for(
            hotkeys@,
            *recording_mode,
            struck@,
            is_escape,
            pressed,
            is_recording,
        ),
{
    if pressed && is_escape && is_recording {
        return HotkeyResponse::CancelRecording;
    }
    match find_bound_action(hotkeys, struck) {
        None => HotkeyResponse::NoOp,
        Some(action) => {
            let event = if pressed {
                HotkeyEvent::Pressed(action)
            } else {
                HotkeyEvent::Released(action)
            };
            resolve_hotkey_event(event, recording_mode, is_recording)
        },
    }
}

} // verus!
