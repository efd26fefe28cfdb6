//! Guards and decisions of the preference commands.

use vstd::prelude::*;
use vstd::string::StringExecFns;

use crate::commands::{fails_with, CommandError};
use crate::preferences::{
    conflicts_among, detect_hotkey_conflicts, hotkey_format_error, validate_hotkey_format,
    HotkeyBinding, UserPreferences,
};
use crate::text::texts;
use crate::AppState;

verus! {

/// The first `n` of `items`, each but the first preceded by `separator`.
pub open spec fn joined(items: Seq<Seq<char>>, separator: Seq<char>, n: int) -> Seq<char>
    decreases n,
{
    if n <= 0 {
        Seq::empty()
    } else if n == 1 {
        items[0]
    } else {
        joined(items, separator, n - 1) + separator + items[n - 1]
    }
}

/// Join texts with a separator between each two.
pub fn join(items: &Vec<String>, separator: &str) -> (text: String)
    ensures
        text@ == joined(texts(items@), separator@, items@.len() as int),
{
    let mut text = String::new();
    let mut i: usize = 0;
    while i < items.len()
        invariant
            i <= items@.len(),
            text@ == joined(texts(items@), separator@, i as int),
        decreases items@.len() - i,
    {
        if i > 0 {
            text.append(separator);
        }
        text.append(items[i].as_str());
        assert(texts(items@)[i as int] == items@[i as int]@);
        i += 1;
    }
    text
}

/// Binding `i` is enabled and badly written.
pub open spec fn is_malformed(hotkeys: Seq<HotkeyBinding>, i: int) -> bool {
    hotkeys[i].enabled && hotkey_format_error(hotkeys[i].key_combination@) is Some
}

/// Why `hotkeys` cannot be put in force, or `None` where they can: the
/// complaint against the first enabled binding that is badly written, or
/// else the key combinations that enabled bindings share.
pub open spec fn hotkeys_error(hotkeys: Seq<HotkeyBinding>) -> Option<Seq<char>> {
    if exists|i: int| 0 <= i < hotkeys.len() && is_malformed(hotkeys, i) {
        let first = choose|i: int|
            0 <= i < hotkeys.len() && is_malformed(hotkeys, i) && forall|j: int|
                0 <= j < i ==> !is_malformed(hotkeys, j);
        hotkey_format_error(hotkeys[first].key_combination@)
    } else {
        let conflicts = conflicts_among(hotkeys, hotkeys.len() as int);
        if conflicts.len() > 0 {
            Some(
                "Conflicting hotkey bindings: "@ + joined(conflicts, ", "@, conflicts.len() as int),
            )
        } else {
            None
        }
    }
}

/// Validate the preferences that a user submits: every enabled hotkey is
/// well written, and no two of them share a key combination.
pub fn validate_preferences(preferences: &UserPreferences) -> (result: Result<(), CommandError>)
    ensures
        (match hotkeys_error(preferences.hotkeys@) {
            Some(message) => fails_with(result, "InvalidHotkey"@, message),
            None => result is Ok,
        }),
{
    let ghost hotkeys = preferences.hotkeys@;
    let mut i: usize = 0;
    while i < preferences.hotkeys.len()
        invariant
            hotkeys == preferences.hotkeys@,
            i <= hotkeys.len(),
            forall|j: int| 0 <= j < i ==> !is_malformed(hotkeys, j),
        decreases hotkeys.len() - i,
    {
        if preferences.hotkeys[i].enabled {
            match validate_hotkey_format(preferences.hotkeys[i].key_combination.as_str()) {
                Err(message) => {
                    proof {
                        assert(is_malformed(hotkeys, i as int));
                        let first = choose|k: int|
                            0 <= k < hotkeys.len() && is_malformed(hotkeys, k) && forall|j: int|
                                0 <= j < k ==> !is_malformed(hotkeys, j);
                        assert(first == i);
                    }
                    return Err(CommandError::new("InvalidHotkey", message.as_str()));
                },
                Ok(()) => {},
            }
        }
        i += 1;
    }
    let conflicts = detect_hotkey_conflicts(preferences.hotkeys.as_slice());
    if conflicts.len() > 0 {
        let mut message = String::from_str("Conflicting hotkey bindings: ");
        let list = join(&conflicts, ", ");
        message.append(list.as_str());
        return Err(CommandError::new("InvalidHotkey", message.as_str()));
    }
    assert(texts(conflicts@).len() == conflicts@.len());
    Ok(())
}

/// The key combinations of the enabled ones among the first `n` bindings,
/// in order.
pub open spec fn enabled_among(hotkeys: Seq<HotkeyBinding>, n: int) -> Seq<Seq<char>>
    decreases n,
{
    if n <= 0 {
        Seq::empty()
    } else if hotkeys[n - 1].enabled {
        enabled_among(hotkeys, n - 1).push(hotkeys[n - 1].key_combination@)
    } else {
        enabled_among(hotkeys, n - 1)
    }
}

/// The key combinations that are registered with the system for `hotkeys`:
/// those of the enabled bindings.
pub fn enabled_shortcuts(hotkeys: &[HotkeyBinding]) -> (shortcuts: Vec<String>)
    ensures
        texts(shortcuts@) == enabled_among(hotkeys@, hotkeys@.len() as int),
{
    let mut shortcuts: Vec<String> = Vec::new();
    let mut i: usize = 0;
    while i < hotkeys.len()
        invariant
            i <= hotkeys@.len(),
            texts(shortcuts@) == enabled_among(hotkeys@, i as int),
        decreases hotkeys@.len() - i,
    {
        if hotkeys[i].enabled {
            let ghost before = shortcuts@;
            shortcuts.push(hotkeys[i].key_combination.clone());
            assert(texts(shortcuts@) == texts(before).push(hotkeys@[i as int].key_combination@));
        }
        i += 1;
    }
    shortcuts
}

/// What changing the preferences asks of the system's shortcut registry.
#[derive(Debug, Clone, PartialEq, Eq)]
pub struct ShortcutChange {
    /// The shortcuts that were in force and are withdrawn, in order.
    pub unregister: Vec<String>,
    /// The shortcuts that are put in force, in order.
    pub register: Vec<String>,
}

/// Put validated preferences in force.
///
/// The preferences replace those of the state. The result tells which
/// shortcuts to withdraw, those that were enabled before, and which to
/// register, those that are enabled now.
pub fn update_preferences<C, E>(
    state: &mut AppState<C, E>,
    preferences: UserPreferences,
) -> (change: ShortcutChange)
    ensures
        final(state).preferences == preferences,
        old(state).is_consistent() ==> final(state).is_consistent(),
        final(state).recording_active == old(state).recording_active,
        final(state).engine == old(state).engine,
        final(state).active_capture == old(state).active_capture,
        final(state).recording_started_at == old(state).recording_started_at,
        texts(change.unregister@) == enabled_among(
            old(state).preferences.hotkeys@,
            old(state).preferences.hotkeys@.len() as int,
        ),
        texts(change.register@) == enabled_among(
            preferences.hotkeys@,
            preferences.hotkeys@.len() as int,
        ),
{
    let unregister = enabled_shortcuts(state.preferences.hotkeys.as_slice());
    let register = enabled_shortcuts(preferences.hotkeys.as_slice());
    state.preferences = preferences;
    ShortcutChange { unregister, register }
}

} // verus!
