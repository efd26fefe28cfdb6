//! User preferences: recording mode, hotkey bindings and overlay settings.

use vstd::prelude::*;
use vstd::string::StringExecFns;

pub mod storage;

use crate::text::{
    chars_of, eq_ignore_ascii_case, lowercase, range_eq_ignore_ascii_case, texts, to_lowercase,
};

verus! {

/// An action that a global hotkey can be bound to.
#[derive(Debug, Clone, Copy, PartialEq, Eq, Hash, Structural)]
pub enum HotkeyAction {
    ToggleRecording,
    PushToTalk,
    OpenTargetSelector,
    OpenSettings,
}

/// How recording is driven from the keyboard.
#[derive(Debug, Clone, Copy, PartialEq, Eq, Structural)]
pub enum RecordingMode {
    PushToTalk,
    Toggle,
}

/// Where transcribed text is sent.
#[derive(Debug, Clone, Copy, PartialEq, Eq, Structural)]
pub enum TargetMode {
    ActiveWindow,
    WindowPicker,
}

/// How transcribed text reaches the target application.
#[derive(Debug, Clone, Copy, PartialEq, Eq, Structural)]
pub enum TextInjectionMethod {
    SimulatedKeystrokes,
    ClipboardPaste,
}

/// Preset positions of the recording overlay.
#[derive(Debug, Clone, Copy, PartialEq, Eq, Structural)]
pub enum OverlayPosition {
    TopCenter,
    TopRight,
    BottomCenter,
    BottomRight,
}

/// How the overlay draws the live amplitude.
#[derive(Debug, Clone, Copy, PartialEq, Eq, Structural)]
pub enum VisualizationStyle {
    Bars,
    Sine,
    Rainbow,
}

/// What the overlay shows while a recording is transcribed.
#[derive(Debug, Clone, Copy, PartialEq, Eq, Structural)]
pub enum ProcessingAnimation {
    Pulse,
    FrozenFrame,
    TypingParrot,
}

impl Default for ProcessingAnimation {
    fn default() -> (animation: Self)
        ensures
            animation == ProcessingAnimation::Pulse,
    {
        ProcessingAnimation::Pulse
    }
}

/// A position of the overlay chosen by the user, in physical pixels.
#[derive(Debug, Clone, Copy, PartialEq, Eq, Structural)]
pub struct OverlayCustomPosition {
    pub x: i32,
    pub y: i32,
}

/// One hotkey: the action, the key combination in shortcut notation
/// (`Modifier+...+Key`) and whether the binding is in force.
#[derive(Debug, Clone, PartialEq, Eq)]
pub struct HotkeyBinding {
    pub action: HotkeyAction,
    pub key_combination: String,
    pub enabled: bool,
}

/// Everything the user can configure.
#[derive(Debug, Clone, PartialEq, Eq)]
pub struct UserPreferences {
    pub active_model_id: Option<String>,
    pub recording_mode: RecordingMode,
    pub hotkeys: Vec<HotkeyBinding>,
    pub target_mode: TargetMode,
    pub text_injection_method: TextInjectionMethod,
    pub overlay_position: OverlayPosition,
    /// Opacity of the overlay in percent, `0..=100`.
    pub overlay_opacity: u8,
    pub overlay_visualization: VisualizationStyle,
    pub overlay_processing_animation: ProcessingAnimation,
    pub overlay_custom_position: Option<OverlayCustomPosition>,
    pub selected_audio_device: Option<String>,
    pub launch_at_login: bool,
}

/// Whether `part` names a modifier key, whatever the case of its letters.
pub open spec fn is_modifier(part: Seq<char>) -> bool {
    ||| eq_ignore_ascii_case(part, "CommandOrControl"@)
    ||| eq_ignore_ascii_case(part, "Command"@)
    ||| eq_ignore_ascii_case(part, "Control"@)
    ||| eq_ignore_ascii_case(part, "Ctrl"@)
    ||| eq_ignore_ascii_case(part, "Shift"@)
    ||| eq_ignore_ascii_case(part, "Alt"@)
    ||| eq_ignore_ascii_case(part, "Option"@)
    ||| eq_ignore_ascii_case(part, "Super"@)
}

/// Whether `combo[lo..hi]` is one of the parts that the `+` signs cut
/// `combo` into: it holds no `+`, and on each side it ends at a `+` or at
/// the end of the text.
pub open spec fn is_part(combo: Seq<char>, lo: int, hi: int) -> bool {
    &&& 0 <= lo <= hi <= combo.len()
    &&& lo == 0 || combo[lo - 1] == '+'
    &&& hi == combo.len() || combo[hi] == '+'
    &&& forall|k: int| lo <= k < hi ==> combo[k] != '+'
}

/// Some part of `combo` is a modifier.
pub open spec fn has_modifier(combo: Seq<char>) -> bool {
    exists|lo: int, hi: int| #[trigger]
        is_part(combo, lo, hi) && is_modifier(combo.subrange(lo, hi))
}

/// Some part of `combo` is not a modifier.
pub open spec fn has_key(combo: Seq<char>) -> bool {
    exists|lo: int, hi: int| #[trigger]
        is_part(combo, lo, hi) && !is_modifier(combo.subrange(lo, hi))
}

/// Why `combo` is no valid hotkey, or `None` when it is one: a valid hotkey
/// is not empty and holds at least one modifier and one other key.
pub open spec fn hotkey_format_error(combo: Seq<char>) -> Option<Seq<char>> {
    if combo.len() == 0 {
        Some("Hotkey combination cannot be empty."@)
    } else if !has_modifier(combo) {
        Some(
            "Hotkey '"@ + combo
                + "' must include at least one modifier (CommandOrControl, Shift, Alt)."@,
        )
    } else if !has_key(combo) {
        Some("Hotkey '"@ + combo + "' must include a non-modifier key."@)
    } else {
        None
    }
}

/// Whether `chars[lo..hi]` names a modifier key.
fn range_is_modifier(chars: &Vec<char>, lo: usize, hi: usize) -> (modifier: bool)
    requires
        lo <= hi <= chars.len(),
    ensures
        modifier == is_modifier(chars@.subrange(lo as int, hi as int)),
{
    range_eq_ignore_ascii_case(chars, lo, hi, "CommandOrControl")
        || range_eq_ignore_ascii_case(chars, lo, hi, "Command")
        || range_eq_ignore_ascii_case(chars, lo, hi, "Control")
        || range_eq_ignore_ascii_case(chars, lo, hi, "Ctrl")
        || range_eq_ignore_ascii_case(chars, lo, hi, "Shift")
        || range_eq_ignore_ascii_case(chars, lo, hi, "Alt")
        || range_eq_ignore_ascii_case(chars, lo, hi, "Option")
        || range_eq_ignore_ascii_case(chars, lo, hi, "Super")
}

/// A part that ends inside a stretch free of `+` which begins at a part's
/// start is that stretch's part.
proof fn lemma_part_from_start(combo: Seq<char>, start: int, end: int, lo: int, hi: int)
    requires
        0 <= start <= end <= combo.len(),
        start == 0 || combo[start - 1] == '+',
        forall|k: int| start <= k < end ==> combo[k] != '+',
        is_part(combo, lo, hi),
        start <= hi <= end,
        hi == end || end == combo.len(),
    ensures
        lo == start,
        end == combo.len() || combo[end] == '+' ==> hi == end,
{
    if lo > start {
        assert(combo[lo - 1] == '+');
    }
    if lo < start {
        assert(combo[start - 1] == '+');
    }
}

/// Validate that a hotkey is written as at least one modifier and one other
/// key, joined by `+`.
pub fn validate_hotkey_format(combo: &str) -> (result: Result<(), String>)
    ensures
        (match hotkey_format_error(combo@) {
            None => result is Ok,
            Some(message) => result matches Err(e) && e@ == message,
        }),
{
    let chars = chars_of(combo);
    let n = chars.len();
    if n == 0 {
        return Err(String::from_str("Hotkey combination cannot be empty."));
    }
    let ghost s = combo@;
    let mut found_modifier = false;
    let mut found_key = false;
    let mut start: usize = 0;
    let mut i: usize = 0;
    while i < n
        invariant
            chars@ == s,
            n == s.len(),
            start <= i <= n,
            start == 0 || s[start - 1] == '+',
            forall|k: int| start <= k < i ==> s[k] != '+',
            found_modifier <==> exists|lo: int, hi: int| #[trigger]
                is_part(s, lo, hi) && hi < start && is_modifier(s.subrange(lo, hi)),
            found_key <==> exists|lo: int, hi: int| #[trigger]
                is_part(s, lo, hi) && hi < start && !is_modifier(s.subrange(lo, hi)),
        decreases n - i,
    {
        if chars[i] == '+' {
            let modifier = range_is_modifier(&chars, start, i);
            proof {
                assert(is_part(s, start as int, i as int));
                assert forall|lo: int, hi: int| #[trigger]
                    is_part(s, lo, hi) && hi < i + 1 && !(hi < start) implies lo == start && hi
                    == i by {
                    lemma_part_from_start(s, start as int, i as int, lo, hi);
                }
            }
            if modifier {
                found_modifier = true;
            } else {
                found_key = true;
            }
            start = i + 1;
        }
        i += 1;
    }
    let modifier = range_is_modifier(&chars, start, n);
    proof {
        assert(is_part(s, start as int, n as int));
        assert forall|lo: int, hi: int| #[trigger] is_part(s, lo, hi) && !(hi < start) implies lo
            == start && hi == n by {
            lemma_part_from_start(s, start as int, n as int, lo, hi);
        }
    }
    if modifier {
        found_modifier = true;
    } else {
        found_key = true;
    }
    assert(found_modifier <==> has_modifier(s));
    assert(found_key <==> has_key(s));
    if !found_modifier {
        let mut message = String::from_str("Hotkey '");
        message.append(combo);
        message.append("' must include at least one modifier (CommandOrControl, Shift, Alt).");
        return Err(message);
    }
    if !found_key {
        let mut message = String::from_str("Hotkey '");
        message.append(combo);
        message.append("' must include a non-modifier key.");
        return Err(message);
    }
    Ok(())
}

/// Whether two bindings name the same key combination, whatever the case of
/// its letters.
pub open spec fn same_combination(a: HotkeyBinding, b: HotkeyBinding) -> bool {
    lowercase(a.key_combination@) == lowercase(b.key_combination@)
}

/// How many of the first `upto` bindings are enabled and name the key
/// combination of binding `i`.
pub open spec fn enabled_uses(bindings: Seq<HotkeyBinding>, i: int, upto: int) -> nat
    decreases upto,
{
    if upto <= 0 {
        0
    } else {
        let earlier = enabled_uses(bindings, i, upto - 1);
        if bindings[upto - 1].enabled && same_combination(bindings[upto - 1], bindings[i]) {
            earlier + 1
        } else {
            earlier
        }
    }
}

/// Binding `i` is reported as a conflict: it is enabled and the second
/// enabled binding that names its key combination.
pub open spec fn reports_conflict(bindings: Seq<HotkeyBinding>, i: int) -> bool {
    bindings[i].enabled && enabled_uses(bindings, i, i) == 1
}

/// The key combinations reported among the first `n` bindings, in order.
pub open spec fn conflicts_among(bindings: Seq<HotkeyBinding>, n: int) -> Seq<Seq<char>>
    decreases n,
{
    if n <= 0 {
        Seq::empty()
    } else if reports_conflict(bindings, n - 1) {
        conflicts_among(bindings, n - 1).push(bindings[n - 1].key_combination@)
    } else {
        conflicts_among(bindings, n - 1)
    }
}

/// Detect key combinations that several enabled bindings share. Each shared
/// combination is reported once, as its second binding writes it.
pub fn detect_hotkey_conflicts(bindings: &[HotkeyBinding]) -> (conflicts: Vec<String>)
    ensures
        texts(conflicts@) == conflicts_among(bindings@, bindings@.len() as int),
{
    let n = bindings.len();
    let mut keys: Vec<String> = Vec::new();
    let mut conflicts: Vec<String> = Vec::new();
    let mut i: usize = 0;
    while i < n
        invariant
            n == bindings@.len(),
            i <= n,
            keys@.len() == i,
            forall|k: int|
                0 <= k < i ==> (#[trigger] keys@[k])@ == lowercase(bindings@[k].key_combination@),
            texts(conflicts@) == conflicts_among(bindings@, i as int),
        decreases n - i,
    {
        let key = to_lowercase(bindings[i].key_combination.as_str());
        if bindings[i].enabled {
            let mut uses: usize = 0;
            let mut j: usize = 0;
            while j < i
                invariant
                    n == bindings@.len(),
                    i < n,
                    j <= i,
                    keys@.len() == i,
                    key@ == lowercase(bindings@[i as int].key_combination@),
                    forall|k: int|
                        0 <= k < i ==> (#[trigger] keys@[k])@ == lowercase(
                            bindings@[k].key_combination@,
                        ),
                    uses == enabled_uses(bindings@, i as int, j as int),
                    uses <= j,
                decreases i - j,
            {
                if bindings[j].enabled && keys[j] == key {
                    uses += 1;
                }
                j += 1;
            }
            if uses == 1 {
                let ghost before = conflicts@;
                conflicts.push(bindings[i].key_combination.clone());
                assert(texts(conflicts@) == texts(before).push(
                    bindings@[i as int].key_combination@,
                ));
            }
        }
        keys.push(key);
        i += 1;
    }
    conflicts
}

/// Bindings that name the same key combination are counted alike.
proof fn lemma_enabled_uses_of_same(bindings: Seq<HotkeyBinding>, i: int, k: int, upto: int)
    requires
        same_combination(bindings[i], bindings[k]),
    ensures
        enabled_uses(bindings, i, upto) == enabled_uses(bindings, k, upto),
    decreases upto,
{
    if upto > 0 {
        lemma_enabled_uses_of_same(bindings, i, k, upto - 1);
    }
}

/// The count of uses grows with the number of bindings counted, and an
/// enabled binding of the same combination among them is counted.
proof fn lemma_enabled_uses_grow(bindings: Seq<HotkeyBinding>, i: int, j: int, upto: int)
    requires
        0 <= j < upto,
        bindings[j].enabled,
        same_combination(bindings[j], bindings[i]),
    ensures
        enabled_uses(bindings, i, upto) >= enabled_uses(bindings, i, j) + 1,
    decreases upto,
{
    if upto - 1 > j {
        lemma_enabled_uses_grow(bindings, i, j, upto - 1);
    }
}

/// Where a combination is used twice or more among the first `upto`
/// bindings, its second use is among them and is reported.
proof fn lemma_second_use_is_reported(bindings: Seq<HotkeyBinding>, i: int, upto: int) -> (k: int)
    requires
        0 <= upto <= bindings.len(),
        enabled_uses(bindings, i, upto) >= 2,
    ensures
        0 <= k < upto,
        reports_conflict(bindings, k),
    decreases upto,
{
    if enabled_uses(bindings, i, upto - 1) >= 2 {
        lemma_second_use_is_reported(bindings, i, upto - 1)
    } else {
        lemma_enabled_uses_of_same(bindings, upto - 1, i, upto - 1);
        upto - 1
    }
}

/// A reported binding leaves its mark on the list of conflicts.
proof fn lemma_reported_is_listed(bindings: Seq<HotkeyBinding>, k: int, n: int)
    requires
        0 <= k < n,
        reports_conflict(bindings, k),
    ensures
        conflicts_among(bindings, n).len() > 0,
    decreases n,
{
    if n - 1 > k {
        lemma_reported_is_listed(bindings, k, n - 1);
    }
}

/// A list of conflicts that is not empty stems from a reported binding.
proof fn lemma_listed_is_reported(bindings: Seq<HotkeyBinding>, n: int) -> (k: int)
    requires
        conflicts_among(bindings, n).len() > 0,
    ensures
        0 <= k < n,
        reports_conflict(bindings, k),
    decreases n,
{
    if reports_conflict(bindings, n - 1) {
        n - 1
    } else {
        lemma_listed_is_reported(bindings, n - 1)
    }
}

/// A binding with an earlier use has an earlier enabled binding of the same
/// combination.
proof fn lemma_use_has_witness(bindings: Seq<HotkeyBinding>, i: int, upto: int) -> (j: int)
    requires
        enabled_uses(bindings, i, upto) >= 1,
    ensures
        0 <= j < upto,
        bindings[j].enabled,
        same_combination(bindings[j], bindings[i]),
    decreases upto,
{
    if bindings[upto - 1].enabled && same_combination(bindings[upto - 1], bindings[i]) {
        upto - 1
    } else {
        lemma_use_has_witness(bindings, i, upto - 1)
    }
}

/// No conflict is reported exactly when no two enabled bindings name the
/// same key combination, whatever the case of its letters.
pub proof fn lemma_no_conflicts_iff_distinct(bindings: Seq<HotkeyBinding>)
    ensures
        conflicts_among(bindings, bindings.len() as int).len() == 0 <==> forall|i: int, j: int|
            0 <= i < j < bindings.len() && bindings[i].enabled && bindings[j].enabled
                ==> !same_combination(#[trigger] bindings[i], #[trigger] bindings[j]),
{
    let n = bindings.len() as int;
    if conflicts_among(bindings, n).len() > 0 {
        let k = lemma_listed_is_reported(bindings, n);
        let j = lemma_use_has_witness(bindings, k, k);
        assert(same_combination(bindings[j], bindings[k]));
    }
    if exists|i: int, j: int|
        0 <= i < j < n && bindings[i].enabled && bindings[j].enabled && same_combination(
            #[trigger] bindings[i],
            #[trigger] bindings[j],
        ) {
        let (i, j) = choose|i: int, j: int|
            0 <= i < j < n && bindings[i].enabled && bindings[j].enabled && same_combination(
                #[trigger] bindings[i],
                #[trigger] bindings[j],
            );
        lemma_enabled_uses_grow(bindings, j, i, j);
        lemma_enabled_uses_grow(bindings, j, j, j + 1);
        let k = lemma_second_use_is_reported(bindings, j, j + 1);
        lemma_reported_is_listed(bindings, k, n);
    }
}

impl Default for UserPreferences {
    /// Toggle mode, the four stock hotkeys (push-to-talk disabled), text typed
    /// into the active window, and the overlay at the top centre.
    fn default() -> (preferences: Self)
        ensures
            preferences.active_model_id is None,
            preferences.recording_mode == RecordingMode::Toggle,
            preferences.hotkeys@.len() == 4,
            preferences.hotkeys@[0].action == HotkeyAction::ToggleRecording,
            preferences.hotkeys@[0].key_combination@ == "CommandOrControl+Shift+Space"@,
            preferences.hotkeys@[0].enabled,
            preferences.hotkeys@[1].action == HotkeyAction::PushToTalk,
            preferences.hotkeys@[1].key_combination@ == "CommandOrControl+Shift+V"@,
            !preferences.hotkeys@[1].enabled,
            preferences.hotkeys@[2].action == HotkeyAction::OpenTargetSelector,
            preferences.hotkeys@[2].key_combination@ == "CommandOrControl+Shift+T"@,
            preferences.hotkeys@[2].enabled,
            preferences.hotkeys@[3].action == HotkeyAction::OpenSettings,
            preferences.hotkeys@[3].key_combination@ == "CommandOrControl+Shift+,"@,
            preferences.hotkeys@[3].enabled,
            preferences.target_mode == TargetMode::ActiveWindow,
            preferences.text_injection_method == TextInjectionMethod::SimulatedKeystrokes,
            preferences.overlay_position == OverlayPosition::TopCenter,
            preferences.overlay_opacity == 90,
            preferences.overlay_visualization == VisualizationStyle::Bars,
            preferences.overlay_processing_animation == ProcessingAnimation::Pulse,
            preferences.overlay_custom_position is None,
            preferences.selected_audio_device is None,
            !preferences.launch_at_login,
    {
        let mut hotkeys: Vec<HotkeyBinding> = Vec::new();
        hotkeys.push(
            HotkeyBinding {
                action: HotkeyAction::ToggleRecording,
                key_combination: String::from_str("CommandOrControl+Shift+Space"),
                enabled: true,
            },
        );
        hotkeys.push(
            HotkeyBinding {
                action: HotkeyAction::PushToTalk,
                key_combination: String::from_str("CommandOrControl+Shift+V"),
                enabled: false,
            },
        );
        hotkeys.push(
            HotkeyBinding {
                action: HotkeyAction::OpenTargetSelector,
                key_combination: String::from_str("CommandOrControl+Shift+T"),
                enabled: true,
            },
        );
        hotkeys.push(
            HotkeyBinding {
                action: HotkeyAction::OpenSettings,
                key_combination: String::from_str("CommandOrControl+Shift+,"),
                enabled: true,
            },
        );
        UserPreferences {
            active_model_id: None,
            recording_mode: RecordingMode::Toggle,
            hotkeys,
            target_mode: TargetMode::ActiveWindow,
            text_injection_method: TextInjectionMethod::SimulatedKeystrokes,
            overlay_position: OverlayPosition::TopCenter,
            overlay_opacity: 90,
            overlay_visualization: VisualizationStyle::Bars,
            overlay_processing_animation: ProcessingAnimation::Pulse,
            overlay_custom_position: None,
            selected_audio_device: None,
            launch_at_login: false,
        }
    }
}


} // verus!
