//! The tray: its menu texts and its icon.

use vstd::prelude::*;
use vstd::string::StringExecFns;

use crate::hotkeys::HotkeyResponse;

verus! {

/// The texts of the tray menu's status line and of its toggle item.
pub fn tray_menu_labels(is_recording: bool) -> (labels: (&'static str, &'static str))
    ensures
        is_recording ==> labels.0@ == "Recording..."@ && labels.1@ == "Stop Recording"@,
        !is_recording ==> labels.0@ == "Recording: Idle"@ && labels.1@ == "Start Recording"@,
{
    if is_recording {
        ("Recording...", "Stop Recording")
    } else {
        ("Recording: Idle", "Start Recording")
    }
}

/// What the tray menu's toggle item asks for: a stop while recording, a
/// start otherwise.
pub fn tray_toggle_response(is_recording: bool) -> (response: HotkeyResponse)
    ensures
        (response == if is_recording {
            HotkeyResponse::StopRecordingAndTranscribe
        } else {
            HotkeyResponse::StartRecording
        }),
{
    if is_recording {
        HotkeyResponse::StopRecordingAndTranscribe
    } else {
        HotkeyResponse::StartRecording
    }
}

/// What an item of the tray menu asks for.
#[derive(Debug, Clone, Copy, PartialEq, Eq, Structural)]
pub enum TrayCommand {
    ToggleRecording,
    ShowSettings,
    ShowModels,
    Quit,
}

/// The command of the tray menu item `id`, if the item has one.
pub open spec fn tray_command_of(id: Seq<char>) -> Option<TrayCommand> {
    if id == "toggle_recording"@ {
        Some(TrayCommand::ToggleRecording)
    } else if id == "show_settings"@ {
        Some(TrayCommand::ShowSettings)
    } else if id == "show_models"@ {
        Some(TrayCommand::ShowModels)
    } else if id == "quit"@ {
        Some(TrayCommand::Quit)
    } else {
        None
    }
}

/// Tell what the tray menu item `id` asks for.
pub fn tray_command(id: &str) -> (command: Option<TrayCommand>)
    ensures
        command == tray_command_of(id@),
{
    let item = String::from_str(id);
    if item == String::from_str("toggle_recording") {
        Some(TrayCommand::ToggleRecording)
    } else if item == String::from_str("show_settings") {
        Some(TrayCommand::ShowSettings)
    } else if item == String::from_str("show_models") {
        Some(TrayCommand::ShowModels)
    } else if item == String::from_str("quit") {
        Some(TrayCommand::Quit)
    } else {
        None
    }
}

/// The radius of the recording dot, in pixels.
pub const DOT_RADIUS: u32 = 5;

/// The colour of the recording dot, as red, green, blue and alpha.
pub open spec fn dot_colour() -> Seq<u8> {
    seq![0xFFu8, 0x3Bu8, 0x30u8, 0xFFu8]
}

/// Whether the pixel at (`x`, `y`) of an icon lies within the recording
/// dot: a disc that keeps one pixel's distance from the right and the lower
/// edge.
pub open spec fn in_dot(width: int, height: int, x: int, y: int) -> bool {
    let dx = x - (width - DOT_RADIUS - 1);
    let dy = y - (height - DOT_RADIUS - 1);
    dx * dx + dy * dy <= DOT_RADIUS * DOT_RADIUS
}

/// `painted` is the icon `rgba` with the recording dot on it: the pixels of
/// the dot bear its colour and all others are as they were.
pub open spec fn is_recording_icon(
    rgba: Seq<u8>,
    width: int,
    height: int,
    painted: Seq<u8>,
) -> bool {
    &&& painted.len() == rgba.len()
    &&& forall|x: int, y: int, c: int|
        0 <= x < width && 0 <= y < height && 0 <= c < 4 ==> #[trigger] painted[(y * width + x) * 4
            + c] == if in_dot(width, height, x, y) {
            dot_colour()[c]
        } else {
            rgba[(y * width + x) * 4 + c]
        }
}

/// The bytes of a pixel lie within the buffer.
proof fn lemma_pixel_index(width: int, height: int, x: int, y: int)
    requires
        0 <= x < width,
        0 <= y < height,
    ensures
        0 <= y * width,
        0 <= y * width + x < width * height,
        (y * width + x) * 4 + 3 < width * height * 4,
        (y + 1) * width == y * width + width,
{
    assert(0 <= y * width && y * width + width <= height * width && (y + 1) * width == y * width
        + width) by (nonlinear_arith)
        requires
            0 <= y < height,
            0 < width,
    ;
    assert(height * width == width * height) by (nonlinear_arith);
}

/// Different pixels and channels have different bytes.
proof fn lemma_pixel_unique(width: int, x: int, y: int, c: int, x2: int, y2: int, c2: int)
    requires
        0 <= x < width,
        0 <= x2 < width,
        0 <= y,
        0 <= y2,
        0 <= c < 4,
        0 <= c2 < 4,
        (y * width + x) * 4 + c == (y2 * width + x2) * 4 + c2,
    ensures
        x == x2 && y == y2 && c == c2,
{
    assert(y * width + x == y2 * width + x2 && c == c2);
    assert(y == y2) by (nonlinear_arith)
        requires
            y * width + x == y2 * width + x2,
            0 <= x < width,
            0 <= x2 < width,
    ;
    assert(x == x2) by (nonlinear_arith)
        requires
            y * width + x == y2 * width + x2,
            y == y2,
    ;
}

/// Paint the recording dot on a tray icon.
///
/// `rgba` holds the icon's pixels row by row, four bytes each. An icon whose
/// buffer does not have that size is handed back as it is.
pub fn recording_icon(rgba: Vec<u8>, width: u32, height: u32) -> (painted: Vec<u8>)
    ensures
        rgba@.len() == width * height * 4 ==> is_recording_icon(
            rgba@,
            width as int,
            height as int,
            painted@,
        ),
        rgba@.len() != width * height * 4 ==> painted@ == rgba@,
{
    assert(width * height * 4 <= 0xffff_ffff * 0xffff_ffff * 4) by (nonlinear_arith)
        requires
            width <= 0xffff_ffff,
            height <= 0xffff_ffff,
    ;
    let size: u128 = (width as u128) * (height as u128) * 4;
    if rgba.len() as u128 != size {
        return rgba;
    }
    let ghost plain = rgba@;
    let mut painted = rgba;
    let cx: i64 = width as i64 - DOT_RADIUS as i64 - 1;
    let cy: i64 = height as i64 - DOT_RADIUS as i64 - 1;
    let mut y: u32 = 0;
    while y < height
        invariant
            y <= height,
            painted@.len() == plain.len(),
            plain.len() == width * height * 4,
            plain.len() <= usize::MAX,
            cx == width - DOT_RADIUS - 1,
            cy == height - DOT_RADIUS - 1,
            forall|x2: int, y2: int, c: int|
                0 <= x2 < width && 0 <= y2 < height && 0 <= c < 4 ==> #[trigger] painted@[(y2
                    * width + x2) * 4 + c] == if y2 < y && in_dot(
                    width as int,
                    height as int,
                    x2,
                    y2,
                ) {
                    dot_colour()[c]
                } else {
                    plain[(y2 * width + x2) * 4 + c]
                },
        decreases height - y,
    {
        let mut x: u32 = 0;
        while x < width
            invariant
                y < height,
                x <= width,
                painted@.len() == plain.len(),
                plain.len() == width * height * 4,
                plain.len() <= usize::MAX,
                cx == width - DOT_RADIUS - 1,
                cy == height - DOT_RADIUS - 1,
                forall|x2: int, y2: int, c: int|
                    0 <= x2 < width && 0 <= y2 < height && 0 <= c < 4 ==> #[trigger] painted@[(y2
                        * width + x2) * 4 + c] == if (y2 < y || (y2 == y && x2 < x)) && in_dot(
                        width as int,
                        height as int,
                        x2,
                        y2,
                    ) {
                        dot_colour()[c]
                    } else {
                        plain[(y2 * width + x2) * 4 + c]
                    },
            decreases width - x,
        {
            let dx: i64 = x as i64 - cx;
            let dy: i64 = y as i64 - cy;
            let near: bool = -5 <= dx && dx <= 5 && -5 <= dy && dy <= 5;
            proof {
                lemma_pixel_index(width as int, height as int, x as int, y as int);
                if !near {
                    assert(dx * dx + dy * dy > 25) by (nonlinear_arith)
                        requires
                            !(-5 <= dx && dx <= 5 && -5 <= dy && dy <= 5),
                    ;
                } else {
                    assert(0 <= dx * dx <= 25 && 0 <= dy * dy <= 25) by (nonlinear_arith)
                        requires
                            -5 <= dx && dx <= 5 && -5 <= dy && dy <= 5,
                    ;
                }
            }
            let inside: bool = if near {
                dx * dx + dy * dy <= 25
            } else {
                false
            };
            if inside {
                let ghost before = painted@;
                let index: usize = ((y as usize) * (width as usize) + (x as usize)) * 4;
                painted.set(index, 0xFF);
                painted.set(index + 1, 0x3B);
                painted.set(index + 2, 0x30);
                painted.set(index + 3, 0xFF);
                proof {
                    assert forall|x2: int, y2: int, c: int|
                        0 <= x2 < width && 0 <= y2 < height && 0 <= c < 4 implies #[trigger] painted@[(
                        y2 * width + x2) * 4 + c] == if (y2 < y || (y2 == y && x2 < x + 1))
                        && in_dot(width as int, height as int, x2, y2) {
                        dot_colour()[c]
                    } else {
                        plain[(y2 * width + x2) * 4 + c]
                    } by {
                        lemma_pixel_index(width as int, height as int, x2, y2);
                        let k = (y2 * width + x2) * 4 + c;
                        if index <= k < index + 4 {
                            lemma_pixel_unique(
                                width as int,
                                x as int,
                                y as int,
                                k - index,
                                x2,
                                y2,
                                c,
                            );
                        } else {
                            assert(painted@[k] == before[k]);
                            if x2 == x && y2 == y {
                                assert(false);
                            }
                        }
                    }
                }
            }
            x += 1;
        }
        y += 1;
    }
    painted
}

} // verus!
