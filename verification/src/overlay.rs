//! Placement of the recording overlay on a monitor.

use vstd::prelude::*;

use crate::preferences::{OverlayCustomPosition, OverlayPosition};

verus! {

/// The overlay's width, in physical pixels.
pub const OVERLAY_WIDTH: i64 = 340;

/// The overlay's height, in physical pixels.
pub const OVERLAY_HEIGHT: i64 = 180;

/// The distance that the overlay keeps from the monitor's edges.
pub const OVERLAY_MARGIN: i64 = 20;

/// Position and size of a monitor, in physical pixels.
#[derive(Debug, Clone, Copy, PartialEq, Eq, Structural)]
pub struct MonitorFrame {
    pub x: i32,
    pub y: i32,
    pub width: u32,
    pub height: u32,
}

/// Half of `n`, rounded toward zero.
pub open spec fn half_toward_zero(n: int) -> int {
    if n >= 0 {
        n / 2
    } else {
        -((-n) / 2)
    }
}

/// `n` if it is a valid coordinate, and the nearest valid coordinate
/// otherwise.
pub open spec fn as_coordinate(n: int) -> int {
    if n < i32::MIN {
        i32::MIN as int
    } else if n > i32::MAX {
        i32::MAX as int
    } else {
        n
    }
}

/// Where the overlay's left edge lies at a preset position.
pub open spec fn preset_x(position: OverlayPosition, monitor: MonitorFrame) -> int {
    match position {
        OverlayPosition::TopCenter | OverlayPosition::BottomCenter => as_coordinate(
            half_toward_zero(2 * monitor.x + monitor.width - OVERLAY_WIDTH),
        ),
        OverlayPosition::TopRight | OverlayPosition::BottomRight => as_coordinate(
            monitor.x + monitor.width - OVERLAY_WIDTH - OVERLAY_MARGIN,
        ),
    }
}

/// Where the overlay's upper edge lies at a preset position.
pub open spec fn preset_y(position: OverlayPosition, monitor: MonitorFrame) -> int {
    match position {
        OverlayPosition::TopCenter | OverlayPosition::TopRight => as_coordinate(
            monitor.y + OVERLAY_MARGIN,
        ),
        OverlayPosition::BottomCenter | OverlayPosition::BottomRight => as_coordinate(
            monitor.y + monitor.height - OVERLAY_HEIGHT - OVERLAY_MARGIN,
        ),
    }
}

/// Computes [`as_coordinate`].
fn to_coordinate(n: i64) -> (c: i32)
    ensures
        c == as_coordinate(n as int),
{
    if n < i32::MIN as i64 {
        i32::MIN
    } else if n > i32::MAX as i64 {
        i32::MAX
    } else {
        n as i32
    }
}

/// Where the overlay's upper left corner is put.
///
/// A position that the user chose wins. Otherwise the preset position is
/// worked out on the monitor that shows the overlay: centred or flush right
/// with a margin, at the top or at the bottom with a margin. Without either
/// the overlay stays where it is.
pub fn overlay_origin(
    position: OverlayPosition,
    custom: Option<OverlayCustomPosition>,
    monitor: Option<MonitorFrame>,
) -> (origin: Option<(i32, i32)>)
    ensures
        custom matches Some(chosen) ==> origin == Some((chosen.x, chosen.y)),
        custom is None && monitor is None ==> origin is None,
        custom is None ==> (monitor matches Some(frame) ==> origin is Some && origin->Some_0.0
            == preset_x(position, frame) && origin->Some_0.1 == preset_y(position, frame)),
{
    match custom {
        Some(chosen) => Some((chosen.x, chosen.y)),
        None => match monitor {
            None => None,
            Some(frame) => {
                let left: i64 = frame.x as i64;
                let top: i64 = frame.y as i64;
                let width: i64 = frame.width as i64;
                let height: i64 = frame.height as i64;
                let centred: i64 = {
                    let doubled: i64 = 2 * left + width - OVERLAY_WIDTH;
                    if doubled >= 0 {
                        doubled / 2
                    } else {
                        -((-doubled) / 2)
                    }
                };
                let right: i64 = left + width - OVERLAY_WIDTH - OVERLAY_MARGIN;
                let upper: i64 = top + OVERLAY_MARGIN;
                let lower: i64 = top + height - OVERLAY_HEIGHT - OVERLAY_MARGIN;
                let (x, y) = match position {
                    OverlayPosition::TopCenter => (centred, upper),
                    OverlayPosition::TopRight => (right, upper),
                    OverlayPosition::BottomCenter => (centred, lower),
                    OverlayPosition::BottomRight => (right, lower),
                };
                Some((to_coordinate(x), to_coordinate(y)))
            },
        },
    }
}

} // verus!
