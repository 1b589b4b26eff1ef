//! Colours of the status icon and the place of the popup window.

use crate::severity::UsageColor;
use vstd::prelude::*;

verus! {

/// Red, green and blue of a severity colour. `Red` and `RedBlink` share one
/// red: blinking is a matter of time, not of colour.
pub open spec fn spec_color_rgb(color: UsageColor) -> (u8, u8, u8) {
    match color {
        UsageColor::Green => (76u8, 175u8, 80u8),
        UsageColor::Yellow => (255u8, 193u8, 7u8),
        UsageColor::Red => (244u8, 67u8, 54u8),
        UsageColor::RedBlink => (244u8, 67u8, 54u8),
        UsageColor::Gray => (120u8, 120u8, 120u8),
    }
}

/// Red, green and blue of a severity colour; see `spec_color_rgb`.
pub fn color_rgb(color: UsageColor) -> (rgb: (u8, u8, u8))
    ensures
        rgb == spec_color_rgb(color),
{
    match color {
        UsageColor::Green => (76, 175, 80),
        UsageColor::Yellow => (255, 193, 7),
        UsageColor::Red | UsageColor::RedBlink => (244, 67, 54),
        UsageColor::Gray => (120, 120, 120),
    }
}

/// Width of the popup window, in pixels.
pub const POPUP_WIDTH: i32 = 360;

/// Height of the popup window, in pixels.
pub const POPUP_HEIGHT: i32 = 120;

/// Distance kept between the popup window and a tray below it, in pixels.
pub const POPUP_MARGIN: i32 = 10;

/// `a - b`, held at the least value of the type.
pub open spec fn spec_saturating_sub(a: i32, b: i32) -> int {
    if a - b < i32::MIN {
        i32::MIN as int
    } else {
        a - b
    }
}

/// The top left corner of the popup window for a tray icon that was clicked
/// at `(x, y)`: centred on `x`; at `y` where the tray lies above the window,
/// and else so far above `y` that the window and a margin fit; never off the
/// screen to the left or to the top.
pub open spec fn spec_popup_position(x: i32, y: i32, tray_above: bool) -> (int, int) {
    let left = spec_saturating_sub(x, (POPUP_WIDTH / 2) as i32);
    let top = if tray_above {
        y as int
    } else {
        spec_saturating_sub(y, (POPUP_HEIGHT + POPUP_MARGIN) as i32)
    };
    (
        if left < 0 {
            0
        } else {
            left
        },
        if top < 0 {
            0
        } else {
            top
        },
    )
}

/// The top left corner of the popup window; see `spec_popup_position`.
pub fn popup_position(x: i32, y: i32, tray_above: bool) -> (corner: (i32, i32))
    ensures
        corner.0 == spec_popup_position(x, y, tray_above).0,
        corner.1 == spec_popup_position(x, y, tray_above).1,
{
    let half: i32 = POPUP_WIDTH / 2;
    let left: i32 = if x < i32::MIN + half {
        i32::MIN
    } else {
        x - half
    };
    let lift: i32 = POPUP_HEIGHT + POPUP_MARGIN;
    let top: i32 = if tray_above {
        y
    } else if y < i32::MIN + lift {
        i32::MIN
    } else {
        y - lift
    };
    (
        if left < 0 {
            0
        } else {
            left
        },
        if top < 0 {
            0
        } else {
            top
        },
    )
}

} // verus!
