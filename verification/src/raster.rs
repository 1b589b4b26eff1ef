//! The bitmap of the status icon: two bars with rounded corners, each filled
//! from the left as far as its utilization goes.
//!
//! A bitmap holds four bytes for each pixel, red, green, blue and opacity,
//! row after row from the top. Coordinates count pixels; where a pixel's
//! centre matters, lengths are doubled so that it falls on a whole number.

use crate::icon::color_rgb;
use crate::icon::spec_color_rgb;
use crate::projection::UNITS_PER_PERCENT;
use crate::severity::UsageColor;
use crate::usage::{UsageBar, UsageState};
use vstd::arithmetic::div_mod::{lemma_fundamental_div_mod, lemma_fundamental_div_mod_converse};
use vstd::prelude::*;

verus! {

/// Utilization at which a bar is filled to its end.
pub const FULL_UNITS: u32 = 100_000;

/// Colour of the part of a bar that is not filled.
pub const TRACK_RGB: (u8, u8, u8) = (68, 68, 72);

/// A rectangle of pixels with its corners rounded off by quarter circles.
#[derive(Clone, Copy, Debug, PartialEq, Eq, Structural)]
pub struct RoundedRect {
    pub x: u32,
    pub y: u32,
    pub w: u32,
    pub h: u32,
    pub radius: u32,
}

/// Sizes of the icon and place of its two bars.
#[derive(Clone, Copy, Debug, PartialEq, Eq, Structural)]
pub struct IconLayout {
    pub width: u32,
    pub height: u32,
    pub top: RoundedRect,
    pub bottom: RoundedRect,
}

/// Whether the point `(dx, dy)` lies within `r` of the origin.
pub open spec fn within_circle(dx: int, dy: int, r: int) -> bool {
    dx * dx + dy * dy <= r * r
}

impl RoundedRect {
    /// Whether the centre of the pixel `(px, py)` lies in the rectangle and,
    /// where it lies in the square of a corner, within the radius of that
    /// corner's centre. All lengths are doubled.
    pub open spec fn spec_holds_center(self, px: int, py: int) -> bool {
        let cx = 2 * px + 1;
        let cy = 2 * py + 1;
        let left = 2 * self.x;
        let top = 2 * self.y;
        let right = left + 2 * self.w;
        let bottom = top + 2 * self.h;
        let r = 2 * self.radius;
        if cx < left || cx > right || cy < top || cy > bottom {
            false
        } else if cx < left + r && cy < top + r {
            within_circle(cx - (left + r), cy - (top + r), r)
        } else if cx > right - r && cy < top + r {
            within_circle(cx - (right - r), cy - (top + r), r)
        } else if cx < left + r && cy > bottom - r {
            within_circle(cx - (left + r), cy - (bottom - r), r)
        } else if cx > right - r && cy > bottom - r {
            within_circle(cx - (right - r), cy - (bottom - r), r)
        } else {
            true
        }
    }

    /// Whether the pixel `(px, py)` is one of the rectangle's columns and
    /// rows and its centre lies within the rounded shape.
    pub open spec fn spec_covers(self, px: int, py: int) -> bool {
        &&& self.x <= px < self.x + self.w
        &&& self.y <= py < self.y + self.h
        &&& self.spec_holds_center(px, py)
    }
}

/// Whether the point `(dx, dy)` lies within `r` of the origin.
fn in_circle(dx: i128, dy: i128, r: i128) -> (inside: bool)
    requires
        -0x4_0000_0000 <= dx <= 0x4_0000_0000,
        -0x4_0000_0000 <= dy <= 0x4_0000_0000,
        0 <= r <= 0x4_0000_0000,
    ensures
        inside == within_circle(dx as int, dy as int, r as int),
{
    assert(dx * dx <= 0x10_0000_0000_0000_0000 && dy * dy <= 0x10_0000_0000_0000_0000 && r * r
        <= 0x10_0000_0000_0000_0000 && 0 <= dx * dx && 0 <= dy * dy) by (nonlinear_arith)
        requires
            -0x4_0000_0000 <= dx <= 0x4_0000_0000,
            -0x4_0000_0000 <= dy <= 0x4_0000_0000,
            0 <= r <= 0x4_0000_0000,
    ;
    dx * dx + dy * dy <= r * r
}

/// Whether the centre of the pixel `(px, py)` lies within the rectangle at
/// `(rx, ry)` of `rw` by `rh` pixels whose corners are rounded with radius
/// `r`; see `RoundedRect::spec_holds_center`.
pub fn pixel_in_rounded_rect(px: u32, py: u32, rx: u32, ry: u32, rw: u32, rh: u32, r: u32) -> (inside:
    bool)
    ensures
        inside == (RoundedRect { x: rx, y: ry, w: rw, h: rh, radius: r }).spec_holds_center(
            px as int,
            py as int,
        ),
{
    let cx: i128 = 2 * px as i128 + 1;
    let cy: i128 = 2 * py as i128 + 1;
    let left: i128 = 2 * rx as i128;
    let top: i128 = 2 * ry as i128;
    let right: i128 = left + 2 * rw as i128;
    let bottom: i128 = top + 2 * rh as i128;
    let rr: i128 = 2 * r as i128;
    if cx < left || cx > right || cy < top || cy > bottom {
        return false;
    }
    if cx < left + rr && cy < top + rr {
        return in_circle(cx - (left + rr), cy - (top + rr), rr);
    }
    if cx > right - rr && cy < top + rr {
        return in_circle(cx - (right - rr), cy - (top + rr), rr);
    }
    if cx < left + rr && cy > bottom - rr {
        return in_circle(cx - (left + rr), cy - (bottom - rr), rr);
    }
    if cx > right - rr && cy > bottom - rr {
        return in_circle(cx - (right - rr), cy - (bottom - rr), rr);
    }
    true
}

/// Number of columns of a bar of `w` columns that a utilization fills: its
/// share of `FULL_UNITS`, at most all of them, rounded down.
pub open spec fn spec_fill_width(w: u32, units: u32) -> int {
    if units >= FULL_UNITS {
        w as int
    } else {
        w * units / (FULL_UNITS as int)
    }
}

/// Number of columns of a bar that a utilization fills; see
/// `spec_fill_width`.
pub fn fill_width(w: u32, units: u32) -> (columns: u32)
    ensures
        columns == spec_fill_width(w, units),
        columns <= w,
{
    if units >= FULL_UNITS {
        w
    } else {
        assert(w * units <= w * FULL_UNITS && w * FULL_UNITS <= 0xffff_ffff * 100_000) by (nonlinear_arith)
            requires
                units < FULL_UNITS,
                FULL_UNITS == 100_000,
                0 <= w <= 0xffff_ffff,
        ;
        (w as u64 * units as u64 / FULL_UNITS as u64) as u32
    }
}

/// One of the four bytes of a pixel of the given colour; the fourth is full
/// opacity.
pub open spec fn channel(rgb: (u8, u8, u8), c: int) -> u8 {
    if c == 0 {
        rgb.0
    } else if c == 1 {
        rgb.1
    } else if c == 2 {
        rgb.2
    } else {
        255u8
    }
}

/// Byte `i` of a bitmap of `img_width` columns after the pixels of the bar
/// `bar` that lie before row `row`, or in it before column `col`, have been
/// drawn over `before`.
pub open spec fn spec_bar_byte_upto(
    before: Seq<u8>,
    img_width: int,
    bar: RoundedRect,
    track: (u8, u8, u8),
    fill: (u8, u8, u8),
    units: u32,
    row: int,
    col: int,
    i: int,
) -> u8 {
    let px = (i / 4) % img_width;
    let py = (i / 4) / img_width;
    if bar.spec_covers(px, py) && (py < row || (py == row && px < col)) {
        channel(
            if px < bar.x + spec_fill_width(bar.w, units) {
                fill
            } else {
                track
            },
            i % 4,
        )
    } else {
        before[i]
    }
}

/// The bitmap after the pixels of `bar` before `(col, row)` have been drawn.
pub open spec fn spec_drawn_upto(
    before: Seq<u8>,
    img_width: int,
    bar: RoundedRect,
    track: (u8, u8, u8),
    fill: (u8, u8, u8),
    units: u32,
    row: int,
    col: int,
) -> Seq<u8> {
    Seq::new(
        before.len(),
        |i: int| spec_bar_byte_upto(before, img_width, bar, track, fill, units, row, col, i),
    )
}

/// The bitmap `before` with the bar `bar` drawn over it: every pixel that
/// the bar covers takes the colour `fill` in its first columns, as many as
/// `spec_fill_width` says, and `track` in the others, with full opacity.
pub open spec fn spec_draw_rounded_bar(
    before: Seq<u8>,
    img_width: int,
    bar: RoundedRect,
    track: (u8, u8, u8),
    fill: (u8, u8, u8),
    units: u32,
) -> Seq<u8> {
    spec_drawn_upto(before, img_width, bar, track, fill, units, bar.y + bar.h, bar.x as int)
}

/// The bar lies within a bitmap of `img_width` columns and `len` bytes.
pub open spec fn bar_fits(bar: RoundedRect, img_width: int, len: int) -> bool {
    &&& bar.x + bar.w <= img_width
    &&& bar.y + bar.h <= u32::MAX
    &&& (bar.y + bar.h) * img_width * 4 <= len
    &&& len <= usize::MAX
}

/// Drawing no pixel leaves the bitmap as it was.
proof fn lemma_nothing_drawn(
    before: Seq<u8>,
    img_width: int,
    bar: RoundedRect,
    track: (u8, u8, u8),
    fill: (u8, u8, u8),
    units: u32,
)
    ensures
        spec_drawn_upto(before, img_width, bar, track, fill, units, bar.y as int, bar.x as int)
            =~= before,
{
}

/// A row that is drawn to its end is the next row not yet begun.
proof fn lemma_row_done(
    before: Seq<u8>,
    img_width: int,
    bar: RoundedRect,
    track: (u8, u8, u8),
    fill: (u8, u8, u8),
    units: u32,
    row: int,
)
    ensures
        spec_drawn_upto(before, img_width, bar, track, fill, units, row, bar.x + bar.w)
            =~= spec_drawn_upto(before, img_width, bar, track, fill, units, row + 1, bar.x as int),
{
}

/// The place of a pixel of the bar in the bitmap, and the pixel of every
/// byte of the bitmap: byte `i` belongs to the pixel `(px, py)` exactly
/// where `i / 4` is `py * img_width + px`.
proof fn lemma_pixel_of_byte(img_width: int, px: int, py: int, i: int)
    requires
        0 <= px < img_width,
        0 <= py,
        0 <= i,
    ensures
        ((i / 4) % img_width == px && (i / 4) / img_width == py) <==> i / 4 == py * img_width + px,
        0 <= py * img_width + px,
{
    let p = i / 4;
    assert(0 <= py * img_width) by (nonlinear_arith)
        requires
            0 <= py,
            0 < img_width,
    ;
    lemma_fundamental_div_mod(p, img_width);
    if p == py * img_width + px {
        lemma_fundamental_div_mod_converse(p, img_width, py, px);
    }
    if p % img_width == px && p / img_width == py {
        assert(img_width * (p / img_width) == py * img_width) by (nonlinear_arith)
            requires
                p / img_width == py,
        ;
    }
}

/// Within a bar that fits, the four bytes of a pixel lie within the bitmap.
proof fn lemma_pixel_in_bitmap(bar: RoundedRect, img_width: int, len: int, px: int, py: int)
    requires
        bar_fits(bar, img_width, len),
        bar.x <= px < bar.x + bar.w,
        bar.y <= py < bar.y + bar.h,
    ensures
        0 <= py * img_width <= py * img_width + px,
        (py * img_width + px) * 4 + 3 < len,
{
    assert(0 <= py * img_width && (py + 1) * img_width <= (bar.y + bar.h) * img_width)
        by (nonlinear_arith)
        requires
            0 <= py < bar.y + bar.h,
            0 < img_width,
    ;
    assert((py + 1) * img_width == py * img_width + img_width) by (nonlinear_arith);
}

/// Draws the bar at `(x, y)` of `w` by `h` pixels with corners of radius
/// `radius` into the bitmap `rgba` of `img_width` columns: filled with
/// `fill` from the left as far as `units` thousandths of a percent go, and
/// with `track` beyond; see `spec_draw_rounded_bar`. Pixels outside the
/// rounded shape stay as they are.
pub fn draw_rounded_bar(
    rgba: &mut Vec<u8>,
    img_width: u32,
    x: u32,
    y: u32,
    w: u32,
    h: u32,
    radius: u32,
    track: (u8, u8, u8),
    fill: (u8, u8, u8),
    units: u32,
)
    requires
        bar_fits(RoundedRect { x, y, w, h, radius }, img_width as int, old(rgba)@.len() as int),
    ensures
        final(rgba)@ == spec_draw_rounded_bar(
            old(rgba)@,
            img_width as int,
            RoundedRect { x, y, w, h, radius },
            track,
            fill,
            units,
        ),
        final(rgba)@.len() == old(rgba)@.len(),
{
    let ghost bar = RoundedRect { x, y, w, h, radius };
    let ghost before = rgba@;
    if w == 0 || h == 0 {
        proof {
            assert(rgba@ =~= spec_draw_rounded_bar(before, img_width as int, bar, track, fill, units));
        }
        return ;
    }
    let fill_w = fill_width(w, units);
    let mut py: u32 = y;
    proof {
        lemma_nothing_drawn(before, img_width as int, bar, track, fill, units);
    }
    while py < y + h
        invariant
            bar == (RoundedRect { x, y, w, h, radius }),
            bar_fits(bar, img_width as int, before.len() as int),
            w > 0,
            img_width > 0,
            y <= py <= y + h,
            fill_w == spec_fill_width(w, units),
            fill_w <= w,
            rgba@ == spec_drawn_upto(before, img_width as int, bar, track, fill, units, py as int, x as int),
        decreases y + h - py,
    {
        let mut px: u32 = x;
        while px < x + w
            invariant
                bar == (RoundedRect { x, y, w, h, radius }),
                bar_fits(bar, img_width as int, before.len() as int),
                img_width > 0,
                y <= py < y + h,
                x <= px <= x + w,
                fill_w == spec_fill_width(w, units),
                fill_w <= w,
                rgba@ == spec_drawn_upto(
                    before,
                    img_width as int,
                    bar,
                    track,
                    fill,
                    units,
                    py as int,
                    px as int,
                ),
            decreases x + w - px,
        {
            let ghost row_start = rgba@;
            proof {
                lemma_pixel_in_bitmap(bar, img_width as int, before.len() as int, px as int, py as int);
            }
            if pixel_in_rounded_rect(px, py, x, y, w, h, radius) {
                let idx: usize = (py as usize * img_width as usize + px as usize) * 4;
                let color = if px < x + fill_w {
                    fill
                } else {
                    track
                };
                rgba.set(idx, color.0);
                rgba.set(idx + 1, color.1);
                rgba.set(idx + 2, color.2);
                rgba.set(idx + 3, 255);
            }
            proof {
                let next = spec_drawn_upto(
                    before,
                    img_width as int,
                    bar,
                    track,
                    fill,
                    units,
                    py as int,
                    px + 1,
                );
                assert forall|i: int| 0 <= i < before.len() implies rgba@[i] == next[i] by {
                    lemma_pixel_of_byte(img_width as int, px as int, py as int, i);
                }
                assert(rgba@ =~= next);
            }
            px = px + 1;
        }
        proof {
            lemma_row_done(before, img_width as int, bar, track, fill, units, py as int);
        }
        py = py + 1;
    }
}

/// Sizes of the icon and place of its bars: a wide icon for a menu bar, or a
/// square one for a system tray.
pub open spec fn spec_icon_layout(wide: bool) -> IconLayout {
    if wide {
        IconLayout {
            width: 36,
            height: 22,
            top: RoundedRect { x: 2, y: 3, w: 32, h: 7, radius: 3 },
            bottom: RoundedRect { x: 2, y: 12, w: 32, h: 7, radius: 3 },
        }
    } else {
        IconLayout {
            width: 32,
            height: 32,
            top: RoundedRect { x: 2, y: 4, w: 28, h: 10, radius: 4 },
            bottom: RoundedRect { x: 2, y: 18, w: 28, h: 10, radius: 4 },
        }
    }
}

/// Sizes of the icon and place of its bars; see `spec_icon_layout`.
pub fn icon_layout(wide: bool) -> (layout: IconLayout)
    ensures
        layout == spec_icon_layout(wide),
{
    if wide {
        IconLayout {
            width: 36,
            height: 22,
            top: RoundedRect { x: 2, y: 3, w: 32, h: 7, radius: 3 },
            bottom: RoundedRect { x: 2, y: 12, w: 32, h: 7, radius: 3 },
        }
    } else {
        IconLayout {
            width: 32,
            height: 32,
            top: RoundedRect { x: 2, y: 4, w: 28, h: 10, radius: 4 },
            bottom: RoundedRect { x: 2, y: 18, w: 28, h: 10, radius: 4 },
        }
    }
}

/// The bitmap of the icon: transparent, with the bar of the short window
/// above that of the long window, each in its colour over the track.
pub open spec fn spec_bars_rgba(
    session_units: u32,
    session_color: UsageColor,
    weekly_units: u32,
    weekly_color: UsageColor,
    wide: bool,
) -> Seq<u8> {
    let layout = spec_icon_layout(wide);
    let blank = Seq::new((layout.width * layout.height * 4) as nat, |i: int| 0u8);
    let upper = spec_draw_rounded_bar(
        blank,
        layout.width as int,
        layout.top,
        TRACK_RGB,
        spec_color_rgb(session_color),
        session_units,
    );
    spec_draw_rounded_bar(
        upper,
        layout.width as int,
        layout.bottom,
        TRACK_RGB,
        spec_color_rgb(weekly_color),
        weekly_units,
    )
}

/// Draws the icon for two utilizations in thousandths of a percent and their
/// colours, and gives its bitmap, width and height; see `spec_bars_rgba`.
pub fn generate_bars_rgba(
    session_units: u32,
    session_color: UsageColor,
    weekly_units: u32,
    weekly_color: UsageColor,
    wide: bool,
) -> (icon: (Vec<u8>, u32, u32))
    ensures
        icon.0@ == spec_bars_rgba(session_units, session_color, weekly_units, weekly_color, wide),
        icon.1 == spec_icon_layout(wide).width,
        icon.2 == spec_icon_layout(wide).height,
{
    let layout = icon_layout(wide);
    let size: usize = (layout.width * layout.height * 4) as usize;
    let mut rgba: Vec<u8> = Vec::new();
    while rgba.len() < size
        invariant
            rgba@.len() <= size,
            forall|i: int| 0 <= i < rgba@.len() ==> rgba@[i] == 0u8,
        decreases size - rgba@.len(),
    {
        rgba.push(0);
    }
    assert(rgba@ =~= Seq::new(size as nat, |i: int| 0u8));
    draw_rounded_bar(
        &mut rgba,
        layout.width,
        layout.top.x,
        layout.top.y,
        layout.top.w,
        layout.top.h,
        layout.top.radius,
        TRACK_RGB,
        color_rgb(session_color),
        session_units,
    );
    draw_rounded_bar(
        &mut rgba,
        layout.width,
        layout.bottom.x,
        layout.bottom.y,
        layout.bottom.w,
        layout.bottom.h,
        layout.bottom.radius,
        TRACK_RGB,
        color_rgb(weekly_color),
        weekly_units,
    );
    (rgba, layout.width, layout.height)
}

/// What the icon shows of a bar that may be absent: its utilization and
/// colour, or nothing in `Gray`.
pub open spec fn spec_icon_bar(bar: Option<UsageBar>) -> (u32, UsageColor) {
    match bar {
        Some(b) => (b.utilization, b.color),
        None => (0u32, UsageColor::Gray),
    }
}

/// What the icon shows of a bar that may be absent; see `spec_icon_bar`.
pub fn icon_bar(bar: &Option<UsageBar>) -> (shown: (u32, UsageColor))
    ensures
        shown == spec_icon_bar(*bar),
{
    match bar {
        Some(b) => (b.utilization, b.color),
        None => (0, UsageColor::Gray),
    }
}

/// Draws the icon of a state, and of no state two empty bars in `Gray`.
pub fn state_icon_rgba(state: Option<&UsageState>, wide: bool) -> (icon: (Vec<u8>, u32, u32))
    ensures
        icon.0@ == match state {
            Some(s) => spec_bars_rgba(
                spec_icon_bar(s.session).0,
                spec_icon_bar(s.session).1,
                spec_icon_bar(s.weekly).0,
                spec_icon_bar(s.weekly).1,
                wide,
            ),
            None => spec_bars_rgba(0, UsageColor::Gray, 0, UsageColor::Gray, wide),
        },
        icon.1 == spec_icon_layout(wide).width,
        icon.2 == spec_icon_layout(wide).height,
{
    match state {
        Some(s) => {
            let upper = icon_bar(&s.session);
            let lower = icon_bar(&s.weekly);
            generate_bars_rgba(upper.0, upper.1, lower.0, lower.1, wide)
        },
        None => generate_bars_rgba(0, UsageColor::Gray, 0, UsageColor::Gray, wide),
    }
}

} // verus!
