//! Where the pop-up windows of the terminal interface go.

use vstd::prelude::*;

verus! {

/// A rectangle of the screen, in character cells.
#[derive(Debug, Clone, Copy, PartialEq, Eq, Structural)]
pub struct Area {
    pub x: u16,
    pub y: u16,
    pub width: u16,
    pub height: u16,
}

/// `a - b`, or 0 where `b` is larger.
pub open spec fn sat_sub(a: int, b: int) -> int {
    if a > b {
        a - b
    } else {
        0
    }
}

pub open spec fn min(a: int, b: int) -> int {
    if a < b {
        a
    } else {
        b
    }
}

/// A window of at most `width` by `height` cells centred in `area`,
/// keeping a margin of two cells on each side.
pub open spec fn centered(area: Area, width: int, height: int) -> Area {
    let w = min(width, sat_sub(area.width as int, 4));
    let h = min(height, sat_sub(area.height as int, 4));
    Area {
        x: (sat_sub(area.width as int, w) / 2 + area.x) as u16,
        y: (sat_sub(area.height as int, h) / 2 + area.y) as u16,
        width: w as u16,
        height: h as u16,
    }
}

/// The centred window of at most `width` by `height` cells in `area`.
pub fn popup_area(area: Area, width: u16, height: u16) -> (r: Area)
    requires
        area.x + area.width <= u16::MAX,
        area.y + area.height <= u16::MAX,
    ensures
        r == centered(area, width as int, height as int),
        r.x + r.width <= area.x + area.width,
        r.y + r.height <= area.y + area.height,
{
    let w = if width < area.width.saturating_sub(4) {
        width
    } else {
        area.width.saturating_sub(4)
    };
    let h = if height < area.height.saturating_sub(4) {
        height
    } else {
        area.height.saturating_sub(4)
    };
    Area {
        x: (area.width - w) / 2 + area.x,
        y: (area.height - h) / 2 + area.y,
        width: w,
        height: h,
    }
}

/// The model details window: four fifths of `area` each way, centred
/// (the products taken modulo 2^16, as 16-bit arithmetic wraps).
pub fn detail_area(area: Area) -> (r: Area)
    requires
        area.x + area.width <= u16::MAX,
        area.y + area.height <= u16::MAX,
    ensures
        r == centered(
            area,
            (area.width * 4) % 0x10000 / 5,
            (area.height * 4) % 0x10000 / 5,
        ),
{
    let w: u16 = area.width.wrapping_mul(4) / 5;
    let h: u16 = area.height.wrapping_mul(4) / 5;
    popup_area(area, w, h)
}

} // verus!
