//! Screen rectangles and where the pickers' popups go on the screen.
use vstd::prelude::*;

verus! {

/// A rectangle of terminal cells.
#[derive(Debug, Clone, Copy, PartialEq, Eq)]
pub struct Area {
    pub x: u16,
    pub y: u16,
    pub width: u16,
    pub height: u16,
}

/// `a - b`, or 0 when `b` is larger.
pub open spec fn sat_sub(a: int, b: int) -> int {
    if a > b {
        a - b
    } else {
        0
    }
}

/// The smaller of two numbers.
pub open spec fn min(a: int, b: int) -> int {
    if a < b {
        a
    } else {
        b
    }
}

/// The rectangle reaches no further than the last cell coordinate.
pub open spec fn fits_screen(a: Area) -> bool {
    a.x + a.width <= u16::MAX && a.y + a.height <= u16::MAX
}

/// A `width` × `height` rectangle centred in `area`, cut down to the area's
/// size.
pub fn centered_rect(width: u16, height: u16, area: Area) -> (r: Area)
    requires
        fits_screen(area),
    ensures
        r.x == area.x + sat_sub(area.width as int, width as int) / 2,
        r.y == area.y + sat_sub(area.height as int, height as int) / 2,
        r.width == min(width as int, area.width as int),
        r.height == min(height as int, area.height as int),
{
    let x = area.x + area.width.saturating_sub(width) / 2;
    let y = area.y + area.height.saturating_sub(height) / 2;
    Area { x, y, width: if width < area.width {
        width
    } else {
        area.width
    }, height: if height < area.height {
        height
    } else {
        area.height
    } }
}

/// The character picker's popup: at most 64 columns wide and 4 narrower than
/// the screen, 18 rows in the form and 14 in the list, centred.
pub fn profile_picker_popup(area: Area, editing: bool) -> (r: Area)
    requires
        fits_screen(area),
    ensures
        r.width == min(64, sat_sub(area.width as int, 4)),
        r.height == (if editing {
            18int
        } else {
            14int
        }),
        r.x == area.x + sat_sub(area.width as int, r.width as int) / 2,
        r.y == area.y + sat_sub(area.height as int, r.height as int) / 2,
{
    let avail = area.width.saturating_sub(4);
    let width: u16 = if 64 < avail {
        64
    } else {
        avail
    };
    let height: u16 = if editing {
        18
    } else {
        14
    };
    let x = area.x + (area.width.saturating_sub(width)) / 2;
    let y = area.y + (area.height.saturating_sub(height)) / 2;
    Area { x, y, width, height }
}

/// The inside of the character picker's popup: two columns in from each side
/// and one row in from top and bottom.
pub fn profile_picker_inner(popup: Area) -> (r: Area)
    requires
        popup.x + 2 <= u16::MAX,
        popup.y + 1 <= u16::MAX,
    ensures
        r.x == popup.x + 2,
        r.y == popup.y + 1,
        r.width == sat_sub(popup.width as int, 4),
        r.height == sat_sub(popup.height as int, 2),
{
    Area {
        x: popup.x + 2,
        y: popup.y + 1,
        width: popup.width.saturating_sub(4),
        height: popup.height.saturating_sub(2),
    }
}

} // verus!
