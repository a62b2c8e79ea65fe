//! Rectangles on the terminal canvas.

use vstd::prelude::*;

verus! {

/// A rectangular region of the terminal display, in cell coordinates.
/// `x` grows to the right, `y` grows downward.
#[derive(Clone, Copy, PartialEq, Eq, Structural, Debug)]
pub struct Rect {
    pub x: u16,
    pub y: u16,
    pub width: u16,
    pub height: u16,
}

impl Rect {
    /// One past the right-most column of the rectangle.
    pub open spec fn right(self) -> int {
        self.x + self.width
    }

    /// One past the bottom-most row of the rectangle.
    pub open spec fn bottom(self) -> int {
        self.y + self.height
    }

    /// The rectangle's extent stays within the coordinate space, so that
    /// `right` and `bottom` are representable as `u16`.
    pub open spec fn wf(self) -> bool {
        self.right() <= u16::MAX && self.bottom() <= u16::MAX
    }

    /// The cell at column `px`, row `py` lies inside the rectangle.
    pub open spec fn contains(self, px: int, py: int) -> bool {
        self.x <= px < self.right() && self.y <= py < self.bottom()
    }

    /// `self` lies entirely within `outer`.
    pub open spec fn inside(self, outer: Rect) -> bool {
        outer.x <= self.x && self.right() <= outer.right() && outer.y <= self.y
            && self.bottom() <= outer.bottom()
    }

    /// No cell lies in both rectangles.
    pub open spec fn disjoint(self, other: Rect) -> bool {
        forall|px: int, py: int| !(self.contains(px, py) && other.contains(px, py))
    }
}

/// The smaller of two `u16` values.
pub open spec fn min_u16(a: u16, b: u16) -> u16 {
    if a <= b {
        a
    } else {
        b
    }
}

/// Center a region of the wanted size inside `area`, shrinking it to fit
/// when `area` is too small. The leftover space is divided evenly, with the
/// odd cell going to the right and to the bottom.
pub fn center(area: Rect, want_width: u16, want_height: u16) -> (r: Rect)
    requires
        area.wf(),
    ensures
        r.wf(),
        r.inside(area),
        r.width == min_u16(want_width, area.width),
        r.height == min_u16(want_height, area.height),
        r.x == area.x + (area.width - r.width) / 2,
        r.y == area.y + (area.height - r.height) / 2,
{
    let width: u16 = if want_width <= area.width {
        want_width
    } else {
        area.width
    };
    let height: u16 = if want_height <= area.height {
        want_height
    } else {
        area.height
    };
    Rect {
        x: area.x + (area.width - width) / 2,
        y: area.y + (area.height - height) / 2,
        width,
        height,
    }
}

} // verus!
