//! Positions on screen, on an integer grid.
//!
//! A coordinate counts ten-thousandths of the normalized screen unit, so that
//! every constant of the editor (the sampling step, the selection radius, the
//! default handle offset, the marker radii) is a whole number and every
//! comparison of distances is exact.

use vstd::prelude::*;

verus! {

/// Grid steps in one normalized screen unit.
pub const UNIT: i32 = 10_000;

/// Step of the parameter between two samples of the curve: a hundredth of a
/// unit.
pub const DELTA_T: i32 = 100;

/// Greatest distance between the cursor and something it can select.
pub const POINT_SELECTION_DIST: i32 = DELTA_T * 8;

/// Position on screen.
#[derive(Clone, Copy, Debug, PartialEq, Eq, Structural)]
pub struct ScreenPos {
    pub x: i32,
    pub y: i32,
}

/// `v` brought into the range of a coordinate.
pub open spec fn saturate(v: int) -> int {
    if v < i32::MIN {
        i32::MIN as int
    } else if v > i32::MAX {
        i32::MAX as int
    } else {
        v
    }
}

/// Brings a wide intermediate value back onto the grid.
pub fn saturate_coord(v: i64) -> (r: i32)
    ensures
        r == saturate(v as int),
{
    if v < i32::MIN as i64 {
        i32::MIN
    } else if v > i32::MAX as i64 {
        i32::MAX
    } else {
        v as i32
    }
}

impl ScreenPos {
    pub fn new(x: i32, y: i32) -> (p: ScreenPos)
        ensures
            p == (ScreenPos { x, y }),
    {
        ScreenPos { x, y }
    }

    /// Square of the Euclidean distance to `other`.
    pub open spec fn dist2(self, other: ScreenPos) -> int {
        (self.x - other.x) * (self.x - other.x) + (self.y - other.y) * (self.y - other.y)
    }

    /// Whether `other` lies within the selection radius of `self`.
    pub open spec fn within_reach(self, other: ScreenPos) -> bool {
        self.dist2(other) <= POINT_SELECTION_DIST * POINT_SELECTION_DIST
    }

    /// The position moved by `(dx, dy)`, each coordinate stopping at the edge
    /// of the grid.
    pub open spec fn shifted(self, dx: int, dy: int) -> ScreenPos {
        ScreenPos { x: saturate(self.x + dx) as i32, y: saturate(self.y + dy) as i32 }
    }

    pub fn distance_squared(&self, other: &ScreenPos) -> (d: i128)
        ensures
            d == self.dist2(*other),
    {
        let dx: i128 = self.x as i128 - other.x as i128;
        let dy: i128 = self.y as i128 - other.y as i128;
        assert(0 <= dx * dx <= 0x1_0000_0000 * 0x1_0000_0000) by (nonlinear_arith)
            requires
                -0x1_0000_0000 <= dx <= 0x1_0000_0000,
        ;
        assert(0 <= dy * dy <= 0x1_0000_0000 * 0x1_0000_0000) by (nonlinear_arith)
            requires
                -0x1_0000_0000 <= dy <= 0x1_0000_0000,
        ;
        dx * dx + dy * dy
    }

    pub fn is_within_reach(&self, other: &ScreenPos) -> (r: bool)
        ensures
            r == self.within_reach(*other),
    {
        let reach: i128 = (POINT_SELECTION_DIST as i128) * (POINT_SELECTION_DIST as i128);
        self.distance_squared(other) <= reach
    }

    pub fn shift(&self, dx: i32, dy: i32) -> (p: ScreenPos)
        ensures
            p == self.shifted(dx as int, dy as int),
    {
        ScreenPos {
            x: saturate_coord(self.x as i64 + dx as i64),
            y: saturate_coord(self.y as i64 + dy as i64),
        }
    }
}

} // verus!
