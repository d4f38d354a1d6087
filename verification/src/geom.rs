//! Integer geometry in the shared UI coordinate space.
//!
//! `x` grows rightward and `y` grows downward. All boxes are axis-aligned and
//! are given by their top-left corner and a non-negative size.

use vstd::prelude::*;

verus! {

/// Bound on the magnitude of every input coordinate, size and offset.
///
/// Keeping inputs within `2^30` guarantees that every intermediate value of
/// the placement pipeline (sums of a handful of coordinates) stays far inside
/// the `i64` range, so the arithmetic below never overflows.
pub const COORD_LIMIT: i64 = 0x4000_0000;

/// Bound on the magnitude of a computed placement coordinate.
///
/// A desired position is a sum of at most a few input coordinates, so it can
/// exceed [`COORD_LIMIT`] but stays well within this looser bound, which the
/// correction stages accept.
pub const PLACE_LIMIT: i64 = 0x10_0000_0000;

/// Holds of every coordinate accepted as pipeline input.
pub open spec fn coord_in_range(v: int) -> bool {
    -(COORD_LIMIT as int) <= v <= COORD_LIMIT as int
}

/// Holds of every computed placement coordinate.
pub open spec fn place_in_range(v: int) -> bool {
    -(PLACE_LIMIT as int) <= v <= PLACE_LIMIT as int
}

/// A point or translation in the UI coordinate space.
#[derive(Clone, Copy, Debug, PartialEq, Eq, Structural)]
pub struct Vec2i {
    pub x: i64,
    pub y: i64,
}

impl Vec2i {
    /// Both components are within the input coordinate bound.
    pub open spec fn wf(self) -> bool {
        coord_in_range(self.x as int) && coord_in_range(self.y as int)
    }

    /// Both components are within the placement coordinate bound.
    pub open spec fn placed(self) -> bool {
        place_in_range(self.x as int) && place_in_range(self.y as int)
    }

    /// Runtime check for [`Vec2i::wf`], for callers outside verified code.
    pub fn is_well_formed(&self) -> (b: bool)
        ensures
            b == self.wf(),
    {
        -COORD_LIMIT <= self.x && self.x <= COORD_LIMIT && -COORD_LIMIT <= self.y && self.y
            <= COORD_LIMIT
    }
}

/// A non-negative width/height pair.
#[derive(Clone, Copy, Debug, PartialEq, Eq, Structural)]
pub struct Size {
    pub w: i64,
    pub h: i64,
}

impl Size {
    /// The size is non-negative and within the input bound.
    pub open spec fn wf(self) -> bool {
        0 <= self.w <= COORD_LIMIT as int && 0 <= self.h <= COORD_LIMIT as int
    }

    /// Runtime check for [`Size::wf`], for callers outside verified code.
    pub fn is_well_formed(&self) -> (b: bool)
        ensures
            b == self.wf(),
    {
        0 <= self.w && self.w <= COORD_LIMIT && 0 <= self.h && self.h <= COORD_LIMIT
    }
}

/// An axis-aligned rectangle: top-left corner plus non-negative size.
#[derive(Clone, Copy, Debug, PartialEq, Eq, Structural)]
pub struct Rect {
    pub x: i64,
    pub y: i64,
    pub w: i64,
    pub h: i64,
}

impl Rect {
    /// Corner within the input bound, size non-negative and within the bound.
    pub open spec fn wf(self) -> bool {
        coord_in_range(self.x as int) && coord_in_range(self.y as int) && 0 <= self.w
            <= COORD_LIMIT as int && 0 <= self.h <= COORD_LIMIT as int
    }

    /// Like [`Rect::wf`] but with the corner only within the looser placement
    /// bound; holds of a tooltip box at a computed position.
    pub open spec fn placed_wf(self) -> bool {
        place_in_range(self.x as int) && place_in_range(self.y as int) && 0 <= self.w
            <= COORD_LIMIT as int && 0 <= self.h <= COORD_LIMIT as int
    }

    /// Coordinate of the right edge.
    pub open spec fn right(self) -> int {
        self.x + self.w
    }

    /// Coordinate of the bottom edge.
    pub open spec fn bottom(self) -> int {
        self.y + self.h
    }

    /// The two rectangles share interior points. Boxes that merely touch
    /// along an edge do not overlap.
    pub open spec fn spec_overlaps(self, o: Rect) -> bool {
        self.x < o.right() && o.x < self.right() && self.y < o.bottom() && o.y < self.bottom()
    }

    /// `o` lies entirely inside `self` (edges may coincide).
    pub open spec fn spec_contains_rect(self, o: Rect) -> bool {
        self.x <= o.x && o.right() <= self.right() && self.y <= o.y && o.bottom() <= self.bottom()
    }

    /// Runtime check for [`Rect::wf`], for callers outside verified code.
    pub fn is_well_formed(&self) -> (b: bool)
        ensures
            b == self.wf(),
    {
        -COORD_LIMIT <= self.x && self.x <= COORD_LIMIT && -COORD_LIMIT <= self.y && self.y
            <= COORD_LIMIT && 0 <= self.w && self.w <= COORD_LIMIT && 0 <= self.h && self.h
            <= COORD_LIMIT
    }

    /// Decides [`Rect::spec_overlaps`].
    pub fn overlaps(&self, o: &Rect) -> (b: bool)
        requires
            self.placed_wf(),
            o.placed_wf(),
        ensures
            b == self.spec_overlaps(*o),
    {
        self.x < o.x + o.w && o.x < self.x + self.w && self.y < o.y + o.h && o.y < self.y + self.h
    }

    /// Decides [`Rect::spec_contains_rect`].
    pub fn contains_rect(&self, o: &Rect) -> (b: bool)
        requires
            self.placed_wf(),
            o.placed_wf(),
        ensures
            b == self.spec_contains_rect(*o),
    {
        self.x <= o.x && o.x + o.w <= self.x + self.w && self.y <= o.y && o.y + o.h <= self.y
            + self.h
    }
}

} // verus!
