//! Integer geometry in pixel coordinates.

use vstd::prelude::*;

verus! {

/// A position in pixels, relative to the top-left corner of the surface.
#[derive(Clone, Copy, Debug, PartialEq, Eq, Structural)]
pub struct Coord(pub i32, pub i32);

/// An extent in pixels.
#[derive(Clone, Copy, Debug, PartialEq, Eq, Structural)]
pub struct Size(pub u32, pub u32);

/// An axis-aligned rectangle: its top-left corner and its extent.
#[derive(Clone, Copy, Debug, PartialEq, Eq, Structural)]
pub struct Rect {
    pub pos: Coord,
    pub size: Size,
}

impl Coord {
    /// The origin.
    pub fn zero() -> (c: Coord)
        ensures
            c == Coord(0, 0),
    {
        Coord(0, 0)
    }

    /// A coordinate with both components equal to `n`.
    pub fn uniform(n: i32) -> (c: Coord)
        ensures
            c == Coord(n, n),
    {
        Coord(n, n)
    }
}

impl Size {
    /// A size with both components equal to `n`.
    pub fn uniform(n: u32) -> (s: Size)
        ensures
            s == Size(n, n),
    {
        Size(n, n)
    }
}

impl Rect {
    /// True when the rectangle has no interior: its width or its height is zero.
    pub open spec fn is_empty(self) -> bool {
        self.size.0 == 0 || self.size.1 == 0
    }

    /// Left edge, in pixels.
    pub open spec fn x0(self) -> int {
        self.pos.0 as int
    }

    /// Top edge, in pixels.
    pub open spec fn y0(self) -> int {
        self.pos.1 as int
    }

    /// Right edge, in pixels.
    pub open spec fn x1(self) -> int {
        self.pos.0 + self.size.0
    }

    /// Bottom edge, in pixels.
    pub open spec fn y1(self) -> int {
        self.pos.1 + self.size.1
    }
}

} // verus!
