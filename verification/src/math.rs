//! Plane vectors and axis-aligned rectangles.
//!
//! A coordinate is a single-precision number held by its IEEE 754 bit
//! pattern, so that a vector can be copied and compared exactly.

use vstd::prelude::*;
use vstd::std_specs::convert::FromSpecImpl;

verus! {

/// Bit pattern of the number zero.
pub const ZERO: u32 = 0x0000_0000;

/// Bit pattern of the number one.
pub const ONE: u32 = 0x3F80_0000;

/// A vector of the plane.
#[derive(Clone, Copy, Debug, PartialEq, Eq)]
pub struct Vec2(pub [u32; 2]);

impl Vec2 {
    /// The vector with the given coordinates.
    pub fn new(x: u32, y: u32) -> (v: Vec2)
        ensures
            v == Vec2([x, y]),
            v.0[0] == x,
            v.0[1] == y,
    {
        Vec2([x, y])
    }

    /// The first coordinate.
    pub fn x(&self) -> (x: u32)
        ensures
            x == self.0[0],
    {
        self.0[0]
    }

    /// The second coordinate.
    pub fn y(&self) -> (y: u32)
        ensures
            y == self.0[1],
    {
        self.0[1]
    }
}

impl From<[u32; 2]> for Vec2 {
    /// The vector with the coordinates `value`.
    fn from(value: [u32; 2]) -> (v: Vec2) {
        Vec2(value)
    }
}

impl FromSpecImpl<[u32; 2]> for Vec2 {
    open spec fn obeys_from_spec() -> bool {
        true
    }

    open spec fn from_spec(value: [u32; 2]) -> Vec2 {
        Vec2(value)
    }
}

/// An axis-aligned rectangle: where it is placed, and how large it is.
#[derive(Clone, Copy, Debug, PartialEq, Eq)]
pub struct Rect {
    /// Placement of the rectangle's local origin in the scene.
    pub pos: Vec2,
    /// Width and height.
    pub size: Vec2,
}

} // verus!
