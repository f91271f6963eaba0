//! Plain geometric value types of the world.

use vstd::prelude::*;

verus! {

/// A 2D world point or extent, in milli-units.
#[derive(Clone, Copy, PartialEq, Eq, Structural, Debug)]
pub struct Vec2 {
    pub x: i64,
    pub y: i64,
}

impl Vec2 {
    /// Pair the two components.
    pub fn new(x: i64, y: i64) -> (v: Vec2)
        ensures
            v == (Vec2 { x, y }),
    {
        Vec2 { x, y }
    }
}

/// A per-frame movement intent, each axis -1, 0 or 1.
#[derive(Clone, Copy, PartialEq, Eq, Structural, Debug)]
pub struct Dir {
    pub x: i8,
    pub y: i8,
}

/// Validity of an intent vector.
pub open spec fn dir_wf(d: Dir) -> bool {
    &&& -1 <= d.x <= 1
    &&& -1 <= d.y <= 1
}

/// An axis-aligned hit box: top-left corner and extent.
#[derive(Clone, Copy, PartialEq, Eq, Structural, Debug)]
pub struct HitBox {
    pub pos: Vec2,
    pub size: Vec2,
}

} // verus!
