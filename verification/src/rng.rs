//! The enemy's source of wander jitter.

use vstd::prelude::*;

verus! {

/// Relies on macroquad::rand::gen_range (quad-rand): the result is
/// low + (high - low) * r for a pseudo-random r in [0, 1), truncated
/// toward zero, so it lies between the bounds; the call never panics.
/// Nothing more is assumed of a random draw.
#[verifier::external_body]
pub(crate) fn gen_range_i32(low: i32, high: i32) -> (r: i32)
    requires
        low <= high,
    ensures
        low <= r <= high,
{
    macroquad::rand::gen_range(low, high)
}

} // verus!
