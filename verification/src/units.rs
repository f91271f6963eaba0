//! Fixed-point scales, world bounds and small arithmetic helpers.
//!
//! World coordinates are measured in milli-units: `MILLI` of them make one
//! world unit (one source pixel at scale 1).  Time is measured in ticks:
//! `TICKS_PER_SECOND` of them make one second, so `FRAME_TICKS` is exactly
//! one sixtieth of a second, the reference frame that speeds are tuned for.

use vstd::prelude::*;

verus! {

/// Milli-units per world unit.
pub const MILLI: i64 = 1000;

/// Ticks per second of wall time.
pub const TICKS_PER_SECOND: i64 = 6000;

/// Ticks in one sixtieth of a second: a speed `v` covers `v` milli-units in
/// a frame of exactly this length.
pub const FRAME_TICKS: i64 = 100;

/// Largest coordinate magnitude the world admits; movement saturates here.
pub const COORD_LIMIT: i64 = 1_000_000_000_000;

/// Largest camera offset magnitude; camera panning saturates here.
pub const CAM_POS_LIMIT: i64 = 10_000_000_000_000_000;

/// Largest base speed, in milli-units per reference frame.
pub const SPEED_CAP: i64 = 1_000_000;

/// Largest elapsed time of a single frame, in ticks (1000 seconds).
pub const DT_CAP: i64 = 6_000_000;

/// Largest sprite size multiplier, in milli-units per pixel.
pub const SCALE_CAP: i64 = 1_000_000;

/// Largest sprite frame dimension, in pixels.
pub const PX_CAP: usize = 10_000;

/// Largest bounding-box extent: `PX_CAP * SCALE_CAP` milli-units.
pub const BOX_CAP: i64 = 10_000_000_000;

/// Largest frame-scaled displacement: `SPEED_CAP * DT_CAP / FRAME_TICKS`.
pub const STEP_CAP: i64 = 60_000_000_000;

/// Largest zoom factor, in milli (one thousand is 1x).
pub const ZOOM_CAP: i64 = 1_000_000;

/// Largest screen dimension, in milli-units.
pub const SCREEN_CAP: i64 = 1_000_000_000_000;

/// Largest tile cell size, in milli-units.
pub const CELL_CAP: i64 = 1_000_000_000;

/// Largest tile-grid dimension, in cells.
pub const DIM_CAP: usize = 1_000_000;

/// Largest animation frame duration, in ticks.
pub const DUR_CAP: i64 = 10_000_000;

/// Largest projectile velocity component, in milli-units per frame.
pub const VEL_CAP: i64 = 10_000_000;

/// Largest camera velocity limit, in milli-units per frame.
pub const CAM_VEL_CAP: i64 = 1_000_000_000;

/// A world coordinate saturated into the admitted range.
pub open spec fn clamped(v: int) -> int {
    if v < -COORD_LIMIT {
        -COORD_LIMIT as int
    } else if v > COORD_LIMIT {
        COORD_LIMIT as int
    } else {
        v
    }
}

/// Saturate a world coordinate into the admitted range.
pub fn clamp_coord(v: i64) -> (r: i64)
    ensures
        r == clamped(v as int),
{
    if v < -COORD_LIMIT {
        -COORD_LIMIT
    } else if v > COORD_LIMIT {
        COORD_LIMIT
    } else {
        v
    }
}

/// A camera offset saturated into its admitted range.
pub open spec fn clamped_cam(v: int) -> int {
    if v < -CAM_POS_LIMIT {
        -CAM_POS_LIMIT as int
    } else if v > CAM_POS_LIMIT {
        CAM_POS_LIMIT as int
    } else {
        v
    }
}

/// Saturate a camera offset into its admitted range.
pub fn clamp_cam(v: i64) -> (r: i64)
    ensures
        r == clamped_cam(v as int),
{
    if v < -CAM_POS_LIMIT {
        -CAM_POS_LIMIT
    } else if v > CAM_POS_LIMIT {
        CAM_POS_LIMIT
    } else {
        v
    }
}

/// A time accumulator grown by `dt`, saturating at the largest tick count.
pub open spec fn time_acc(t: int, dt: int) -> int {
    if t + dt > i64::MAX {
        i64::MAX as int
    } else {
        t + dt
    }
}

/// Grow a time accumulator by `dt`, saturating at the largest tick count.
pub fn acc_time(t: i64, dt: i64) -> (r: i64)
    requires
        0 <= t,
        0 <= dt,
    ensures
        r == time_acc(t as int, dt as int),
{
    if t > i64::MAX - dt {
        i64::MAX
    } else {
        t + dt
    }
}

/// Quotient of a nonnegative dividend by a positive divisor.
pub fn div_pos(a: i64, d: i64) -> (r: i64)
    requires
        0 <= a,
        0 < d,
    ensures
        r == a as int / d as int,
        0 <= r <= a,
{
    ((a as u64) / (d as u64)) as i64
}

/// Integer division truncated toward zero, as a float cast would round.
pub open spec fn tdiv(a: int, d: int) -> int
    recommends
        0 < d,
{
    if a >= 0 {
        a / d
    } else {
        -((-a) / d)
    }
}

/// Divide by a positive divisor, truncating toward zero.
pub fn div_trunc(a: i64, d: i64) -> (r: i64)
    requires
        i64::MIN < a,
        0 < d,
    ensures
        r == tdiv(a as int, d as int),
        a >= 0 ==> 0 <= r <= a,
        a < 0 ==> a <= r <= 0,
{
    if a >= 0 {
        div_pos(a, d)
    } else {
        let q = div_pos(-a, d);
        -q
    }
}

} // verus!
