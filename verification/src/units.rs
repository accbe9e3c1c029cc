//! Fixed-point micro-units and the small arithmetic helpers shared by the
//! resolver and the interpolator.

use vstd::prelude::*;

verus! {

/// One million micro-units stand for the real value 1.0.
pub const SCALE: i64 = 1_000_000;

/// Hysteresis threshold (0.001): a candidate target has to differ from the
/// current target by more than this, on some axis or on zoom, before a new
/// transition is started.
pub const HYSTERESIS: i64 = 1_000;

/// Largest accepted screen width or height, in screen units.
pub const MAX_DIMENSION: i64 = 1_000_000;

/// Largest accepted magnitude for a screen origin offset, in screen units.
pub const MAX_COORDINATE: i64 = 1_000_000_000;

/// Longest accepted transition duration, in micro-seconds (one hour).
pub const MAX_ANIMATION_TIME: i64 = 3_600_000_000;

/// `v` raised to at least `lo`, then capped at `hi` (in this order, as the
/// resolver applies it to the zoom level).
pub open spec fn clamp_int(v: int, lo: int, hi: int) -> int {
    let raised = if v < lo {
        lo
    } else {
        v
    };
    if raised > hi {
        hi
    } else {
        raised
    }
}

/// Absolute difference of two integers.
pub open spec fn abs_diff_int(a: int, b: int) -> int {
    if a >= b {
        a - b
    } else {
        b - a
    }
}

/// Exec counterpart of `clamp_int`.
pub fn clamp_i64(v: i64, lo: i64, hi: i64) -> (r: i64)
    ensures
        r == clamp_int(v as int, lo as int, hi as int),
{
    let raised = if v < lo {
        lo
    } else {
        v
    };
    if raised > hi {
        hi
    } else {
        raised
    }
}

} // verus!
