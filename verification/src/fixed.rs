//! Fixed-point arithmetic for the kinematics model.
//!
//! All physical quantities are signed 64-bit integers in milli-units:
//! a velocity of 3.0 units per tick is stored as 3000, an acceleration
//! step of 0.1 as 100, an angle of 360 degrees as 360_000 milli-degrees.
//! Products are divided back down with truncation toward zero, so the
//! decimal constants of the model (a 0.9 damping factor, a -0.5 bounce
//! factor) are represented exactly.

use vstd::prelude::*;

verus! {

/// Milli-units per unit: the fixed-point scaling factor.
pub const SCALE: i64 = 1000;

/// Magnitude bound on coordinates; positions are clamped into
/// [-POS_LIMIT, POS_LIMIT] so that position updates never overflow.
pub const POS_LIMIT: i64 = 1_000_000_000_000;

/// Magnitude bound on velocities and acceleration steps (one million
/// units per tick), far above any playable setting.
pub const VEL_LIMIT: i64 = 1_000_000_000;

/// Milli-degrees in one full turn; headings are kept in [0, FULL_TURN).
pub const FULL_TURN: i64 = 360_000;

/// Magnitude of an integer.
pub open spec fn mag(v: int) -> int {
    if v >= 0 {
        v
    } else {
        -v
    }
}

/// `a * m / d` with the division truncating toward zero, as machine
/// division does; meaningful for `d > 0`.
pub open spec fn scaled_trunc(a: int, m: int, d: int) -> int {
    if a * m >= 0 {
        (a * m) / d
    } else {
        -((-(a * m)) / d)
    }
}

/// A coordinate clamped into the representable range.
pub open spec fn clamp_coord(v: int) -> int {
    if v > POS_LIMIT {
        POS_LIMIT as int
    } else if v < -POS_LIMIT {
        -POS_LIMIT as int
    } else {
        v
    }
}

/// Computes `a * m / d` truncating toward zero.
pub fn mul_div_trunc(a: i64, m: i64, d: i64) -> (r: i64)
    requires
        d > 0,
        mag(a * m) <= i64::MAX,
    ensures
        r == scaled_trunc(a as int, m as int, d as int),
        mag(r as int) <= mag(a * m),
{
    let p: i64 = a * m;
    if p >= 0 {
        p / d
    } else {
        -(-p / d)
    }
}

/// Clamps a coordinate into [-POS_LIMIT, POS_LIMIT].
pub fn clamp_coordinate(v: i64) -> (r: i64)
    ensures
        r == clamp_coord(v as int),
{
    if v > POS_LIMIT {
        POS_LIMIT
    } else if v < -POS_LIMIT {
        -POS_LIMIT
    } else {
        v
    }
}

} // verus!
