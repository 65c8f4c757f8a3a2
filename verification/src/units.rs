//! Fixed-point units shared by the whole simulation.
//!
//! Lengths, coordinates and scales are whole numbers of thousandths (`UNIT` per
//! world unit), speeds are thousandths per second, and time spans are whole
//! nanoseconds. Every rounding truncates toward zero, so that mirrored inputs
//! give mirrored results.

use vstd::prelude::*;

verus! {

/// Number of sub-units in one world unit (and in a scale factor of one).
pub const UNIT: i64 = 1000;

/// Nanoseconds in one second.
pub const NANOS_PER_SECOND: i64 = 1_000_000_000;

/// Largest magnitude of a coordinate or a size that the simulation accepts.
pub const COORD_LIMIT: i64 = 1_000_000_000_000;

/// Largest magnitude of a speed, an acceleration impulse or a jump force.
pub const SPEED_LIMIT: i64 = 1_000_000_000;

/// Longest tick, in nanoseconds, that the integrators accept.
pub const MAX_TICK_NANOS: u64 = 4_000_000_000;

/// Absolute value.
pub open spec fn magnitude(v: int) -> int {
    if v < 0 {
        -v
    } else {
        v
    }
}

/// Sign of a value: `-1`, `0` or `1`. Zero has the neutral sign `0`.
pub open spec fn sign(v: int) -> int {
    if v > 0 {
        1
    } else if v < 0 {
        -1
    } else {
        0
    }
}

/// Quotient rounded toward zero, for a positive divisor.
pub open spec fn truncated_quotient(a: int, b: int) -> int
    recommends
        b > 0,
{
    if a >= 0 {
        a / b
    } else {
        -((-a) / b)
    }
}

/// Distance covered in `dt` nanoseconds at `velocity` sub-units per second.
pub open spec fn displacement(velocity: int, dt: int) -> int {
    truncated_quotient(velocity * dt, NANOS_PER_SECOND as int)
}

/// Whether `v` lies in `[-limit, limit]`.
pub open spec fn within(v: int, limit: int) -> bool {
    -limit <= v <= limit
}

/// Computes `magnitude`.
pub fn abs_i64(v: i64) -> (r: i64)
    requires
        v > i64::MIN,
    ensures
        r == magnitude(v as int),
{
    if v < 0 {
        -v
    } else {
        v
    }
}

/// Computes `sign`.
pub fn sign_i64(v: i64) -> (r: i64)
    ensures
        r == sign(v as int),
{
    if v > 0 {
        1
    } else if v < 0 {
        -1
    } else {
        0
    }
}

/// Tests `within` on machine integers.
pub fn is_within(v: i64, limit: i64) -> (r: bool)
    requires
        limit >= 0,
    ensures
        r == within(v as int, limit as int),
{
    -limit <= v && v <= limit
}

/// Computes `displacement` for a speed of at most twice `SPEED_LIMIT` and a
/// tick of at most `MAX_TICK_NANOS`.
pub fn travel(velocity: i64, dt: u64) -> (d: i64)
    requires
        within(velocity as int, 2 * SPEED_LIMIT),
        dt <= MAX_TICK_NANOS,
    ensures
        d == displacement(velocity as int, dt as int),
        within(d as int, 8 * SPEED_LIMIT),
{
    let t: i64 = dt as i64;
    assert(-8_000_000_000_000_000_000 <= velocity * t <= 8_000_000_000_000_000_000)
        by (nonlinear_arith)
        requires
            -2_000_000_000 <= velocity <= 2_000_000_000,
            0 <= t <= 4_000_000_000,
    ;
    let product: i64 = velocity * t;
    product / NANOS_PER_SECOND
}

} // verus!
