//! Fixed-point arithmetic helpers.
//!
//! Every real quantity in this crate is an `i64` counting ten-millionths
//! (`1 == 0.000_000_1`), so `UNITS_PER_ONE` stands for `1.0`.
use vstd::prelude::*;

verus! {

/// The value that stands for `1.0`.
pub const UNITS_PER_ONE: i64 = 10_000_000;

/// Pi, rounded to the nearest ten-millionth.
pub const PI: i64 = 31_415_927;

/// Absolute value over the integers.
pub open spec fn abs_spec(x: int) -> int {
    if x < 0 {
        -x
    } else {
        x
    }
}

/// Division that rounds toward zero, as Rust's integer `/` does.
pub open spec fn div_toward_zero(n: int, d: int) -> int
    recommends
        d > 0,
{
    if n >= 0 {
        n / d
    } else {
        -((-n) / d)
    }
}

/// `x` limited to the range of `i64`.
pub open spec fn saturate_i64(x: int) -> int {
    if x > i64::MAX {
        i64::MAX as int
    } else if x < i64::MIN {
        i64::MIN as int
    } else {
        x
    }
}

/// `x` limited to `[-limit, limit]`.
pub open spec fn constrain_abs_spec(x: int, limit: int) -> int {
    if x > limit {
        limit
    } else if x < -limit {
        -limit
    } else {
        x
    }
}

/// Degrees to radians, both in fixed point, rounded toward zero.
pub open spec fn deg2rad_spec(deg: int) -> int {
    div_toward_zero(deg * PI, 180 * UNITS_PER_ONE)
}

/// Absolute value of a wide intermediate.
pub fn fabs(x: i128) -> (r: i128)
    requires
        x > i128::MIN,
    ensures
        r == abs_spec(x as int),
{
    if x < 0 {
        -x
    } else {
        x
    }
}

/// Symmetric saturation of `x` at magnitude `limit`.
pub fn constrain_abs(x: i128, limit: i128) -> (r: i128)
    requires
        limit >= 0,
    ensures
        r == constrain_abs_spec(x as int, limit as int),
        -limit <= r <= limit,
{
    if x > limit {
        limit
    } else if x < -limit {
        -limit
    } else {
        x
    }
}

/// Divides a wide intermediate by a positive divisor, rounding toward zero.
pub fn divide_toward_zero(n: i128, d: i128) -> (r: i128)
    requires
        d > 0,
        n > i128::MIN,
    ensures
        r == div_toward_zero(n as int, d as int),
{
    if n >= 0 {
        n / d
    } else {
        let m: i128 = -n;
        -(m / d)
    }
}

/// Narrows a wide intermediate to `i64`, saturating at the bounds.
pub fn saturating_to_i64(x: i128) -> (r: i64)
    ensures
        r == saturate_i64(x as int),
{
    if x > i64::MAX as i128 {
        i64::MAX
    } else if x < i64::MIN as i128 {
        i64::MIN
    } else {
        x as i64
    }
}

/// Converts an angle or rate in degrees to radians.
pub fn deg2rad(deg: i64) -> (r: i64)
    ensures
        r == deg2rad_spec(deg as int),
{
    let n: i128 = deg as i128 * PI as i128;
    let q: i128 = divide_toward_zero(n, 180 * UNITS_PER_ONE as i128);
    proof {
        let a: int = abs_spec(deg as int);
        let d: int = 180 * UNITS_PER_ONE;
        assert(0 <= abs_spec(n as int) <= a * d) by (nonlinear_arith)
            requires
                a == abs_spec(deg as int),
                n == deg * PI,
                d == 1_800_000_000,
        ;
        assert(abs_spec(n as int) / d <= a) by (nonlinear_arith)
            requires
                0 <= abs_spec(n as int) <= a * d,
                d > 0,
        ;
    }
    q as i64
}

} // verus!
