//! Clamped integer arithmetic used throughout the engine: money moves in
//! signed 64-bit amounts that saturate at the numeric limits, and the
//! ticket and counter fields combine by saturating addition and
//! floor-at-zero subtraction.
use vstd::prelude::*;

verus! {

/// Clamps a mathematical integer into the `i64` range.
pub open spec fn clamp_i64(v: int) -> int {
    if v > i64::MAX as int {
        i64::MAX as int
    } else if v < i64::MIN as int {
        i64::MIN as int
    } else {
        v
    }
}

/// Mathematical saturating addition on the `i64` range.
pub open spec fn spec_sat_add_i64(a: int, b: int) -> int {
    clamp_i64(a + b)
}

/// Mathematical saturating subtraction on the `i64` range.
pub open spec fn spec_sat_sub_i64(a: int, b: int) -> int {
    clamp_i64(a - b)
}

/// Mathematical saturating addition on the `u32` range.
pub open spec fn spec_sat_add_u32(a: nat, b: nat) -> nat {
    if a + b > u32::MAX as nat {
        u32::MAX as nat
    } else {
        (a + b) as nat
    }
}

/// Floor-at-zero subtraction: never underflows.
pub open spec fn spec_sub_floor_u32(a: nat, b: nat) -> nat {
    if a < b {
        0
    } else {
        (a - b) as nat
    }
}

pub fn sat_add_i64(a: i64, b: i64) -> (r: i64)
    ensures
        r as int == spec_sat_add_i64(a as int, b as int),
{
    if b >= 0 {
        if a > i64::MAX - b {
            i64::MAX
        } else {
            a + b
        }
    } else {
        if a < i64::MIN - b {
            i64::MIN
        } else {
            a + b
        }
    }
}

pub fn sat_sub_i64(a: i64, b: i64) -> (r: i64)
    ensures
        r as int == spec_sat_sub_i64(a as int, b as int),
{
    if b <= 0 {
        if b < 0 && a > i64::MAX + b {
            i64::MAX
        } else {
            a - b
        }
    } else {
        if a < i64::MIN + b {
            i64::MIN
        } else {
            a - b
        }
    }
}

pub fn sat_add_u32(a: u32, b: u32) -> (r: u32)
    ensures
        r as nat == spec_sat_add_u32(a as nat, b as nat),
{
    if a > u32::MAX - b {
        u32::MAX
    } else {
        a + b
    }
}

pub fn sub_floor_u32(a: u32, b: u32) -> (r: u32)
    ensures
        r as nat == spec_sub_floor_u32(a as nat, b as nat),
{
    if a < b {
        0
    } else {
        a - b
    }
}


/// Mathematical saturating addition on the `usize` range.
pub open spec fn spec_sat_add_usize(a: int, b: int) -> int {
    if a + b > usize::MAX as int {
        usize::MAX as int
    } else {
        a + b
    }
}

pub fn sat_add_usize(a: usize, b: usize) -> (r: usize)
    ensures
        r as int == spec_sat_add_usize(a as int, b as int),
{
    if a > usize::MAX - b {
        usize::MAX
    } else {
        a + b
    }
}

/// Remainder with the sign of the dividend, as the `%` operator of the
/// executable code computes it.
pub open spec fn trunc_rem(x: int, n: int) -> int
    recommends
        n > 0,
{
    if x >= 0 {
        x % n
    } else {
        -((-x) % n)
    }
}

/// A tenth of an amount, rounded toward zero as the executable division
/// computes it.
pub open spec fn spec_div10(x: int) -> int {
    if x >= 0 {
        x / 10
    } else {
        -((-x) / 10)
    }
}

/// Mathematical saturating multiplication on the `i64` range.
pub open spec fn spec_sat_mul_i64(a: int, b: int) -> int {
    clamp_i64(a * b)
}

pub fn sat_mul_i64(a: i64, b: i64) -> (r: i64)
    ensures
        r as int == spec_sat_mul_i64(a as int, b as int),
{
    match a.checked_mul(b) {
        Some(v) => v,
        None => {
            proof {
                assert(a != 0 && b != 0) by (nonlinear_arith)
                    requires
                        !(i64::MIN <= a * b <= i64::MAX),
                ;
                assert((a > 0 && b > 0) || (a < 0 && b < 0) ==> a * b > 0) by (nonlinear_arith);
                assert((a > 0 && b < 0) || (a < 0 && b > 0) ==> a * b < 0) by (nonlinear_arith);
            }
            if (a > 0) == (b > 0) {
                i64::MAX
            } else {
                i64::MIN
            }
        },
    }
}

/// Rounds `x` to the nearest multiple of `n` (ties round away from zero
/// for non-negative `x`), clamped into the `i64` range. This is the
/// helper the engine exposes to rule scripts as round-to-nearest-100 000.
pub open spec fn spec_round_to(x: int, n: int) -> int
    recommends
        n > 0,
{
    let rem = trunc_rem(x, n);
    if 2 * rem >= n {
        clamp_i64(x - rem + n)
    } else {
        x - rem
    }
}

pub fn round_to(x: i64, n: i64) -> (r: i64)
    requires
        0 < n <= i64::MAX / 2,
    ensures
        r as int == spec_round_to(x as int, n as int),
{
    let rem = x % n;
    if rem >= n - rem {
        sat_add_i64(x - rem, n)
    } else {
        x - rem
    }
}

} // verus!
