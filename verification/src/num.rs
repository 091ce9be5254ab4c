//! Bounded integer arithmetic for the simulation.
//!
//! A velocity is scaled by a frame time through `v * dt / 1000` with the
//! quotient truncated toward zero, and every stored coordinate or
//! velocity component is clamped to a generous magnitude bound so that no
//! frame step can overflow, however long the run.

use vstd::arithmetic::div_mod::{lemma_div_is_ordered, lemma_div_multiples_vanish};
use vstd::arithmetic::mul::{
    lemma_mul_inequality, lemma_mul_nonnegative, lemma_mul_unary_negation, lemma_mul_upper_bound,
};
use vstd::prelude::*;

use crate::constants::{MAX_DT, POS_LIMIT, TIME_SCALE, VEL_LIMIT};

verus! {

/// Division truncated toward zero, for a positive divisor.
pub open spec fn tdiv(a: int, b: int) -> int {
    if a >= 0 {
        a / b
    } else {
        -((-a) / b)
    }
}

/// `x` pulled into `[-lim, lim]`.
pub open spec fn clamped(x: int, lim: int) -> int {
    if x < -lim {
        -lim
    } else if x > lim {
        lim
    } else {
        x
    }
}

/// The distance covered in `dt` milliseconds at velocity `v`.
pub open spec fn dt_scaled(v: int, dt: int) -> int {
    tdiv(v * dt, TIME_SCALE as int)
}

/// A coordinate advanced by `dt` milliseconds at velocity `v`.
pub open spec fn advanced(pos: int, v: int, dt: int) -> int {
    clamped(pos + dt_scaled(v, dt), POS_LIMIT as int)
}

/// A velocity component after adding `d`, kept under the terminal bound.
pub open spec fn vel_plus(v: int, d: int) -> int {
    clamped(v + d, VEL_LIMIT as int)
}

/// `v * num / den` truncated toward zero, for `num <= den`: the scaling
/// used both for `v * dt / 1000` and for the bounce damping factors.
pub fn mul_frac(v: i32, num: u32, den: u32) -> (r: i32)
    requires
        0 < den <= TIME_SCALE,
        num <= den,
        -VEL_LIMIT <= v <= VEL_LIMIT,
    ensures
        r == tdiv(v * num, den as int),
        v >= 0 ==> 0 <= r <= v,
        v < 0 ==> v <= r <= 0,
{
    if v >= 0 {
        proof {
            lemma_mul_nonnegative(v as int, num as int);
            lemma_mul_upper_bound(v as int, VEL_LIMIT as int, num as int, TIME_SCALE as int);
            lemma_mul_inequality(num as int, den as int, v as int);
            lemma_div_is_ordered(v * num, v * den, den as int);
            lemma_div_multiples_vanish(v as int, den as int);
        }
        let m: u64 = (v as u64) * (num as u64);
        let q: u64 = m / (den as u64);
        q as i32
    } else {
        proof {
            let vm = -(v as int);
            lemma_mul_unary_negation(v as int, num as int);
            lemma_mul_nonnegative(vm, num as int);
            lemma_mul_upper_bound(vm, VEL_LIMIT as int, num as int, TIME_SCALE as int);
            lemma_mul_inequality(num as int, den as int, vm);
            lemma_div_is_ordered(vm * num, vm * den, den as int);
            lemma_div_multiples_vanish(vm, den as int);
        }
        let vm: u64 = (-(v as i64)) as u64;
        let m: u64 = vm * (num as u64);
        let q: u64 = m / (den as u64);
        -(q as i32)
    }
}

/// `x` pulled into `[-lim, lim]`.
pub fn clamp_i64(x: i64, lim: i32) -> (r: i32)
    requires
        lim > 0,
    ensures
        r == clamped(x as int, lim as int),
{
    if x < -(lim as i64) {
        -lim
    } else if x > lim as i64 {
        lim
    } else {
        x as i32
    }
}

/// One integration step of a coordinate: `pos + v * dt / 1000`, clamped.
pub fn advance_pos(pos: i32, v: i32, dt: u32) -> (r: i32)
    requires
        -POS_LIMIT <= pos <= POS_LIMIT,
        -VEL_LIMIT <= v <= VEL_LIMIT,
        dt <= MAX_DT,
    ensures
        r == advanced(pos as int, v as int, dt as int),
        -POS_LIMIT <= r <= POS_LIMIT,
{
    let d = mul_frac(v, dt, TIME_SCALE);
    clamp_i64(pos as i64 + d as i64, POS_LIMIT)
}

/// A velocity component after adding `d`, kept under the terminal bound.
pub fn add_vel(v: i32, d: i32) -> (r: i32)
    requires
        -VEL_LIMIT <= v <= VEL_LIMIT,
        -VEL_LIMIT <= d <= VEL_LIMIT,
    ensures
        r == vel_plus(v as int, d as int),
        -VEL_LIMIT <= r <= VEL_LIMIT,
{
    clamp_i64(v as i64 + d as i64, VEL_LIMIT)
}

/// Whether the speed `(vx, vy)` strictly exceeds `threshold`, compared
/// on squares so that no root is taken.
pub fn speed_exceeds(vx: i32, vy: i32, threshold: i32) -> (b: bool)
    requires
        -VEL_LIMIT <= vx <= VEL_LIMIT,
        -VEL_LIMIT <= vy <= VEL_LIMIT,
        0 <= threshold <= VEL_LIMIT,
    ensures
        b == (vx * vx + vy * vy > threshold * threshold),
{
    proof {
        assert((vx * vx <= 1_000_000_000_000 && vx * vx >= 0) && (vy * vy
            <= 1_000_000_000_000 && vy * vy >= 0) && (threshold * threshold
            <= 1_000_000_000_000 && threshold * threshold >= 0)) by (nonlinear_arith)
            requires
                -1_000_000 <= vx <= 1_000_000,
                -1_000_000 <= vy <= 1_000_000,
                -1_000_000 <= threshold <= 1_000_000,
        ;
    }
    let x = vx as i64;
    let y = vy as i64;
    let t = threshold as i64;
    x * x + y * y > t * t
}

/// A countdown timer after `dt` milliseconds, stopping at zero.
pub fn timer_minus(t: u32, dt: u32) -> (r: u32)
    ensures
        r == if t >= dt {
            (t - dt) as int
        } else {
            0int
        },
{
    if t >= dt {
        t - dt
    } else {
        0
    }
}

} // verus!
