//! Saturating Q-format fixed-point scalars.
//!
//! A quantity is stored as an `i64` counting `SCALE` raw units per 1.0.
//! Multiplication and division rescale through `i128` intermediates, round
//! toward zero (as hardware division does) and saturate at the `i64` range.
//! The spec functions `q_add`, `q_sub`, `q_neg`, `q_mul`, `q_div` give the
//! exact mathematical value of each executable operation.

use vstd::prelude::*;

verus! {

/// Raw units per 1.0. All scalar quantities of the engine (positions,
/// velocities, masses, times, compliances) are multiples of 1/SCALE.
pub const SCALE: i64 = 1_000_000;

/// Truncating quotient (round toward zero), the rounding of hardware `/`
/// on raw values. Spec `/` alone is Euclidean, which differs on negatives.
pub open spec fn tdiv(a: int, b: int) -> int
    recommends
        b != 0,
{
    if a >= 0 {
        a / b
    } else {
        -((-a) / b)
    }
}

/// Saturate an unbounded intermediate result into the `i64` raw range.
pub open spec fn sat(x: int) -> int {
    if x > i64::MAX as int {
        i64::MAX as int
    } else if x < i64::MIN as int {
        i64::MIN as int
    } else {
        x
    }
}

/// True when `x` needs no saturation.
pub open spec fn in_range(x: int) -> bool {
    i64::MIN as int <= x <= i64::MAX as int
}

/// Saturating raw addition.
pub open spec fn q_add(a: int, b: int) -> int {
    sat(a + b)
}

/// Saturating raw subtraction.
pub open spec fn q_sub(a: int, b: int) -> int {
    sat(a - b)
}

/// Saturating raw negation (only `i64::MIN` saturates).
pub open spec fn q_neg(a: int) -> int {
    sat(-a)
}

/// Fixed-point product: the raw values multiply to `SCALE` times the
/// mathematical product, so the result is rescaled by `SCALE`.
pub open spec fn q_mul(a: int, b: int) -> int {
    sat(tdiv(a * b, SCALE as int))
}

/// Fixed-point quotient: the dividend is pre-scaled by `SCALE` so that the
/// result is again in raw units.
pub open spec fn q_div(a: int, b: int) -> int
    recommends
        b != 0,
{
    sat(tdiv(a * (SCALE as int), b))
}

/// `r` is the floor of the square root of `n`.
pub open spec fn is_sqrt(n: int, r: int) -> bool {
    0 <= r && r * r <= n && n < (r + 1) * (r + 1)
}

/// The floor square root of a nonnegative integer.
pub open spec fn sqrt_floor(n: int) -> int
    recommends
        n >= 0,
{
    choose|r: int| is_sqrt(n, r)
}

/// The floor square root exists: `sqrt_floor` satisfies its predicate.
pub proof fn lemma_sqrt_exists(n: int)
    requires
        n >= 0,
    ensures
        is_sqrt(n, sqrt_floor(n)),
    decreases n,
{
    if n == 0 {
        assert(is_sqrt(0, 0));
    } else {
        lemma_sqrt_exists(n - 1);
        let r = sqrt_floor(n - 1);
        if (r + 1) * (r + 1) <= n {
            assert(is_sqrt(n, r + 1)) by (nonlinear_arith)
                requires
                    is_sqrt(n - 1, r),
                    (r + 1) * (r + 1) <= n,
            ;
        } else {
            assert(is_sqrt(n, r));
        }
    }
}

/// The floor square root is unique.
pub proof fn lemma_sqrt_unique(n: int, r: int)
    requires
        n >= 0,
        is_sqrt(n, r),
    ensures
        r == sqrt_floor(n),
{
    lemma_sqrt_exists(n);
    let s = sqrt_floor(n);
    assert(r == s) by (nonlinear_arith)
        requires
            is_sqrt(n, r),
            is_sqrt(n, s),
    ;
}

/// The floor square root of a perfect square.
pub proof fn lemma_sqrt_of_square(x: int)
    requires
        x >= 0,
    ensures
        sqrt_floor(x * x) == x,
{
    assert(is_sqrt(x * x, x)) by (nonlinear_arith)
        requires
            x >= 0,
    ;
    lemma_sqrt_unique(x * x, x);
}

/// Saturating narrowing of an `i128` intermediate into `i64`.
pub fn sat64(x: i128) -> (r: i64)
    ensures
        r as int == sat(x as int),
{
    if x > i64::MAX as i128 {
        i64::MAX
    } else if x < i64::MIN as i128 {
        i64::MIN
    } else {
        x as i64
    }
}

/// Saturating raw addition.
pub fn fx_add(a: i64, b: i64) -> (r: i64)
    ensures
        r as int == q_add(a as int, b as int),
{
    sat64((a as i128) + (b as i128))
}

/// Saturating raw subtraction.
pub fn fx_sub(a: i64, b: i64) -> (r: i64)
    ensures
        r as int == q_sub(a as int, b as int),
{
    sat64((a as i128) - (b as i128))
}

/// Saturating raw negation.
pub fn fx_neg(a: i64) -> (r: i64)
    ensures
        r as int == q_neg(a as int),
{
    sat64(-(a as i128))
}

/// Fixed-point multiplication, exact up to the final rescale and saturation.
pub fn fx_mul(a: i64, b: i64) -> (r: i64)
    ensures
        r as int == q_mul(a as int, b as int),
{
    let aw: i128 = a as i128;
    let bw: i128 = b as i128;
    proof {
        assert(-0x40000000000000000000000000000000 <= aw * bw
            <= 0x40000000000000000000000000000000) by (nonlinear_arith)
            requires
                -0x8000000000000000 <= aw <= 0x7fffffffffffffff,
                -0x8000000000000000 <= bw <= 0x7fffffffffffffff,
        ;
    }
    let p: i128 = aw * bw;
    sat64(p / (SCALE as i128))
}

/// Fixed-point division by a nonzero raw value.
pub fn fx_div(a: i64, b: i64) -> (r: i64)
    requires
        b != 0,
    ensures
        r as int == q_div(a as int, b as int),
{
    proof {
        vstd::arithmetic::mul::lemma_mul_inequality(a as int, 0x7fffffffffffffff, 1000000);
        vstd::arithmetic::mul::lemma_mul_inequality(-0x8000000000000000, a as int, 1000000);
    }
    let num: i128 = (a as i128) * (SCALE as i128);
    let q: i128 = num / (b as i128);
    proof {
        let ni = num as int;
        let bi = b as int;
        assert(ni == (a as int) * 1000000);
        assert(0x7fffffffffffffffint * 1000000 < 0x1000000000000000000000
            && (-0x8000000000000000int) * 1000000 > -0x1000000000000000000000)
            by (nonlinear_arith);
        assert(-0x1000000000000000000000 <= ni / bi <= 0x1000000000000000000000
            && -0x1000000000000000000000 <= -((-ni) / bi) <= 0x1000000000000000000000)
            by (nonlinear_arith)
            requires
                bi != 0,
                -0x1000000000000000000000 <= ni <= 0x1000000000000000000000,
        ;
        assert(q as int == tdiv(ni, bi));
    }
    sat64(q)
}

/// Floor square root of a `u128`, by binary search on the answer.
pub fn isqrt_u128(n: u128) -> (r: u64)
    ensures
        r as int == sqrt_floor(n as int),
        is_sqrt(n as int, r as int),
{
    let mut lo: u128 = 0;
    let mut hi: u128 = 0x10000000000000000;
    proof {
        assert((0x10000000000000000int) * (0x10000000000000000int)
            == 0x100000000000000000000000000000000int) by (nonlinear_arith);
    }
    while lo + 1 < hi
        invariant
            lo < hi <= 0x10000000000000000,
            (lo as int) * (lo as int) <= n as int,
            (n as int) < (hi as int) * (hi as int),
        decreases hi - lo,
    {
        let mid: u128 = lo + (hi - lo) / 2;
        proof {
            assert((mid as int) * (mid as int)
                <= 0xffffffffffffffffffffffffffffffffint) by (nonlinear_arith)
                requires
                    0 <= mid < 0x10000000000000000,
            ;
        }
        if mid * mid <= n {
            lo = mid;
        } else {
            hi = mid;
        }
    }
    proof {
        lemma_sqrt_unique(n as int, lo as int);
    }
    lo as u64
}

} // verus!
