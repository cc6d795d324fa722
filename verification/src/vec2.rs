//! 2-dimensional vectors over the fixed-point scalars.
//!
//! Componentwise arithmetic, dot and cross products, magnitude, and the
//! affine transformation used to map simulation space into view space. Each
//! executable operation is pinned to a spec function (`v_add`, `v_scale`,
//! `v_mag`, ...) giving its exact raw value.

use vstd::prelude::*;
use crate::fixed::{
    fx_add, fx_div, fx_mul, fx_neg, fx_sub, is_sqrt, isqrt_u128, q_add, q_div, q_mul, q_neg,
    q_sub, sat, sqrt_floor,
};

verus! {

/// A 2d euclidean vector of fixed-point coordinates.
#[derive(Clone, Copy, PartialEq, Eq, Structural, Debug)]
pub struct Vec2 {
    pub x: i64,
    pub y: i64,
}

/// The zero vector.
pub open spec fn v_zero() -> Vec2 {
    Vec2 { x: 0, y: 0 }
}

/// Componentwise saturating sum.
pub open spec fn v_add(a: Vec2, b: Vec2) -> Vec2 {
    Vec2 { x: q_add(a.x as int, b.x as int) as i64, y: q_add(a.y as int, b.y as int) as i64 }
}

/// Componentwise saturating difference.
pub open spec fn v_sub(a: Vec2, b: Vec2) -> Vec2 {
    Vec2 { x: q_sub(a.x as int, b.x as int) as i64, y: q_sub(a.y as int, b.y as int) as i64 }
}

/// Componentwise saturating negation.
pub open spec fn v_neg(a: Vec2) -> Vec2 {
    Vec2 { x: q_neg(a.x as int) as i64, y: q_neg(a.y as int) as i64 }
}

/// Both components scaled by the fixed-point scalar `s`.
pub open spec fn v_scale(a: Vec2, s: int) -> Vec2 {
    Vec2 { x: q_mul(a.x as int, s) as i64, y: q_mul(a.y as int, s) as i64 }
}

/// Both components divided by the nonzero fixed-point scalar `s`.
pub open spec fn v_divide(a: Vec2, s: int) -> Vec2
    recommends
        s != 0,
{
    Vec2 { x: q_div(a.x as int, s) as i64, y: q_div(a.y as int, s) as i64 }
}

/// Fixed-point dot product.
pub open spec fn v_dot(a: Vec2, b: Vec2) -> int {
    q_add(q_mul(a.x as int, b.x as int), q_mul(a.y as int, b.y as int))
}

/// Fixed-point cross product (the z component of the 3d cross).
pub open spec fn v_cross(a: Vec2, b: Vec2) -> int {
    q_sub(q_mul(a.x as int, b.y as int), q_mul(a.y as int, b.x as int))
}

/// The exact sum of the squared raw components (an unbounded integer).
pub open spec fn mag_sq(a: Vec2) -> int {
    (a.x as int) * (a.x as int) + (a.y as int) * (a.y as int)
}

/// Magnitude in raw units: because `SCALE * sqrt((x/SCALE)^2 + (y/SCALE)^2)`
/// equals `sqrt(x^2 + y^2)`, the raw magnitude is the floor square root of
/// the raw squares, saturated into `i64`.
pub open spec fn v_mag(a: Vec2) -> int {
    sat(sqrt_floor(mag_sq(a)))
}

/// `y = Ax + b` with a 2x2 fixed-point matrix `m` and translation `b`,
/// summed left to right.
pub open spec fn v_affine(a: Vec2, m: ((i64, i64), (i64, i64)), b: Vec2) -> Vec2 {
    Vec2 {
        x: q_add(q_add(q_mul(a.x as int, m.0.0 as int), q_mul(a.y as int, m.0.1 as int)),
            b.x as int) as i64,
        y: q_add(q_add(q_mul(a.x as int, m.1.0 as int), q_mul(a.y as int, m.1.1 as int)),
            b.y as int) as i64,
    }
}

/// Absolute value of a raw scalar, widened so that `i64::MIN` needs no care.
pub fn abs_raw(x: i64) -> (r: u64)
    ensures
        r as int == (if x >= 0 { x as int } else { -(x as int) }),
{
    if x >= 0 {
        x as u64
    } else if x == i64::MIN {
        0x8000000000000000u64
    } else {
        (-x) as u64
    }
}

impl Vec2 {
    /// Create a Vec2 using x and y components.
    pub fn new(x: i64, y: i64) -> (v: Vec2)
        ensures
            v == (Vec2 { x, y }),
    {
        Vec2 { x, y }
    }

    /// Returns a zero Vec2.
    pub fn zero() -> (v: Vec2)
        ensures
            v == v_zero(),
    {
        Vec2 { x: 0, y: 0 }
    }

    /// Componentwise saturating sum.
    pub fn add(self, rhs: Vec2) -> (v: Vec2)
        ensures
            v == v_add(self, rhs),
    {
        Vec2 { x: fx_add(self.x, rhs.x), y: fx_add(self.y, rhs.y) }
    }

    /// Componentwise saturating difference.
    pub fn sub(self, rhs: Vec2) -> (v: Vec2)
        ensures
            v == v_sub(self, rhs),
    {
        Vec2 { x: fx_sub(self.x, rhs.x), y: fx_sub(self.y, rhs.y) }
    }

    /// Componentwise saturating negation.
    pub fn neg(self) -> (v: Vec2)
        ensures
            v == v_neg(self),
    {
        Vec2 { x: fx_neg(self.x), y: fx_neg(self.y) }
    }

    /// Scale by a fixed-point scalar.
    pub fn scale(self, s: i64) -> (v: Vec2)
        ensures
            v == v_scale(self, s as int),
    {
        Vec2 { x: fx_mul(self.x, s), y: fx_mul(self.y, s) }
    }

    /// Divide by a nonzero fixed-point scalar.
    pub fn divide(self, s: i64) -> (v: Vec2)
        requires
            s != 0,
        ensures
            v == v_divide(self, s as int),
    {
        Vec2 { x: fx_div(self.x, s), y: fx_div(self.y, s) }
    }

    /// Dot product with another Vec2.
    pub fn dot(&self, other: &Vec2) -> (r: i64)
        ensures
            r as int == v_dot(*self, *other),
    {
        fx_add(fx_mul(self.x, other.x), fx_mul(self.y, other.y))
    }

    /// Cross product with another Vec2 (returns the z component).
    pub fn cross(&self, other: &Vec2) -> (r: i64)
        ensures
            r as int == v_cross(*self, *other),
    {
        fx_sub(fx_mul(self.x, other.y), fx_mul(self.y, other.x))
    }

    /// Returns the magnitude of the Vec2 in raw units.
    pub fn mag(&self) -> (r: i64)
        ensures
            r as int == v_mag(*self),
            r >= 0,
    {
        let ax = abs_raw(self.x);
        let ay = abs_raw(self.y);
        proof {
            assert((ax as int) * (ax as int) == (self.x as int) * (self.x as int)
                && (ax as int) * (ax as int) <= 0x40000000000000000000000000000000
                && (ay as int) * (ay as int) == (self.y as int) * (self.y as int)
                && (ay as int) * (ay as int) <= 0x40000000000000000000000000000000)
                by (nonlinear_arith)
                requires
                    ax as int == (if self.x >= 0 { self.x as int } else { -(self.x as int) }),
                    ay as int == (if self.y >= 0 { self.y as int } else { -(self.y as int) }),
                    ax <= 0x8000000000000000u64,
                    ay <= 0x8000000000000000u64,
            ;
        }
        let xx: u128 = (ax as u128) * (ax as u128);
        let yy: u128 = (ay as u128) * (ay as u128);
        let s: u128 = xx + yy;
        let r0: u64 = isqrt_u128(s);
        if r0 > i64::MAX as u64 {
            i64::MAX
        } else {
            r0 as i64
        }
    }

    /// Perform an affine transformation `y = Ax + b` on the Vec2.
    pub fn affine_transformation(&self, a: ((i64, i64), (i64, i64)), b: Vec2) -> (v: Vec2)
        ensures
            v == v_affine(*self, a, b),
    {
        Vec2 {
            x: fx_add(fx_add(fx_mul(self.x, (a.0).0), fx_mul(self.y, (a.0).1)), b.x),
            y: fx_add(fx_add(fx_mul(self.x, (a.1).0), fx_mul(self.y, (a.1).1)), b.y),
        }
    }
}

} // verus!
