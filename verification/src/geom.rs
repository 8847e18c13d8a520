//! Fixed-point plane geometry.
//!
//! Positions, velocities and screen dimensions are integers in
//! thousandths of a pixel, so that per-frame motion and the radial
//! spawn layout stay exact integer arithmetic. Angles are integers in
//! thousandths of a degree; sine and cosine come from a rational
//! approximation scaled by 1000.

use vstd::prelude::*;

verus! {

/// A 2-D vector in thousandths of a pixel.
#[derive(Copy, Clone, Debug, PartialEq, Eq, Structural)]
pub struct Vec2 {
    pub x: i64,
    pub y: i64,
}

/// `a + b` clamped to the `i64` range.
pub open spec fn spec_sat_add(a: int, b: int) -> int {
    if a + b > i64::MAX {
        i64::MAX as int
    } else if a + b < i64::MIN {
        i64::MIN as int
    } else {
        a + b
    }
}

/// Saturating addition on coordinates.
pub fn sat_add(a: i64, b: i64) -> (r: i64)
    ensures
        r == spec_sat_add(a as int, b as int),
{
    if b >= 0 {
        if a > i64::MAX - b {
            i64::MAX
        } else {
            a + b
        }
    } else {
        if a < i64::MIN - b {
            i64::MIN
        } else {
            a + b
        }
    }
}

impl Vec2 {
    pub open spec fn spec_add(self, other: Vec2) -> Vec2 {
        Vec2 {
            x: spec_sat_add(self.x as int, other.x as int) as i64,
            y: spec_sat_add(self.y as int, other.y as int) as i64,
        }
    }

    /// Componentwise saturating addition; this is how a word's position
    /// advances by its velocity each frame.
    pub fn add(self, other: Vec2) -> (r: Vec2)
        ensures
            r == self.spec_add(other),
    {
        Vec2 { x: sat_add(self.x, other.x), y: sat_add(self.y, other.y) }
    }

    pub fn zero() -> (r: Vec2)
        ensures
            r.x == 0 && r.y == 0,
    {
        Vec2 { x: 0, y: 0 }
    }
}

/// Quotient of `a / b` rounded toward zero, for `b > 0`.
pub open spec fn spec_div_toward_zero(a: int, b: int) -> int {
    if a >= 0 {
        a / b
    } else {
        -((-a) / b)
    }
}

/// Division of a coordinate by a positive divisor, rounding toward zero.
pub fn div_toward_zero(a: i64, b: i64) -> (r: i64)
    requires
        b > 0,
        a > i64::MIN,
    ensures
        r == spec_div_toward_zero(a as int, b as int),
{
    if a >= 0 {
        let q: u64 = (a as u64) / (b as u64);
        proof {
            assert(q <= a as u64);
        }
        q as i64
    } else {
        let m: u64 = (-a) as u64;
        let q: u64 = m / (b as u64);
        proof {
            assert(q <= m);
        }
        -(q as i64)
    }
}

/// Sine of an angle given in thousandths of a degree, scaled by 1000,
/// by the rational approximation `4x(180 - x) / (40500 - x(180 - x))`
/// with `x` in degrees (exact at 0, 90 and 180 degrees).
pub open spec fn spec_sin_mdeg(a: int) -> int {
    4000 * (a * (180_000 - a)) / (40_500_000_000 - a * (180_000 - a))
}

/// Cosine of an angle in [0, 180] degrees, scaled by 1000: the sine
/// approximation shifted by a quarter turn.
pub open spec fn spec_cos_mdeg(a: int) -> int {
    if a <= 90_000 {
        spec_sin_mdeg(90_000 - a)
    } else {
        -spec_sin_mdeg(a - 90_000)
    }
}

pub fn sin_mdeg(a: u64) -> (r: u64)
    requires
        a <= 180_000,
    ensures
        r == spec_sin_mdeg(a as int),
        r <= 1000,
{
    proof {
        assert(a * (180_000 - a) <= 8_100_000_000) by (nonlinear_arith)
            requires
                a <= 180_000,
        ;
    }
    let p: u64 = a * (180_000 - a);
    let num: u64 = 4000 * p;
    let den: u64 = 40_500_000_000 - p;
    let r: u64 = num / den;
    proof {
        assert(num <= 1000 * den) by {
            assert(4000 * p <= 1000 * (40_500_000_000 - p)) by (nonlinear_arith)
                requires
                    p <= 8_100_000_000,
            ;
        }
        assert(r <= 1000) by (nonlinear_arith)
            requires
                num <= 1000 * den,
                den > 0,
                r == num as int / den as int,
        ;
    }
    r
}

pub fn cos_mdeg(a: u64) -> (r: i64)
    requires
        a <= 180_000,
    ensures
        r == spec_cos_mdeg(a as int),
        -1000 <= r <= 1000,
{
    if a <= 90_000 {
        sin_mdeg(90_000 - a) as i64
    } else {
        -(sin_mdeg(a - 90_000) as i64)
    }
}

/// `r * c / 1000` rounded toward zero: scales a radius (non-negative)
/// by a trigonometric value in [-1000, 1000].
pub open spec fn spec_scale_milli(r: int, c: int) -> int {
    spec_div_toward_zero(r * c, 1000)
}

pub fn scale_milli(r: i64, c: i64) -> (v: i64)
    requires
        0 <= r <= 0x1000_0000_0000,
        -1000 <= c <= 1000,
    ensures
        v == spec_scale_milli(r as int, c as int),
        -0x1000_0000_0000 <= v <= 0x1000_0000_0000,
{
    if c >= 0 {
        proof {
            assert(r * c <= 0x1000_0000_0000 * 1000) by (nonlinear_arith)
                requires
                    0 <= r <= 0x1000_0000_0000,
                    0 <= c <= 1000,
            ;
        }
        let m: u64 = (r as u64) * (c as u64);
        proof {
            assert(r * c / 1000 <= 0x1000_0000_0000) by (nonlinear_arith)
                requires
                    r * c <= 0x1000_0000_0000 * 1000,
                    0 <= r * c,
            ;
        }
        (m / 1000) as i64
    } else {
        proof {
            assert(r * (-c) <= 0x1000_0000_0000 * 1000) by (nonlinear_arith)
                requires
                    0 <= r <= 0x1000_0000_0000,
                    0 <= -c <= 1000,
            ;
        }
        let m: u64 = (r as u64) * ((-c) as u64);
        proof {
            assert(r * (-c) / 1000 <= 0x1000_0000_0000) by (nonlinear_arith)
                requires
                    r * (-c) <= 0x1000_0000_0000 * 1000,
                    0 <= r * (-c),
            ;
            assert(r * c == -(r * (-c))) by (nonlinear_arith);
        }
        -((m / 1000) as i64)
    }
}

} // verus!
