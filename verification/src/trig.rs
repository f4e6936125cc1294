//! Fixed-point trigonometry on angles in degrees.
//!
//! Angles reduce to one turn, then to a quadrant and a reference angle in
//! `[0, 90)` degrees; the reference angle converts to radians and a short
//! alternating polynomial evaluates sine or cosine there.  The specs state
//! the computed value exactly; the polynomial approximates the real
//! functions to a few parts in ten thousand over the reduced range.

use vstd::prelude::*;
use crate::fx::{
    fx_add, fx_add_spec, fx_clamp_range, fx_clamp_range_spec, fx_div, fx_div_spec, fx_mul,
    fx_mul_spec, fx_neg, fx_neg_spec, fx_sub, fx_sub_spec, FX_ONE,
};

verus! {

/// Raw fixed-point value of one full turn, 360 degrees.
pub const FX_TURN: i64 = 23592960;

/// Raw fixed-point value of a quarter turn, 90 degrees.
pub const FX_QUARTER: i64 = 5898240;

/// Raw fixed-point radians per degree.
pub const FX_RAD_PER_DEG: i64 = 1144;

/// An angle in degrees reduced to `[0, 360)`, Euclidean style.
pub open spec fn deg_norm_spec(d: int) -> int {
    if d >= 0 {
        d % 23592960
    } else {
        let r = (-d) % 23592960;
        if r == 0 {
            0
        } else {
            23592960 - r
        }
    }
}

/// The sine polynomial `x - x^3/6 + x^5/120 - x^7/5040` on a reference
/// angle in radians.
pub open spec fn sin_poly_spec(x: int) -> int {
    let x2 = fx_mul_spec(x, x);
    let x3 = fx_mul_spec(x2, x);
    let x5 = fx_mul_spec(x3, x2);
    let x7 = fx_mul_spec(x5, x2);
    fx_sub_spec(
        fx_add_spec(fx_sub_spec(x, fx_div_spec(x3, 393216)), fx_div_spec(x5, 7864320)),
        fx_div_spec(x7, 330301440),
    )
}

/// The cosine polynomial `1 - x^2/2 + x^4/24 - x^6/720` on a reference
/// angle in radians.
pub open spec fn cos_poly_spec(x: int) -> int {
    let x2 = fx_mul_spec(x, x);
    let x4 = fx_mul_spec(x2, x2);
    let x6 = fx_mul_spec(x4, x2);
    fx_sub_spec(
        fx_add_spec(fx_sub_spec(65536, fx_div_spec(x2, 131072)), fx_div_spec(x4, 1572864)),
        fx_div_spec(x6, 47185920),
    )
}

/// Reference angle of a reduced degree value, in radians.
pub open spec fn ref_rad_spec(d: int) -> int {
    fx_mul_spec(deg_norm_spec(d) % 5898240, 1144)
}

/// Quadrant of a reduced degree value, in `{0, 1, 2, 3}`.
pub open spec fn quadrant_spec(d: int) -> int {
    deg_norm_spec(d) / 5898240
}

/// The fixed-point sine of an angle in degrees, clamped to `[-1, 1]`.
pub open spec fn sin_deg_spec(d: int) -> int {
    let q = quadrant_spec(d);
    let x = ref_rad_spec(d);
    let v = if q == 0 {
        sin_poly_spec(x)
    } else if q == 1 {
        cos_poly_spec(x)
    } else if q == 2 {
        fx_neg_spec(sin_poly_spec(x))
    } else {
        fx_neg_spec(cos_poly_spec(x))
    };
    fx_clamp_range_spec(v, -65536, 65536)
}

/// The fixed-point cosine of an angle in degrees, clamped to `[-1, 1]`.
pub open spec fn cos_deg_spec(d: int) -> int {
    let q = quadrant_spec(d);
    let x = ref_rad_spec(d);
    let v = if q == 0 {
        cos_poly_spec(x)
    } else if q == 1 {
        fx_neg_spec(sin_poly_spec(x))
    } else if q == 2 {
        fx_neg_spec(cos_poly_spec(x))
    } else {
        sin_poly_spec(x)
    };
    fx_clamp_range_spec(v, -65536, 65536)
}

/// The fixed-point tangent of an angle in degrees: sine over cosine, with
/// the silent zero result where the cosine underflows to zero.
pub open spec fn tan_deg_spec(d: int) -> int {
    fx_div_spec(sin_deg_spec(d), cos_deg_spec(d))
}

fn deg_norm(d: i64) -> (r: i64)
    ensures
        r as int == deg_norm_spec(d as int),
        0 <= r < 23592960,
{
    if d >= 0 {
        ((d as u64) % 23592960) as i64
    } else {
        let n: u64 = (-(d as i128)) as u64;
        let m: u64 = n % 23592960;
        if m == 0 {
            0
        } else {
            23592960 - (m as i64)
        }
    }
}

fn sin_poly(x: i64) -> (r: i64)
    ensures
        r as int == sin_poly_spec(x as int),
{
    let x2 = fx_mul(x, x);
    let x3 = fx_mul(x2, x);
    let x5 = fx_mul(x3, x2);
    let x7 = fx_mul(x5, x2);
    fx_sub(fx_add(fx_sub(x, fx_div(x3, 393216)), fx_div(x5, 7864320)), fx_div(x7, 330301440))
}

fn cos_poly(x: i64) -> (r: i64)
    ensures
        r as int == cos_poly_spec(x as int),
{
    let x2 = fx_mul(x, x);
    let x4 = fx_mul(x2, x2);
    let x6 = fx_mul(x4, x2);
    fx_sub(fx_add(fx_sub(65536, fx_div(x2, 131072)), fx_div(x4, 1572864)), fx_div(x6, 47185920))
}

/// The fixed-point sine of an angle in degrees.
pub fn sin_deg(d: i64) -> (r: i64)
    ensures
        r as int == sin_deg_spec(d as int),
        -65536 <= r <= 65536,
{
    let dm = deg_norm(d);
    let q: i64 = ((dm as u64) / 5898240) as i64;
    let rem: i64 = ((dm as u64) % 5898240) as i64;
    let x = fx_mul(rem, FX_RAD_PER_DEG);
    let v: i64 = if q == 0 {
        sin_poly(x)
    } else if q == 1 {
        cos_poly(x)
    } else if q == 2 {
        fx_neg(sin_poly(x))
    } else {
        fx_neg(cos_poly(x))
    };
    fx_clamp_range(v, -FX_ONE, FX_ONE)
}

/// The fixed-point cosine of an angle in degrees.
pub fn cos_deg(d: i64) -> (r: i64)
    ensures
        r as int == cos_deg_spec(d as int),
        -65536 <= r <= 65536,
{
    let dm = deg_norm(d);
    let q: i64 = ((dm as u64) / 5898240) as i64;
    let rem: i64 = ((dm as u64) % 5898240) as i64;
    let x = fx_mul(rem, FX_RAD_PER_DEG);
    let v: i64 = if q == 0 {
        cos_poly(x)
    } else if q == 1 {
        fx_neg(sin_poly(x))
    } else if q == 2 {
        fx_neg(cos_poly(x))
    } else {
        sin_poly(x)
    };
    fx_clamp_range(v, -FX_ONE, FX_ONE)
}

/// The fixed-point tangent of an angle in degrees.
pub fn tan_deg(d: i64) -> (r: i64)
    ensures
        r as int == tan_deg_spec(d as int),
{
    let s = sin_deg(d);
    let c = cos_deg(d);
    fx_div(s, c)
}

} // verus!
