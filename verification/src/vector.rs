//! Fixed-point vectors and colors: 2, 3 and 4 component forms.
//!
//! The 4-component form carries homogeneous coordinates; direction
//! operations (cross product, normalization) act on the x/y/z subset and
//! leave w untouched, as the data model asks.

use vstd::prelude::*;
use crate::fx::{
    fx_add, fx_add_spec, fx_clamp_spec, fx_div, fx_div_spec, fx_mul, fx_mul_spec, fx_neg,
    fx_neg_spec, fx_sub, fx_sub_spec, isqrt_u128, sqrt_floor,
};

verus! {

/// A texture coordinate or other planar point.
#[derive(Clone, Copy, Debug, PartialEq, Eq, Structural)]
pub struct Vector2 {
    pub x: i64,
    pub y: i64,
}

/// A point or direction in 3-space.
#[derive(Clone, Copy, Debug, PartialEq, Eq, Structural)]
pub struct Vector3 {
    pub x: i64,
    pub y: i64,
    pub z: i64,
}

/// An RGB color with nominal channel range `[0, 1]` in fixed point.
#[derive(Clone, Copy, Debug, PartialEq, Eq, Structural)]
pub struct Color3 {
    pub r: i64,
    pub g: i64,
    pub b: i64,
}

/// A homogeneous point or direction.
#[derive(Clone, Copy, Debug, PartialEq, Eq, Structural)]
pub struct Vector4 {
    pub x: i64,
    pub y: i64,
    pub z: i64,
    pub w: i64,
}

/// Fixed-point dot product of two 3-vectors.
pub open spec fn dot3_spec(a: Vector3, b: Vector3) -> int {
    fx_add_spec(
        fx_add_spec(fx_mul_spec(a.x as int, b.x as int), fx_mul_spec(a.y as int, b.y as int)),
        fx_mul_spec(a.z as int, b.z as int),
    )
}

/// Raw length of the (x, y, z) components: the integer square root of the
/// sum of squared raws, saturated to the `i64` range.
pub open spec fn norm3_spec(x: int, y: int, z: int) -> int {
    fx_clamp_spec(sqrt_floor(x * x + y * y + z * z))
}

/// A squared `i64` stays within half the `u128` range.
pub proof fn lemma_i64_square_bound(a: int)
    by (nonlinear_arith)
    requires
        i64::MIN as int <= a <= i64::MAX as int,
    ensures
        0 <= a * a,
        a * a <= 0x4000_0000_0000_0000_0000_0000_0000_0000,
{
}

/// Raw length of a 3-component direction, saturated to `i64`.
fn len3_raw(x: i64, y: i64, z: i64) -> (r: i64)
    ensures
        r as int == norm3_spec(x as int, y as int, z as int),
        r >= 0,
{
    proof {
        lemma_i64_square_bound(x as int);
        lemma_i64_square_bound(y as int);
        lemma_i64_square_bound(z as int);
    }
    let xx: u128 = ((x as i128) * (x as i128)) as u128;
    let yy: u128 = ((y as i128) * (y as i128)) as u128;
    let zz: u128 = ((z as i128) * (z as i128)) as u128;
    let s: u128 = xx + yy + zz;
    let l: u128 = isqrt_u128(s);
    if l > i64::MAX as u128 {
        i64::MAX
    } else {
        l as i64
    }
}

impl Vector2 {
    /// The origin of the plane.
    pub fn new() -> (r: Vector2)
        ensures
            r.x == 0 && r.y == 0,
    {
        Vector2 { x: 0, y: 0 }
    }

    /// A planar point from explicit raws.
    pub fn new_2(x: i64, y: i64) -> (r: Vector2)
        ensures
            r.x == x && r.y == y,
    {
        Vector2 { x, y }
    }
}

impl Vector3 {
    /// The zero vector.
    pub fn new() -> (r: Vector3)
        ensures
            r.x == 0 && r.y == 0 && r.z == 0,
    {
        Vector3 { x: 0, y: 0, z: 0 }
    }

    /// A 3-vector from explicit raws.
    pub fn new_3(x: i64, y: i64, z: i64) -> (r: Vector3)
        ensures
            r.x == x && r.y == y && r.z == z,
    {
        Vector3 { x, y, z }
    }

    /// Componentwise difference.
    pub fn sub(&self, o: &Vector3) -> (r: Vector3)
        ensures
            r.x as int == fx_sub_spec(self.x as int, o.x as int),
            r.y as int == fx_sub_spec(self.y as int, o.y as int),
            r.z as int == fx_sub_spec(self.z as int, o.z as int),
    {
        Vector3 { x: fx_sub(self.x, o.x), y: fx_sub(self.y, o.y), z: fx_sub(self.z, o.z) }
    }

    /// Dot product.
    pub fn dot(&self, o: &Vector3) -> (r: i64)
        ensures
            r as int == dot3_spec(*self, *o),
    {
        fx_add(fx_add(fx_mul(self.x, o.x), fx_mul(self.y, o.y)), fx_mul(self.z, o.z))
    }

    /// Cross product.
    pub fn cross(&self, o: &Vector3) -> (r: Vector3)
        ensures
            r.x as int == fx_sub_spec(
                fx_mul_spec(self.y as int, o.z as int),
                fx_mul_spec(self.z as int, o.y as int),
            ),
            r.y as int == fx_sub_spec(
                fx_mul_spec(self.z as int, o.x as int),
                fx_mul_spec(self.x as int, o.z as int),
            ),
            r.z as int == fx_sub_spec(
                fx_mul_spec(self.x as int, o.y as int),
                fx_mul_spec(self.y as int, o.x as int),
            ),
    {
        Vector3 {
            x: fx_sub(fx_mul(self.y, o.z), fx_mul(self.z, o.y)),
            y: fx_sub(fx_mul(self.z, o.x), fx_mul(self.x, o.z)),
            z: fx_sub(fx_mul(self.x, o.y), fx_mul(self.y, o.x)),
        }
    }

    /// Scale every component toward unit length.  A zero-length vector is
    /// left as zero (the silent degenerate case of the design).
    pub fn normalize(&mut self)
        ensures
            final(self).x as int == fx_div_spec(
                old(self).x as int,
                norm3_spec(old(self).x as int, old(self).y as int, old(self).z as int),
            ),
            final(self).y as int == fx_div_spec(
                old(self).y as int,
                norm3_spec(old(self).x as int, old(self).y as int, old(self).z as int),
            ),
            final(self).z as int == fx_div_spec(
                old(self).z as int,
                norm3_spec(old(self).x as int, old(self).y as int, old(self).z as int),
            ),
    {
        let l: i64 = len3_raw(self.x, self.y, self.z);
        self.x = fx_div(self.x, l);
        self.y = fx_div(self.y, l);
        self.z = fx_div(self.z, l);
    }
}

impl Color3 {
    /// Black.
    pub fn new() -> (r: Color3)
        ensures
            r.r == 0 && r.g == 0 && r.b == 0,
    {
        Color3 { r: 0, g: 0, b: 0 }
    }

    /// A color from explicit raws.
    pub fn new_3(r: i64, g: i64, b: i64) -> (c: Color3)
        ensures
            c.r == r && c.g == g && c.b == b,
    {
        Color3 { r, g, b }
    }
}

impl Vector4 {
    /// The zero vector.
    pub fn new() -> (r: Vector4)
        ensures
            r.x == 0 && r.y == 0 && r.z == 0 && r.w == 0,
    {
        Vector4 { x: 0, y: 0, z: 0, w: 0 }
    }

    /// A homogeneous point from explicit raws.
    pub fn new_4(x: i64, y: i64, z: i64, w: i64) -> (r: Vector4)
        ensures
            r.x == x && r.y == y && r.z == z && r.w == w,
    {
        Vector4 { x, y, z, w }
    }

    /// Componentwise difference, w included.
    pub fn sub(&self, o: &Vector4) -> (r: Vector4)
        ensures
            r.x as int == fx_sub_spec(self.x as int, o.x as int),
            r.y as int == fx_sub_spec(self.y as int, o.y as int),
            r.z as int == fx_sub_spec(self.z as int, o.z as int),
            r.w as int == fx_sub_spec(self.w as int, o.w as int),
    {
        Vector4 {
            x: fx_sub(self.x, o.x),
            y: fx_sub(self.y, o.y),
            z: fx_sub(self.z, o.z),
            w: fx_sub(self.w, o.w),
        }
    }

    /// Cross product of the x/y/z subsets; the result is a direction with
    /// w = 0.
    pub fn cross_product(&self, o: &Vector4) -> (r: Vector4)
        ensures
            r.x as int == fx_sub_spec(
                fx_mul_spec(self.y as int, o.z as int),
                fx_mul_spec(self.z as int, o.y as int),
            ),
            r.y as int == fx_sub_spec(
                fx_mul_spec(self.z as int, o.x as int),
                fx_mul_spec(self.x as int, o.z as int),
            ),
            r.z as int == fx_sub_spec(
                fx_mul_spec(self.x as int, o.y as int),
                fx_mul_spec(self.y as int, o.x as int),
            ),
            r.w == 0,
    {
        Vector4 {
            x: fx_sub(fx_mul(self.y, o.z), fx_mul(self.z, o.y)),
            y: fx_sub(fx_mul(self.z, o.x), fx_mul(self.x, o.z)),
            z: fx_sub(fx_mul(self.x, o.y), fx_mul(self.y, o.x)),
            w: 0,
        }
    }

    /// Scale x/y/z toward unit length, leaving w as it was.  A zero-length
    /// direction stays zero.
    pub fn normalize(&mut self)
        ensures
            final(self).x as int == fx_div_spec(
                old(self).x as int,
                norm3_spec(old(self).x as int, old(self).y as int, old(self).z as int),
            ),
            final(self).y as int == fx_div_spec(
                old(self).y as int,
                norm3_spec(old(self).x as int, old(self).y as int, old(self).z as int),
            ),
            final(self).z as int == fx_div_spec(
                old(self).z as int,
                norm3_spec(old(self).x as int, old(self).y as int, old(self).z as int),
            ),
            final(self).w == old(self).w,
    {
        let l: i64 = len3_raw(self.x, self.y, self.z);
        self.x = fx_div(self.x, l);
        self.y = fx_div(self.y, l);
        self.z = fx_div(self.z, l);
    }

    /// Negation of every component.
    pub fn neg(&self) -> (r: Vector4)
        ensures
            r.x as int == fx_neg_spec(self.x as int),
            r.y as int == fx_neg_spec(self.y as int),
            r.z as int == fx_neg_spec(self.z as int),
            r.w as int == fx_neg_spec(self.w as int),
    {
        Vector4 { x: fx_neg(self.x), y: fx_neg(self.y), z: fx_neg(self.z), w: fx_neg(self.w) }
    }
}

} // verus!
