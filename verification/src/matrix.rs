//! Row-major 4x4 fixed-point matrices: construction, multiplication, and
//! application to homogeneous vectors.
//!
//! Composition order follows the `projection * view * model` convention:
//! matrices apply right-to-left.  The module also proves the transform
//! round-trip law: at exact (unrounded) precision, applying a composed
//! matrix equals applying its factors one after another.

use vstd::prelude::*;
use crate::fx::{fx_add, fx_add_spec, fx_mul, fx_mul_spec, FX_ONE};
use crate::vector::Vector4;

verus! {

/// A row-major 4x4 matrix of fixed-point raws.
#[derive(Clone, Copy, Debug, PartialEq, Eq, Structural)]
pub struct Mat4x4 {
    pub r0: Vector4,
    pub r1: Vector4,
    pub r2: Vector4,
    pub r3: Vector4,
}

/// Fixed-point dot product of two 4-vectors, with the saturation and
/// truncation of the scalar operations.
pub open spec fn dot4_spec(a: Vector4, b: Vector4) -> int {
    fx_add_spec(
        fx_add_spec(
            fx_add_spec(
                fx_mul_spec(a.x as int, b.x as int),
                fx_mul_spec(a.y as int, b.y as int),
            ),
            fx_mul_spec(a.z as int, b.z as int),
        ),
        fx_mul_spec(a.w as int, b.w as int),
    )
}

/// Column `0` of a matrix, as a vector.
pub open spec fn col0_spec(m: Mat4x4) -> Vector4 {
    Vector4 { x: m.r0.x, y: m.r1.x, z: m.r2.x, w: m.r3.x }
}

/// Column `1` of a matrix, as a vector.
pub open spec fn col1_spec(m: Mat4x4) -> Vector4 {
    Vector4 { x: m.r0.y, y: m.r1.y, z: m.r2.y, w: m.r3.y }
}

/// Column `2` of a matrix, as a vector.
pub open spec fn col2_spec(m: Mat4x4) -> Vector4 {
    Vector4 { x: m.r0.z, y: m.r1.z, z: m.r2.z, w: m.r3.z }
}

/// Column `3` of a matrix, as a vector.
pub open spec fn col3_spec(m: Mat4x4) -> Vector4 {
    Vector4 { x: m.r0.w, y: m.r1.w, z: m.r2.w, w: m.r3.w }
}

/// One row of the fixed-point product `a * b`: its four entries are dot
/// products of a row of `a` with the columns of `b`.
pub open spec fn mul_row_spec(row: Vector4, b: Mat4x4, r: Vector4) -> bool {
    &&& r.x as int == dot4_spec(row, col0_spec(b))
    &&& r.y as int == dot4_spec(row, col1_spec(b))
    &&& r.z as int == dot4_spec(row, col2_spec(b))
    &&& r.w as int == dot4_spec(row, col3_spec(b))
}

/// The whole fixed-point matrix product.
pub open spec fn mat_mul_spec(a: Mat4x4, b: Mat4x4, r: Mat4x4) -> bool {
    &&& mul_row_spec(a.r0, b, r.r0)
    &&& mul_row_spec(a.r1, b, r.r1)
    &&& mul_row_spec(a.r2, b, r.r2)
    &&& mul_row_spec(a.r3, b, r.r3)
}

/// The fixed-point homogeneous transform `m * v`.
pub open spec fn mat_apply_spec(m: Mat4x4, v: Vector4, r: Vector4) -> bool {
    &&& r.x as int == dot4_spec(m.r0, v)
    &&& r.y as int == dot4_spec(m.r1, v)
    &&& r.z as int == dot4_spec(m.r2, v)
    &&& r.w as int == dot4_spec(m.r3, v)
}

/// The identity matrix.
pub open spec fn ident_spec() -> Mat4x4 {
    Mat4x4 {
        r0: Vector4 { x: 65536, y: 0, z: 0, w: 0 },
        r1: Vector4 { x: 0, y: 65536, z: 0, w: 0 },
        r2: Vector4 { x: 0, y: 0, z: 65536, w: 0 },
        r3: Vector4 { x: 0, y: 0, z: 0, w: 65536 },
    }
}

/// The fixed-point product `a * b`, as a value.
pub open spec fn mul_val_spec(a: Mat4x4, b: Mat4x4) -> Mat4x4 {
    Mat4x4 {
        r0: Vector4 {
            x: dot4_spec(a.r0, col0_spec(b)) as i64,
            y: dot4_spec(a.r0, col1_spec(b)) as i64,
            z: dot4_spec(a.r0, col2_spec(b)) as i64,
            w: dot4_spec(a.r0, col3_spec(b)) as i64,
        },
        r1: Vector4 {
            x: dot4_spec(a.r1, col0_spec(b)) as i64,
            y: dot4_spec(a.r1, col1_spec(b)) as i64,
            z: dot4_spec(a.r1, col2_spec(b)) as i64,
            w: dot4_spec(a.r1, col3_spec(b)) as i64,
        },
        r2: Vector4 {
            x: dot4_spec(a.r2, col0_spec(b)) as i64,
            y: dot4_spec(a.r2, col1_spec(b)) as i64,
            z: dot4_spec(a.r2, col2_spec(b)) as i64,
            w: dot4_spec(a.r2, col3_spec(b)) as i64,
        },
        r3: Vector4 {
            x: dot4_spec(a.r3, col0_spec(b)) as i64,
            y: dot4_spec(a.r3, col1_spec(b)) as i64,
            z: dot4_spec(a.r3, col2_spec(b)) as i64,
            w: dot4_spec(a.r3, col3_spec(b)) as i64,
        },
    }
}

/// The fixed-point transform `m * v`, as a value.
pub open spec fn apply_val_spec(m: Mat4x4, v: Vector4) -> Vector4 {
    Vector4 {
        x: dot4_spec(m.r0, v) as i64,
        y: dot4_spec(m.r1, v) as i64,
        z: dot4_spec(m.r2, v) as i64,
        w: dot4_spec(m.r3, v) as i64,
    }
}

/// Fixed-point dot product of two 4-vectors.
pub fn dot4(a: &Vector4, b: &Vector4) -> (r: i64)
    ensures
        r as int == dot4_spec(*a, *b),
{
    fx_add(
        fx_add(fx_add(fx_mul(a.x, b.x), fx_mul(a.y, b.y)), fx_mul(a.z, b.z)),
        fx_mul(a.w, b.w),
    )
}

impl Mat4x4 {
    /// The identity transform.
    pub fn identity() -> (r: Mat4x4)
        ensures
            r == ident_spec(),
    {
        Mat4x4 {
            r0: Vector4 { x: FX_ONE, y: 0, z: 0, w: 0 },
            r1: Vector4 { x: 0, y: FX_ONE, z: 0, w: 0 },
            r2: Vector4 { x: 0, y: 0, z: FX_ONE, w: 0 },
            r3: Vector4 { x: 0, y: 0, z: 0, w: FX_ONE },
        }
    }

    /// A matrix from its four rows.
    pub fn new_val(r0: Vector4, r1: Vector4, r2: Vector4, r3: Vector4) -> (r: Mat4x4)
        ensures
            r.r0 == r0 && r.r1 == r1 && r.r2 == r2 && r.r3 == r3,
    {
        Mat4x4 { r0, r1, r2, r3 }
    }

    /// One column of the matrix, as a vector.
    fn col0(&self) -> (r: Vector4)
        ensures
            r == col0_spec(*self),
    {
        Vector4 { x: self.r0.x, y: self.r1.x, z: self.r2.x, w: self.r3.x }
    }

    fn col1(&self) -> (r: Vector4)
        ensures
            r == col1_spec(*self),
    {
        Vector4 { x: self.r0.y, y: self.r1.y, z: self.r2.y, w: self.r3.y }
    }

    fn col2(&self) -> (r: Vector4)
        ensures
            r == col2_spec(*self),
    {
        Vector4 { x: self.r0.z, y: self.r1.z, z: self.r2.z, w: self.r3.z }
    }

    fn col3(&self) -> (r: Vector4)
        ensures
            r == col3_spec(*self),
    {
        Vector4 { x: self.r0.w, y: self.r1.w, z: self.r2.w, w: self.r3.w }
    }

    /// Standard 4x4 composition: `self * o` applies `o` first, then `self`.
    pub fn mul(&self, o: &Mat4x4) -> (r: Mat4x4)
        ensures
            mat_mul_spec(*self, *o, r),
            r == mul_val_spec(*self, *o),
    {
        let c0 = o.col0();
        let c1 = o.col1();
        let c2 = o.col2();
        let c3 = o.col3();
        Mat4x4 {
            r0: Vector4 {
                x: dot4(&self.r0, &c0),
                y: dot4(&self.r0, &c1),
                z: dot4(&self.r0, &c2),
                w: dot4(&self.r0, &c3),
            },
            r1: Vector4 {
                x: dot4(&self.r1, &c0),
                y: dot4(&self.r1, &c1),
                z: dot4(&self.r1, &c2),
                w: dot4(&self.r1, &c3),
            },
            r2: Vector4 {
                x: dot4(&self.r2, &c0),
                y: dot4(&self.r2, &c1),
                z: dot4(&self.r2, &c2),
                w: dot4(&self.r2, &c3),
            },
            r3: Vector4 {
                x: dot4(&self.r3, &c0),
                y: dot4(&self.r3, &c1),
                z: dot4(&self.r3, &c2),
                w: dot4(&self.r3, &c3),
            },
        }
    }

    /// Homogeneous transform of a vector; no implicit perspective divide.
    pub fn apply(&self, v: &Vector4) -> (r: Vector4)
        ensures
            mat_apply_spec(*self, *v, r),
            r == apply_val_spec(*self, *v),
    {
        Vector4 {
            x: dot4(&self.r0, v),
            y: dot4(&self.r1, v),
            z: dot4(&self.r2, v),
            w: dot4(&self.r3, v),
        }
    }
}

/// A linear combination of four values, at exact (unrounded) precision.
pub open spec fn lin4(cx: int, cy: int, cz: int, cw: int, x: int, y: int, z: int, w: int) -> int {
    cx * x + cy * y + cz * z + cw * w
}

/// Dot product of a matrix row with a vector, at exact precision.
pub open spec fn dot4_exact(a: Vector4, b: Vector4) -> int {
    lin4(a.x as int, a.y as int, a.z as int, a.w as int, b.x as int, b.y as int, b.z as int,
        b.w as int)
}

/// Multiplying a four-term sum distributes, on either side.
proof fn lemma_distrib4(a: int, b: int, c: int, d: int, e: int)
    by (nonlinear_arith)
    ensures
        (a + b + c + d) * e == a * e + b * e + c * e + d * e,
        e * (a + b + c + d) == e * a + e * b + e * c + e * d,
{
}

/// Multiplication associates.
proof fn lemma_mul_assoc(a: int, b: int, c: int)
    by (nonlinear_arith)
    ensures
        (a * b) * c == a * (b * c),
{
}

/// Applying a matrix to a column of four exact values.
pub open spec fn apply4_exact(m: Mat4x4, t: (int, int, int, int)) -> (int, int, int, int) {
    (
        lin4(m.r0.x as int, m.r0.y as int, m.r0.z as int, m.r0.w as int, t.0, t.1, t.2, t.3),
        lin4(m.r1.x as int, m.r1.y as int, m.r1.z as int, m.r1.w as int, t.0, t.1, t.2, t.3),
        lin4(m.r2.x as int, m.r2.y as int, m.r2.z as int, m.r2.w as int, t.0, t.1, t.2, t.3),
        lin4(m.r3.x as int, m.r3.y as int, m.r3.z as int, m.r3.w as int, t.0, t.1, t.2, t.3),
    )
}

/// Applying the exact product `a * b` to a column of four exact values:
/// each component is the linear combination of the product's entries.
pub open spec fn mul_apply_exact(a: Mat4x4, b: Mat4x4, t: (int, int, int, int)) -> (
    int,
    int,
    int,
    int,
) {
    (
        lin4(
            dot4_exact(a.r0, col0_spec(b)),
            dot4_exact(a.r0, col1_spec(b)),
            dot4_exact(a.r0, col2_spec(b)),
            dot4_exact(a.r0, col3_spec(b)),
            t.0,
            t.1,
            t.2,
            t.3,
        ),
        lin4(
            dot4_exact(a.r1, col0_spec(b)),
            dot4_exact(a.r1, col1_spec(b)),
            dot4_exact(a.r1, col2_spec(b)),
            dot4_exact(a.r1, col3_spec(b)),
            t.0,
            t.1,
            t.2,
            t.3,
        ),
        lin4(
            dot4_exact(a.r2, col0_spec(b)),
            dot4_exact(a.r2, col1_spec(b)),
            dot4_exact(a.r2, col2_spec(b)),
            dot4_exact(a.r2, col3_spec(b)),
            t.0,
            t.1,
            t.2,
            t.3,
        ),
        lin4(
            dot4_exact(a.r3, col0_spec(b)),
            dot4_exact(a.r3, col1_spec(b)),
            dot4_exact(a.r3, col2_spec(b)),
            dot4_exact(a.r3, col3_spec(b)),
            t.0,
            t.1,
            t.2,
            t.3,
        ),
    )
}

/// The transform round-trip law, at exact (unrounded) precision: applying
/// a composed matrix to a vertex equals applying its right factor and then
/// its left factor.  Iterating this composition carries a vertex through
/// model, view and projection one after another with the same result as
/// the single precomputed combined matrix, and the viewport applies last
/// either way.
pub proof fn lemma_compose_apply_exact(a: Mat4x4, b: Mat4x4, t: (int, int, int, int))
    ensures
        mul_apply_exact(a, b, t) == apply4_exact(a, apply4_exact(b, t)),
{
    lemma_compose_general(a.r0, b, t);
    lemma_compose_general(a.r1, b, t);
    lemma_compose_general(a.r2, b, t);
    lemma_compose_general(a.r3, b, t);
}

/// One component of the round trip, for one row.
proof fn lemma_compose_general(row: Vector4, b: Mat4x4, t: (int, int, int, int))
    ensures
        lin4(
            dot4_exact(row, col0_spec(b)),
            dot4_exact(row, col1_spec(b)),
            dot4_exact(row, col2_spec(b)),
            dot4_exact(row, col3_spec(b)),
            t.0,
            t.1,
            t.2,
            t.3,
        ) == lin4(
            row.x as int,
            row.y as int,
            row.z as int,
            row.w as int,
            lin4(b.r0.x as int, b.r0.y as int, b.r0.z as int, b.r0.w as int, t.0, t.1, t.2, t.3),
            lin4(b.r1.x as int, b.r1.y as int, b.r1.z as int, b.r1.w as int, t.0, t.1, t.2, t.3),
            lin4(b.r2.x as int, b.r2.y as int, b.r2.z as int, b.r2.w as int, t.0, t.1, t.2, t.3),
            lin4(b.r3.x as int, b.r3.y as int, b.r3.z as int, b.r3.w as int, t.0, t.1, t.2, t.3),
        ),
{
    let rx = row.x as int;
    let ry = row.y as int;
    let rz = row.z as int;
    let rw = row.w as int;
    let vx = t.0;
    let vy = t.1;
    let vz = t.2;
    let vw = t.3;
    let b00 = b.r0.x as int;
    let b01 = b.r0.y as int;
    let b02 = b.r0.z as int;
    let b03 = b.r0.w as int;
    let b10 = b.r1.x as int;
    let b11 = b.r1.y as int;
    let b12 = b.r1.z as int;
    let b13 = b.r1.w as int;
    let b20 = b.r2.x as int;
    let b21 = b.r2.y as int;
    let b22 = b.r2.z as int;
    let b23 = b.r2.w as int;
    let b30 = b.r3.x as int;
    let b31 = b.r3.y as int;
    let b32 = b.r3.z as int;
    let b33 = b.r3.w as int;
    lemma_distrib4(rx * b00, ry * b10, rz * b20, rw * b30, vx);
    lemma_distrib4(rx * b01, ry * b11, rz * b21, rw * b31, vy);
    lemma_distrib4(rx * b02, ry * b12, rz * b22, rw * b32, vz);
    lemma_distrib4(rx * b03, ry * b13, rz * b23, rw * b33, vw);
    lemma_distrib4(b00 * vx, b01 * vy, b02 * vz, b03 * vw, rx);
    lemma_distrib4(b10 * vx, b11 * vy, b12 * vz, b13 * vw, ry);
    lemma_distrib4(b20 * vx, b21 * vy, b22 * vz, b23 * vw, rz);
    lemma_distrib4(b30 * vx, b31 * vy, b32 * vz, b33 * vw, rw);
    lemma_mul_assoc(rx, b00, vx);
    lemma_mul_assoc(rx, b01, vy);
    lemma_mul_assoc(rx, b02, vz);
    lemma_mul_assoc(rx, b03, vw);
    lemma_mul_assoc(ry, b10, vx);
    lemma_mul_assoc(ry, b11, vy);
    lemma_mul_assoc(ry, b12, vz);
    lemma_mul_assoc(ry, b13, vw);
    lemma_mul_assoc(rz, b20, vx);
    lemma_mul_assoc(rz, b21, vy);
    lemma_mul_assoc(rz, b22, vz);
    lemma_mul_assoc(rz, b23, vw);
    lemma_mul_assoc(rw, b30, vx);
    lemma_mul_assoc(rw, b31, vy);
    lemma_mul_assoc(rw, b32, vz);
    lemma_mul_assoc(rw, b33, vw);
}

} // verus!
