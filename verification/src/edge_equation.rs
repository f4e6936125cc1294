//! The edge-equation fill engine: bounding box, inside test with an
//! exclusive top-left tie-break on shared edges, barycentric weights,
//! perspective-correct interpolation, z-test, texture sampling and
//! per-pixel Phong lighting.
//!
//! The contract of [`draw_trangle_edge_equation`] describes the whole
//! frame-buffer and z-buffer contents pixel by pixel: a pixel is written
//! exactly when it is covered by the triangle and its interpolated depth
//! passes the z-test against the buffer, and then it carries exactly the
//! shaded color and the interpolated depth; every other pixel is untouched.
//! "Nearer" compares as numerically larger (view-space depths are
//! negative), and an equal depth passes, so of two coincident samples the
//! later one wins.

use vstd::prelude::*;
use crate::fx::{
    fx_add, fx_add_spec, fx_ceil, fx_ceil_spec, fx_clamp_range, fx_clamp_range_spec, fx_div,
    fx_div_spec, fx_floor, fx_floor_spec, fx_max, fx_max_spec, fx_min, fx_min_spec, fx_mul,
    fx_mul_spec, fx_neg, fx_neg_spec, fx_sub, fx_sub_spec, FX_ONE,
};
use crate::light::Light;
use crate::rasterizer::{Rasterizer, RenderResult};
use crate::texture::Texture;
use crate::triangle::{uses_light, uses_texture, Triangle};
use crate::vector::{Color3, Vector3, Vector4};

verus! {

/// The ambient coefficient of the Phong model, about a tenth.
pub const FX_AMBIENT: i64 = 6554;

/// The fixed-point coordinate of a pixel center: the pixel index plus one
/// half.
pub open spec fn pix_center_spec(p: int) -> int {
    65536 * p + 32768
}

/// The edge function of the directed edge from `a` to `b`, evaluated at a
/// sample point: zero on the edge, consistently signed on each side.
pub open spec fn edge_spec(a: Vector4, b: Vector4, cx: int, cy: int) -> int {
    fx_sub_spec(
        fx_mul_spec(fx_sub_spec(b.x as int, a.x as int), fx_sub_spec(cy, a.y as int)),
        fx_mul_spec(fx_sub_spec(b.y as int, a.y as int), fx_sub_spec(cx, a.x as int)),
    )
}

/// Edge value opposite vertex 2, at the center of pixel (px, py).
pub open spec fn e01_spec(t: Triangle, px: int, py: int) -> int {
    edge_spec(t.vertexs@[0], t.vertexs@[1], pix_center_spec(px), pix_center_spec(py))
}

/// Edge value opposite vertex 0.
pub open spec fn e12_spec(t: Triangle, px: int, py: int) -> int {
    edge_spec(t.vertexs@[1], t.vertexs@[2], pix_center_spec(px), pix_center_spec(py))
}

/// Edge value opposite vertex 1.
pub open spec fn e20_spec(t: Triangle, px: int, py: int) -> int {
    edge_spec(t.vertexs@[2], t.vertexs@[0], pix_center_spec(px), pix_center_spec(py))
}

/// Twice the signed area of the triangle, as the sum of the three edge
/// values at one sample point.
pub open spec fn area2_spec(t: Triangle, px: int, py: int) -> int {
    fx_add_spec(fx_add_spec(e01_spec(t, px, py), e12_spec(t, px, py)), e20_spec(t, px, py))
}

/// The horizontal and vertical raw extent of a directed edge.
pub open spec fn edge_dx_spec(a: Vector4, b: Vector4) -> int {
    fx_sub_spec(b.x as int, a.x as int)
}

pub open spec fn edge_dy_spec(a: Vector4, b: Vector4) -> int {
    fx_sub_spec(b.y as int, a.y as int)
}

/// The top-left tie-break on a sample lying exactly on an edge, for the
/// orientation whose interior lies on the edge's positive side: the edge
/// admits the sample exactly when it is a left edge (descending in the
/// y-down screen) or a top edge (horizontal, interior below it).
pub open spec fn edge_admits_zero_spec(dx: int, dy: int) -> bool {
    dy < 0 || (dy == 0 && dx > 0)
}

/// One edge's inside test: strictly on the interior side, or exactly on
/// the edge and admitted by the top-left tie-break.  For a triangle whose
/// signed area is negative the interior lies on the negative side and the
/// tie-break reads the reversed direction, so the rule is the same rule
/// seen from the interior.
pub open spec fn edge_inside_spec(a: Vector4, b: Vector4, e: int, pos: bool) -> bool {
    if pos {
        e > 0 || (e == 0 && edge_admits_zero_spec(edge_dx_spec(a, b), edge_dy_spec(a, b)))
    } else {
        e < 0 || (e == 0 && edge_admits_zero_spec(
            fx_neg_spec(edge_dx_spec(a, b)),
            fx_neg_spec(edge_dy_spec(a, b)),
        ))
    }
}

/// The inside test: every edge holds the sample strictly on the interior
/// side, or exactly on itself with the top-left tie-break admitting it.
/// Two adjacent triangles under the same convention traverse their shared
/// edge in opposite directions, so a sample exactly on that edge is
/// admitted by exactly one of them (see [`lemma_tie_break_exclusive`]).
pub open spec fn edges_admit_spec(t: Triangle, px: int, py: int) -> bool {
    let pos = area2_spec(t, px, py) > 0;
    &&& edge_inside_spec(t.vertexs@[0], t.vertexs@[1], e01_spec(t, px, py), pos)
    &&& edge_inside_spec(t.vertexs@[1], t.vertexs@[2], e12_spec(t, px, py), pos)
    &&& edge_inside_spec(t.vertexs@[2], t.vertexs@[0], e20_spec(t, px, py), pos)
}

/// The tie-break is exclusive: of the two orientations of a non-degenerate
/// edge, exactly one admits a sample lying exactly on it — never both and
/// never neither.
pub proof fn lemma_tie_break_exclusive(dx: int, dy: int)
    requires
        dx != 0 || dy != 0,
    ensures
        edge_admits_zero_spec(dx, dy) <==> !edge_admits_zero_spec(-dx, -dy),
{
}

/// First candidate column of the clamped bounding box.
pub open spec fn bbox_x_lo_spec(t: Triangle) -> int {
    fx_floor_spec(
        fx_max_spec(
            fx_min_spec(
                fx_min_spec(t.vertexs@[0].x as int, t.vertexs@[1].x as int),
                t.vertexs@[2].x as int,
            ),
            0,
        ),
    )
}

/// Last candidate column of the clamped bounding box.
pub open spec fn bbox_x_hi_spec(t: Triangle, w: int) -> int {
    fx_min_spec(
        fx_ceil_spec(
            fx_max_spec(
                fx_max_spec(t.vertexs@[0].x as int, t.vertexs@[1].x as int),
                t.vertexs@[2].x as int,
            ),
        ),
        w - 1,
    )
}

/// First candidate row of the clamped bounding box.
pub open spec fn bbox_y_lo_spec(t: Triangle) -> int {
    fx_floor_spec(
        fx_max_spec(
            fx_min_spec(
                fx_min_spec(t.vertexs@[0].y as int, t.vertexs@[1].y as int),
                t.vertexs@[2].y as int,
            ),
            0,
        ),
    )
}

/// Last candidate row of the clamped bounding box.
pub open spec fn bbox_y_hi_spec(t: Triangle, h: int) -> int {
    fx_min_spec(
        fx_ceil_spec(
            fx_max_spec(
                fx_max_spec(t.vertexs@[0].y as int, t.vertexs@[1].y as int),
                t.vertexs@[2].y as int,
            ),
        ),
        h - 1,
    )
}

/// A pixel is covered when it lies in the clamped bounding box, the
/// triangle is not degenerate at its sample, and every edge admits its
/// sample under the tie-break rule.
#[verifier::opaque]
pub open spec fn covered_spec(t: Triangle, w: int, h: int, px: int, py: int) -> bool {
    &&& bbox_x_lo_spec(t) <= px <= bbox_x_hi_spec(t, w)
    &&& bbox_y_lo_spec(t) <= py <= bbox_y_hi_spec(t, h)
    &&& area2_spec(t, px, py) != 0
    &&& edges_admit_spec(t, px, py)
}

/// Screen-space barycentric weight of vertex 0 at a pixel.
pub open spec fn bary0_spec(t: Triangle, px: int, py: int) -> int {
    fx_div_spec(e12_spec(t, px, py), area2_spec(t, px, py))
}

/// Screen-space barycentric weight of vertex 1.
pub open spec fn bary1_spec(t: Triangle, px: int, py: int) -> int {
    fx_div_spec(e20_spec(t, px, py), area2_spec(t, px, py))
}

/// Screen-space barycentric weight of vertex 2.
pub open spec fn bary2_spec(t: Triangle, px: int, py: int) -> int {
    fx_div_spec(e01_spec(t, px, py), area2_spec(t, px, py))
}

/// The barycentric blend of the vertices' reciprocal view-space depths.
pub open spec fn rz_denom_spec(t: Triangle, px: int, py: int) -> int {
    let rz0 = fx_div_spec(65536, t.tvertexs@[0].z as int);
    let rz1 = fx_div_spec(65536, t.tvertexs@[1].z as int);
    let rz2 = fx_div_spec(65536, t.tvertexs@[2].z as int);
    fx_add_spec(
        fx_add_spec(
            fx_mul_spec(bary0_spec(t, px, py), rz0),
            fx_mul_spec(bary1_spec(t, px, py), rz1),
        ),
        fx_mul_spec(bary2_spec(t, px, py), rz2),
    )
}

/// The perspective-correct interpolated view-space depth: the reciprocal
/// of the barycentric blend of the vertices' reciprocal depths.
#[verifier::opaque]
pub open spec fn depth_spec(t: Triangle, px: int, py: int) -> int {
    fx_div_spec(65536, rz_denom_spec(t, px, py))
}

/// Perspective-corrected weight of vertex 0: the screen weight over the
/// vertex depth, rescaled by the interpolated depth.  When the reciprocal
/// depth blend degenerates to zero the screen weight stands in, so flat
/// geometry without depth data still interpolates.
pub open spec fn cw0_spec(t: Triangle, px: int, py: int) -> int {
    if rz_denom_spec(t, px, py) == 0 {
        bary0_spec(t, px, py)
    } else {
        fx_mul_spec(
            fx_div_spec(bary0_spec(t, px, py), t.tvertexs@[0].z as int),
            depth_spec(t, px, py),
        )
    }
}

/// Perspective-corrected weight of vertex 1.
pub open spec fn cw1_spec(t: Triangle, px: int, py: int) -> int {
    if rz_denom_spec(t, px, py) == 0 {
        bary1_spec(t, px, py)
    } else {
        fx_mul_spec(
            fx_div_spec(bary1_spec(t, px, py), t.tvertexs@[1].z as int),
            depth_spec(t, px, py),
        )
    }
}

/// Perspective-corrected weight of vertex 2.
pub open spec fn cw2_spec(t: Triangle, px: int, py: int) -> int {
    if rz_denom_spec(t, px, py) == 0 {
        bary2_spec(t, px, py)
    } else {
        fx_mul_spec(
            fx_div_spec(bary2_spec(t, px, py), t.tvertexs@[2].z as int),
            depth_spec(t, px, py),
        )
    }
}

/// A three-way blend with the given weights.
pub open spec fn interp3_spec(c0: int, c1: int, c2: int, a0: int, a1: int, a2: int) -> int {
    fx_add_spec(
        fx_add_spec(fx_mul_spec(c0, a0), fx_mul_spec(c1, a1)),
        fx_mul_spec(c2, a2),
    )
}

/// Fixed-point dot product over raw components.
pub open spec fn dot3i_spec(ax: int, ay: int, az: int, bx: int, by: int, bz: int) -> int {
    fx_add_spec(
        fx_add_spec(fx_mul_spec(ax, bx), fx_mul_spec(ay, by)),
        fx_mul_spec(az, bz),
    )
}

/// The perspective-correct interpolated texture coordinate.
pub open spec fn interp_uv_spec(t: Triangle, px: int, py: int) -> (int, int) {
    let c0 = cw0_spec(t, px, py);
    let c1 = cw1_spec(t, px, py);
    let c2 = cw2_spec(t, px, py);
    (
        interp3_spec(
            c0,
            c1,
            c2,
            t.tex_coords@[0].x as int,
            t.tex_coords@[1].x as int,
            t.tex_coords@[2].x as int,
        ),
        interp3_spec(
            c0,
            c1,
            c2,
            t.tex_coords@[0].y as int,
            t.tex_coords@[1].y as int,
            t.tex_coords@[2].y as int,
        ),
    )
}

/// The perspective-correct interpolated view-space position.
pub open spec fn interp_pos_spec(t: Triangle, px: int, py: int) -> (int, int, int) {
    let c0 = cw0_spec(t, px, py);
    let c1 = cw1_spec(t, px, py);
    let c2 = cw2_spec(t, px, py);
    (
        interp3_spec(
            c0,
            c1,
            c2,
            t.tvertexs@[0].x as int,
            t.tvertexs@[1].x as int,
            t.tvertexs@[2].x as int,
        ),
        interp3_spec(
            c0,
            c1,
            c2,
            t.tvertexs@[0].y as int,
            t.tvertexs@[1].y as int,
            t.tvertexs@[2].y as int,
        ),
        interp3_spec(
            c0,
            c1,
            c2,
            t.tvertexs@[0].z as int,
            t.tvertexs@[1].z as int,
            t.tvertexs@[2].z as int,
        ),
    )
}

/// The unit face normal of the triangle in view space, from the cross
/// product of two view-space edges.
pub open spec fn face_normal_spec(t: Triangle) -> (int, int, int) {
    let e1x = fx_sub_spec(t.tvertexs@[1].x as int, t.tvertexs@[0].x as int);
    let e1y = fx_sub_spec(t.tvertexs@[1].y as int, t.tvertexs@[0].y as int);
    let e1z = fx_sub_spec(t.tvertexs@[1].z as int, t.tvertexs@[0].z as int);
    let e2x = fx_sub_spec(t.tvertexs@[2].x as int, t.tvertexs@[0].x as int);
    let e2y = fx_sub_spec(t.tvertexs@[2].y as int, t.tvertexs@[0].y as int);
    let e2z = fx_sub_spec(t.tvertexs@[2].z as int, t.tvertexs@[0].z as int);
    let cx = fx_sub_spec(fx_mul_spec(e1y, e2z), fx_mul_spec(e1z, e2y));
    let cy = fx_sub_spec(fx_mul_spec(e1z, e2x), fx_mul_spec(e1x, e2z));
    let cz = fx_sub_spec(fx_mul_spec(e1x, e2y), fx_mul_spec(e1y, e2x));
    let n = crate::vector::norm3_spec(cx, cy, cz);
    (fx_div_spec(cx, n), fx_div_spec(cy, n), fx_div_spec(cz, n))
}

/// The base material color of a pixel: the sampled texture color in a
/// textured mode, else the interpolated vertex color.  One texture is
/// bound per draw call: the first entry of the texture list is the bound
/// one, and an empty list falls back to white.
pub open spec fn base_color_spec(t: Triangle, textures: Seq<Texture>, px: int, py: int) -> Color3 {
    if uses_texture(t.render_type) {
        if textures.len() > 0 && textures[0].wf() {
            let uv = interp_uv_spec(t, px, py);
            textures[0].sample_spec(uv.0, uv.1)
        } else {
            Color3 { r: 65536, g: 65536, b: 65536 }
        }
    } else {
        let c0 = cw0_spec(t, px, py);
        let c1 = cw1_spec(t, px, py);
        let c2 = cw2_spec(t, px, py);
        Color3 {
            r: interp3_spec(
                c0,
                c1,
                c2,
                t.colors@[0].r as int,
                t.colors@[1].r as int,
                t.colors@[2].r as int,
            ) as i64,
            g: interp3_spec(
                c0,
                c1,
                c2,
                t.colors@[0].g as int,
                t.colors@[1].g as int,
                t.colors@[2].g as int,
            ) as i64,
            b: interp3_spec(
                c0,
                c1,
                c2,
                t.colors@[0].b as int,
                t.colors@[1].b as int,
                t.colors@[2].b as int,
            ) as i64,
        }
    }
}

/// One light's Phong contribution at a shaded point: diffuse
/// `max(0, N.L)` and specular `max(0, R.V)^8`, both against the light's
/// intensity.
pub open spec fn phong_light_spec(
    light: Light,
    nrm: (int, int, int),
    pos: (int, int, int),
    eye: Vector3,
    base: Color3,
) -> (int, int, int) {
    let lx0 = fx_sub_spec(light.position.x as int, pos.0);
    let ly0 = fx_sub_spec(light.position.y as int, pos.1);
    let lz0 = fx_sub_spec(light.position.z as int, pos.2);
    let ln = crate::vector::norm3_spec(lx0, ly0, lz0);
    let lx = fx_div_spec(lx0, ln);
    let ly = fx_div_spec(ly0, ln);
    let lz = fx_div_spec(lz0, ln);
    let ndl = fx_max_spec(0, dot3i_spec(nrm.0, nrm.1, nrm.2, lx, ly, lz));
    let two_ndl = fx_mul_spec(131072, ndl);
    let rx = fx_sub_spec(fx_mul_spec(two_ndl, nrm.0), lx);
    let ry = fx_sub_spec(fx_mul_spec(two_ndl, nrm.1), ly);
    let rz = fx_sub_spec(fx_mul_spec(two_ndl, nrm.2), lz);
    let vx0 = fx_sub_spec(eye.x as int, pos.0);
    let vy0 = fx_sub_spec(eye.y as int, pos.1);
    let vz0 = fx_sub_spec(eye.z as int, pos.2);
    let vn = crate::vector::norm3_spec(vx0, vy0, vz0);
    let vx = fx_div_spec(vx0, vn);
    let vy = fx_div_spec(vy0, vn);
    let vz = fx_div_spec(vz0, vn);
    let rdv = fx_max_spec(0, dot3i_spec(rx, ry, rz, vx, vy, vz));
    let s2 = fx_mul_spec(rdv, rdv);
    let s4 = fx_mul_spec(s2, s2);
    let s8 = fx_mul_spec(s4, s4);
    (
        fx_add_spec(
            fx_mul_spec(fx_mul_spec(base.r as int, light.intensity.r as int), ndl),
            fx_mul_spec(light.intensity.r as int, s8),
        ),
        fx_add_spec(
            fx_mul_spec(fx_mul_spec(base.g as int, light.intensity.g as int), ndl),
            fx_mul_spec(light.intensity.g as int, s8),
        ),
        fx_add_spec(
            fx_mul_spec(fx_mul_spec(base.b as int, light.intensity.b as int), ndl),
            fx_mul_spec(light.intensity.b as int, s8),
        ),
    )
}

/// The summed Phong contributions of a light list.
pub open spec fn lights_sum_spec(
    lights: Seq<Light>,
    nrm: (int, int, int),
    pos: (int, int, int),
    eye: Vector3,
    base: Color3,
) -> (int, int, int)
    decreases lights.len(),
{
    if lights.len() == 0 {
        (0, 0, 0)
    } else {
        let rest = lights_sum_spec(lights.drop_last(), nrm, pos, eye, base);
        let c = phong_light_spec(lights.last(), nrm, pos, eye, base);
        (fx_add_spec(rest.0, c.0), fx_add_spec(rest.1, c.1), fx_add_spec(rest.2, c.2))
    }
}

/// A fixed-point channel value mapped to the nearest 8-bit channel level,
/// clamped into `[0, 255]`.
pub open spec fn to_byte_spec(c: int) -> int {
    fx_clamp_range_spec(fx_mul_spec(fx_add_spec(c, 128), 255), 0, 255)
}

/// The final 8-bit color of a pixel: the base color, under ambient plus
/// the summed light contributions when the render mode lights, clamped to
/// bytes.
#[verifier::opaque]
pub open spec fn pixel_color_spec(
    eye: Vector3,
    lights: Seq<Light>,
    t: Triangle,
    textures: Seq<Texture>,
    px: int,
    py: int,
) -> (int, int, int) {
    let base = base_color_spec(t, textures, px, py);
    let c = if uses_light(t.render_type) {
        let nrm = face_normal_spec(t);
        let pos = interp_pos_spec(t, px, py);
        let s = lights_sum_spec(lights, nrm, pos, eye, base);
        (
            fx_add_spec(fx_mul_spec(base.r as int, 6554), s.0),
            fx_add_spec(fx_mul_spec(base.g as int, 6554), s.1),
            fx_add_spec(fx_mul_spec(base.b as int, 6554), s.2),
        )
    } else {
        (base.r as int, base.g as int, base.b as int)
    };
    (to_byte_spec(c.0), to_byte_spec(c.1), to_byte_spec(c.2))
}

/// After the engine ran, pixel (qx, qy) either carries the triangle's
/// shade and depth (it was covered and won the z-test against the buffer
/// as it stood before the call) or is exactly what it was.
pub open spec fn pixel_outcome_spec(
    eye: Vector3,
    lights: Seq<Light>,
    t: Triangle,
    textures: Seq<Texture>,
    w: int,
    h: int,
    zb0: Seq<i64>,
    im0: Seq<u8>,
    zb: Seq<i64>,
    im: Seq<u8>,
    qx: int,
    qy: int,
) -> bool {
    let idx = qy * w + qx;
    if covered_spec(t, w, h, qx, qy) && depth_spec(t, qx, qy) >= zb0[idx] as int {
        &&& zb[idx] as int == depth_spec(t, qx, qy)
        &&& im[4 * idx] as int == pixel_color_spec(eye, lights, t, textures, qx, qy).0
        &&& im[4 * idx + 1] as int == pixel_color_spec(eye, lights, t, textures, qx, qy).1
        &&& im[4 * idx + 2] as int == pixel_color_spec(eye, lights, t, textures, qx, qy).2
        &&& im[4 * idx + 3] == 255
    } else {
        pixel_unchanged_spec(w, zb0, im0, zb, im, qx, qy)
    }
}

/// Pixel (qx, qy) is exactly what it was.
pub open spec fn pixel_unchanged_spec(
    w: int,
    zb0: Seq<i64>,
    im0: Seq<u8>,
    zb: Seq<i64>,
    im: Seq<u8>,
    qx: int,
    qy: int,
) -> bool {
    let idx = qy * w + qx;
    &&& zb[idx] == zb0[idx]
    &&& im[4 * idx] == im0[4 * idx]
    &&& im[4 * idx + 1] == im0[4 * idx + 1]
    &&& im[4 * idx + 2] == im0[4 * idx + 2]
    &&& im[4 * idx + 3] == im0[4 * idx + 3]
}

/// Row-major pixel indices are injective.
proof fn lemma_index_injective(w: int, ax: int, ay: int, bx: int, by: int)
    by (nonlinear_arith)
    requires
        0 <= ax < w,
        0 <= bx < w,
        ay * w + ax == by * w + bx,
    ensures
        ax == bx,
        ay == by,
{
}

/// The edge function of the directed edge from `a` to `b` at a sample
/// point.
fn edge_fn(a: &Vector4, b: &Vector4, cx: i64, cy: i64) -> (r: i64)
    ensures
        r as int == edge_spec(*a, *b, cx as int, cy as int),
{
    fx_sub(
        fx_mul(fx_sub(b.x, a.x), fx_sub(cy, a.y)),
        fx_mul(fx_sub(b.y, a.y), fx_sub(cx, a.x)),
    )
}

/// One edge's inside test, with the top-left tie-break on zero values.
fn edge_inside(a: &Vector4, b: &Vector4, e: i64, pos: bool) -> (r: bool)
    ensures
        r == edge_inside_spec(*a, *b, e as int, pos),
{
    if pos {
        if e > 0 {
            true
        } else if e == 0 {
            let dx = fx_sub(b.x, a.x);
            let dy = fx_sub(b.y, a.y);
            dy < 0 || (dy == 0 && dx > 0)
        } else {
            false
        }
    } else {
        if e < 0 {
            true
        } else if e == 0 {
            let dx = fx_neg(fx_sub(b.x, a.x));
            let dy = fx_neg(fx_sub(b.y, a.y));
            dy < 0 || (dy == 0 && dx > 0)
        } else {
            false
        }
    }
}

/// A three-way blend with the given weights.
fn interp3(c0: i64, c1: i64, c2: i64, a0: i64, a1: i64, a2: i64) -> (r: i64)
    ensures
        r as int == interp3_spec(c0 as int, c1 as int, c2 as int, a0 as int, a1 as int, a2 as int),
{
    fx_add(fx_add(fx_mul(c0, a0), fx_mul(c1, a1)), fx_mul(c2, a2))
}

/// Fixed-point dot product over raw components.
fn dot3i(ax: i64, ay: i64, az: i64, bx: i64, by: i64, bz: i64) -> (r: i64)
    ensures
        r as int == dot3i_spec(ax as int, ay as int, az as int, bx as int, by as int, bz as int),
{
    fx_add(fx_add(fx_mul(ax, bx), fx_mul(ay, by)), fx_mul(az, bz))
}

/// The interpolated view-space depth of a pixel.
fn pixel_depth(t: &Triangle, px: i64, py: i64) -> (r: i64)
    requires
        t.wf(),
        0 <= px < 32768,
        0 <= py < 32768,
    ensures
        r as int == depth_spec(*t, px as int, py as int),
{
    proof {
        reveal(depth_spec);
    }
    let cx: i64 = 65536 * px + 32768;
    let cy: i64 = 65536 * py + 32768;
    let e01 = edge_fn(&t.vertexs[0], &t.vertexs[1], cx, cy);
    let e12 = edge_fn(&t.vertexs[1], &t.vertexs[2], cx, cy);
    let e20 = edge_fn(&t.vertexs[2], &t.vertexs[0], cx, cy);
    let area = fx_add(fx_add(e01, e12), e20);
    let b0 = fx_div(e12, area);
    let b1 = fx_div(e20, area);
    let b2 = fx_div(e01, area);
    let rz0 = fx_div(FX_ONE, t.tvertexs[0].z);
    let rz1 = fx_div(FX_ONE, t.tvertexs[1].z);
    let rz2 = fx_div(FX_ONE, t.tvertexs[2].z);
    let denom = fx_add(fx_add(fx_mul(b0, rz0), fx_mul(b1, rz1)), fx_mul(b2, rz2));
    fx_div(FX_ONE, denom)
}

/// The shaded 8-bit color of a pixel, with the alpha byte fixed at 255 by
/// the caller.
fn shade_pixel(rast: &Rasterizer, t: &Triangle, textures: &Vec<Texture>, px: i64, py: i64) -> (rgb:
    (u8, u8, u8))
    requires
        t.wf(),
        0 <= px < 32768,
        0 <= py < 32768,
        forall|i: int| 0 <= i < textures@.len() ==> (#[trigger] textures@[i]).wf(),
    ensures
        rgb.0 as int == pixel_color_spec(rast.eye_pos, rast.lights@, *t, textures@, px as int,
            py as int).0,
        rgb.1 as int == pixel_color_spec(rast.eye_pos, rast.lights@, *t, textures@, px as int,
            py as int).1,
        rgb.2 as int == pixel_color_spec(rast.eye_pos, rast.lights@, *t, textures@, px as int,
            py as int).2,
{
    proof {
        reveal(depth_spec);
        reveal(pixel_color_spec);
    }
    let cx: i64 = 65536 * px + 32768;
    let cy: i64 = 65536 * py + 32768;
    let e01 = edge_fn(&t.vertexs[0], &t.vertexs[1], cx, cy);
    let e12 = edge_fn(&t.vertexs[1], &t.vertexs[2], cx, cy);
    let e20 = edge_fn(&t.vertexs[2], &t.vertexs[0], cx, cy);
    let area = fx_add(fx_add(e01, e12), e20);
    let b0 = fx_div(e12, area);
    let b1 = fx_div(e20, area);
    let b2 = fx_div(e01, area);
    let d = pixel_depth(t, px, py);
    let rz0 = fx_div(FX_ONE, t.tvertexs[0].z);
    let rz1 = fx_div(FX_ONE, t.tvertexs[1].z);
    let rz2 = fx_div(FX_ONE, t.tvertexs[2].z);
    let rden = fx_add(fx_add(fx_mul(b0, rz0), fx_mul(b1, rz1)), fx_mul(b2, rz2));
    let c0 = if rden == 0 { b0 } else { fx_mul(fx_div(b0, t.tvertexs[0].z), d) };
    let c1 = if rden == 0 { b1 } else { fx_mul(fx_div(b1, t.tvertexs[1].z), d) };
    let c2 = if rden == 0 { b2 } else { fx_mul(fx_div(b2, t.tvertexs[2].z), d) };
    let base: Color3 = if matches!(t.render_type, crate::triangle::RenderType::Texture)
        || matches!(t.render_type, crate::triangle::RenderType::TextureLight) {
        if textures.len() > 0 {
            let u = interp3(c0, c1, c2, t.tex_coords[0].x, t.tex_coords[1].x, t.tex_coords[2].x);
            let v = interp3(c0, c1, c2, t.tex_coords[0].y, t.tex_coords[1].y, t.tex_coords[2].y);
            textures[0].sample(u, v)
        } else {
            Color3 { r: FX_ONE, g: FX_ONE, b: FX_ONE }
        }
    } else {
        Color3 {
            r: interp3(c0, c1, c2, t.colors[0].r, t.colors[1].r, t.colors[2].r),
            g: interp3(c0, c1, c2, t.colors[0].g, t.colors[1].g, t.colors[2].g),
            b: interp3(c0, c1, c2, t.colors[0].b, t.colors[1].b, t.colors[2].b),
        }
    };
    let lit: (i64, i64, i64) = if matches!(t.render_type, crate::triangle::RenderType::ColorLight)
        || matches!(t.render_type, crate::triangle::RenderType::TextureLight) {
        let tv0 = t.tvertexs[0];
        let tv1 = t.tvertexs[1];
        let tv2 = t.tvertexs[2];
        let e1 = tv1.sub(&tv0);
        let e2 = tv2.sub(&tv0);
        let mut nrm = e1.cross_product(&e2);
        nrm.normalize();
        let ipx = interp3(c0, c1, c2, tv0.x, tv1.x, tv2.x);
        let ipy = interp3(c0, c1, c2, tv0.y, tv1.y, tv2.y);
        let ipz = interp3(c0, c1, c2, tv0.z, tv1.z, tv2.z);
        let mut acc_r: i64 = 0;
        let mut acc_g: i64 = 0;
        let mut acc_b: i64 = 0;
        let lights = rast.get_lights();
        let n = lights.len();
        let mut i: usize = 0;
        while i < n
            invariant
                n == lights@.len(),
                0 <= i <= n,
                lights@ == rast.lights@,
                nrm.x as int == face_normal_spec(*t).0,
                nrm.y as int == face_normal_spec(*t).1,
                nrm.z as int == face_normal_spec(*t).2,
                ipx as int == interp_pos_spec(*t, px as int, py as int).0,
                ipy as int == interp_pos_spec(*t, px as int, py as int).1,
                ipz as int == interp_pos_spec(*t, px as int, py as int).2,
                acc_r as int == lights_sum_spec(lights@.take(i as int), face_normal_spec(*t),
                    interp_pos_spec(*t, px as int, py as int), rast.eye_pos, base).0,
                acc_g as int == lights_sum_spec(lights@.take(i as int), face_normal_spec(*t),
                    interp_pos_spec(*t, px as int, py as int), rast.eye_pos, base).1,
                acc_b as int == lights_sum_spec(lights@.take(i as int), face_normal_spec(*t),
                    interp_pos_spec(*t, px as int, py as int), rast.eye_pos, base).2,
            decreases n - i,
        {
            let light = lights[i];
            let mut lv = Vector3 {
                x: fx_sub(light.position.x, ipx),
                y: fx_sub(light.position.y, ipy),
                z: fx_sub(light.position.z, ipz),
            };
            lv.normalize();
            let ndl = fx_max(0, dot3i(nrm.x, nrm.y, nrm.z, lv.x, lv.y, lv.z));
            let two_ndl = fx_mul(131072, ndl);
            let rx = fx_sub(fx_mul(two_ndl, nrm.x), lv.x);
            let ry = fx_sub(fx_mul(two_ndl, nrm.y), lv.y);
            let rz = fx_sub(fx_mul(two_ndl, nrm.z), lv.z);
            let eye = rast.get_eye_pos();
            let mut vv = Vector3 {
                x: fx_sub(eye.x, ipx),
                y: fx_sub(eye.y, ipy),
                z: fx_sub(eye.z, ipz),
            };
            vv.normalize();
            let rdv = fx_max(0, dot3i(rx, ry, rz, vv.x, vv.y, vv.z));
            let s2 = fx_mul(rdv, rdv);
            let s4 = fx_mul(s2, s2);
            let s8 = fx_mul(s4, s4);
            let cr = fx_add(fx_mul(fx_mul(base.r, light.intensity.r), ndl),
                fx_mul(light.intensity.r, s8));
            let cg = fx_add(fx_mul(fx_mul(base.g, light.intensity.g), ndl),
                fx_mul(light.intensity.g, s8));
            let cb = fx_add(fx_mul(fx_mul(base.b, light.intensity.b), ndl),
                fx_mul(light.intensity.b, s8));
            acc_r = fx_add(acc_r, cr);
            acc_g = fx_add(acc_g, cg);
            acc_b = fx_add(acc_b, cb);
            proof {
                let pre = lights@.take(i as int);
                let post = lights@.take(i as int + 1);
                assert(post.drop_last() =~= pre);
                assert(post.last() == lights@[i as int]);
            }
            i = i + 1;
        }
        proof {
            assert(lights@.take(n as int) =~= lights@);
        }
        (
            fx_add(fx_mul(base.r, FX_AMBIENT), acc_r),
            fx_add(fx_mul(base.g, FX_AMBIENT), acc_g),
            fx_add(fx_mul(base.b, FX_AMBIENT), acc_b),
        )
    } else {
        (base.r, base.g, base.b)
    };
    let rb = fx_clamp_range(fx_mul(fx_add(lit.0, 128), 255), 0, 255);
    let gb = fx_clamp_range(fx_mul(fx_add(lit.1, 128), 255), 0, 255);
    let bb = fx_clamp_range(fx_mul(fx_add(lit.2, 128), 255), 0, 255);
    (rb as u8, gb as u8, bb as u8)
}

/// A frame of at most this many pixels on a side keeps every index small.
proof fn lemma_frame_bound(w: int, h: int)
    by (nonlinear_arith)
    requires
        1 <= w <= 16384,
        1 <= h <= 16384,
    ensures
        w * h <= 0x10000000,
{
}

/// Process one candidate pixel: evaluate the inside test, the z-test and
/// the shade, and write the pixel exactly when both pass; every other byte
/// of both buffers is untouched.
fn process_pixel(
    image: &mut Vec<u8>,
    rast: &Rasterizer,
    zbuf: &mut Vec<i64>,
    w: i64,
    h: i64,
    t: &Triangle,
    textures: &Vec<Texture>,
    px: i64,
    py: i64,
)
    requires
        t.wf(),
        1 <= w <= 16384,
        1 <= h <= 16384,
        0 <= px < w,
        0 <= py < h,
        bbox_x_lo_spec(*t) <= px as int <= bbox_x_hi_spec(*t, w as int),
        bbox_y_lo_spec(*t) <= py as int <= bbox_y_hi_spec(*t, h as int),
        old(image)@.len() == 4 * w * h,
        old(zbuf)@.len() == w * h,
        forall|i: int| 0 <= i < textures@.len() ==> (#[trigger] textures@[i]).wf(),
    ensures
        final(image)@.len() == old(image)@.len(),
        final(zbuf)@.len() == old(zbuf)@.len(),
        pixel_outcome_spec(rast.eye_pos, rast.lights@, *t, textures@, w as int, h as int,
            old(zbuf)@, old(image)@, final(zbuf)@, final(image)@, px as int, py as int),
        forall|qx: int, qy: int|
            0 <= qx < w && 0 <= qy < h && (qx != px as int || qy != py as int)
                ==> #[trigger] pixel_unchanged_spec(w as int, old(zbuf)@, old(image)@,
                final(zbuf)@, final(image)@, qx, qy),
{
    proof {
        lemma_frame_bound(w as int, h as int);
        crate::texture::lemma_grid_index(w as int, h as int, px as int, py as int);
        assert(4 * ((w as int) * (h as int)) == 4 * (w as int) * (h as int)) by (nonlinear_arith);
        reveal(covered_spec);
    }
    let cx: i64 = 65536 * px + 32768;
    let cy: i64 = 65536 * py + 32768;
    let e01 = edge_fn(&t.vertexs[0], &t.vertexs[1], cx, cy);
    let e12 = edge_fn(&t.vertexs[1], &t.vertexs[2], cx, cy);
    let e20 = edge_fn(&t.vertexs[2], &t.vertexs[0], cx, cy);
    let area = fx_add(fx_add(e01, e12), e20);
    let pos = area > 0;
    let inside = edge_inside(&t.vertexs[0], &t.vertexs[1], e01, pos) && edge_inside(
        &t.vertexs[1],
        &t.vertexs[2],
        e12,
        pos,
    ) && edge_inside(&t.vertexs[2], &t.vertexs[0], e20, pos);
    if area != 0 && inside {
        let d = pixel_depth(t, px, py);
        let idx: usize = (py * w + px) as usize;
        if d >= zbuf[idx] {
            let rgb = shade_pixel(rast, t, textures, px, py);
            zbuf[idx] = d;
            image[4 * idx] = rgb.0;
            image[4 * idx + 1] = rgb.1;
            image[4 * idx + 2] = rgb.2;
            image[4 * idx + 3] = 255u8;
            proof {
                assert forall|qx: int, qy: int|
                    0 <= qx < w && 0 <= qy < h && (qx != px as int || qy != py as int)
                        implies #[trigger] pixel_unchanged_spec(w as int, old(zbuf)@, old(image)@,
                        zbuf@, image@, qx, qy) by {
                    crate::texture::lemma_grid_index(w as int, h as int, qx, qy);
                    if qy * (w as int) + qx == (py as int) * (w as int) + px as int {
                        lemma_index_injective(w as int, qx, qy, px as int, py as int);
                    }
                }
            }
        }
    }
}

/// Rasterize one triangle into a caller-owned frame buffer and z-buffer
/// pair.  Screen-space and view-space vertices must already be computed by
/// the transform stage.  Exactly the covered pixels whose interpolated
/// depth passes the z-test against the buffer as given are written, with
/// the shaded color and that depth; every other byte is untouched.
pub fn draw_trangle_edge_equation(
    image: &mut Vec<u8>,
    rasterizer: &Rasterizer,
    zbuf: &mut Vec<i64>,
    width: i32,
    height: i32,
    triangle: &Triangle,
    textures: &Vec<Texture>,
)
    requires
        triangle.wf(),
        1 <= width <= 16384,
        1 <= height <= 16384,
        old(image)@.len() == 4 * (width as int) * (height as int),
        old(zbuf)@.len() == (width as int) * (height as int),
        forall|i: int| 0 <= i < textures@.len() ==> (#[trigger] textures@[i]).wf(),
    ensures
        final(image)@.len() == old(image)@.len(),
        final(zbuf)@.len() == old(zbuf)@.len(),
        forall|qx: int, qy: int|
            0 <= qx < width && 0 <= qy < height ==> #[trigger] pixel_outcome_spec(
                rasterizer.eye_pos,
                rasterizer.lights@,
                *triangle,
                textures@,
                width as int,
                height as int,
                old(zbuf)@,
                old(image)@,
                final(zbuf)@,
                final(image)@,
                qx,
                qy,
            ),
{
    let w: i64 = width as i64;
    let h: i64 = height as i64;
    let x0 = triangle.vertexs[0].x;
    let x1 = triangle.vertexs[1].x;
    let x2 = triangle.vertexs[2].x;
    let y0 = triangle.vertexs[0].y;
    let y1 = triangle.vertexs[1].y;
    let y2 = triangle.vertexs[2].y;
    let xlo: i64 = fx_floor(fx_max(fx_min(fx_min(x0, x1), x2), 0));
    let xhi: i64 = fx_min(fx_ceil(fx_max(fx_max(x0, x1), x2)), w - 1);
    let ylo: i64 = fx_floor(fx_max(fx_min(fx_min(y0, y1), y2), 0));
    let yhi: i64 = fx_min(fx_ceil(fx_max(fx_max(y0, y1), y2)), h - 1);
    let ghost eye = rasterizer.eye_pos;
    let ghost ls = rasterizer.lights@;
    let ghost tr = *triangle;
    let ghost txs = textures@;
    let ghost zb0 = old(zbuf)@;
    let ghost im0 = old(image)@;
    let mut py: i64 = ylo;
    while py <= yhi
        invariant
            triangle.wf(),
            tr == *triangle,
            eye == rasterizer.eye_pos,
            ls == rasterizer.lights@,
            txs == textures@,
            forall|i: int| 0 <= i < textures@.len() ==> (#[trigger] textures@[i]).wf(),
            1 <= w <= 16384,
            1 <= h <= 16384,
            w as int == width as int,
            h as int == height as int,
            xlo as int == bbox_x_lo_spec(tr),
            xhi as int == bbox_x_hi_spec(tr, w as int),
            ylo as int == bbox_y_lo_spec(tr),
            yhi as int == bbox_y_hi_spec(tr, h as int),
            0 <= xlo,
            xhi <= w - 1,
            0 <= ylo,
            yhi <= h - 1,
            ylo <= py,
            py <= yhi + 1 || py == ylo,
            zb0.len() == (w as int) * (h as int),
            im0.len() == 4 * (w as int) * (h as int),
            zbuf@.len() == zb0.len(),
            image@.len() == im0.len(),
            forall|qx: int, qy: int|
                #![all_triggers]
                0 <= qx < w && 0 <= qy < h ==> if ylo <= qy < py && xlo <= qx <= xhi {
                    pixel_outcome_spec(eye, ls, tr, txs, w as int, h as int, zb0, im0, zbuf@,
                        image@, qx, qy)
                } else {
                    pixel_unchanged_spec(w as int, zb0, im0, zbuf@, image@, qx, qy)
                },
        decreases yhi - py + 1,
    {
        let mut px: i64 = xlo;
        while px <= xhi
            invariant
                triangle.wf(),
                tr == *triangle,
                eye == rasterizer.eye_pos,
                ls == rasterizer.lights@,
                txs == textures@,
                forall|i: int| 0 <= i < textures@.len() ==> (#[trigger] textures@[i]).wf(),
                1 <= w <= 16384,
                1 <= h <= 16384,
                w as int == width as int,
                h as int == height as int,
                xlo as int == bbox_x_lo_spec(tr),
                xhi as int == bbox_x_hi_spec(tr, w as int),
                ylo as int == bbox_y_lo_spec(tr),
                yhi as int == bbox_y_hi_spec(tr, h as int),
                0 <= xlo,
                xhi <= w - 1,
                0 <= ylo,
                yhi <= h - 1,
                ylo <= py <= yhi,
                xlo <= px,
                px <= xhi + 1 || px == xlo,
                zb0.len() == (w as int) * (h as int),
                im0.len() == 4 * (w as int) * (h as int),
                zbuf@.len() == zb0.len(),
                image@.len() == im0.len(),
                forall|qx: int, qy: int|
                    #![all_triggers]
                    0 <= qx < w && 0 <= qy < h ==> if (ylo <= qy < py && xlo <= qx <= xhi) || (qy
                        == py && xlo <= qx < px) {
                        pixel_outcome_spec(eye, ls, tr, txs, w as int, h as int, zb0, im0, zbuf@,
                            image@, qx, qy)
                    } else {
                        pixel_unchanged_spec(w as int, zb0, im0, zbuf@, image@, qx, qy)
                    },
            decreases xhi - px + 1,
        {
            let ghost zb_pre = zbuf@;
            let ghost im_pre = image@;
            process_pixel(image, rasterizer, zbuf, w, h, triangle, textures, px, py);
            proof {
                assert forall|qx: int, qy: int|
                    #![all_triggers]
                    0 <= qx < w && 0 <= qy < h implies (if (ylo <= qy < py && xlo <= qx <= xhi)
                    || (qy == py as int && xlo <= qx < px + 1) {
                    pixel_outcome_spec(eye, ls, tr, txs, w as int, h as int, zb0, im0, zbuf@,
                        image@, qx, qy)
                } else {
                    pixel_unchanged_spec(w as int, zb0, im0, zbuf@, image@, qx, qy)
                }) by {
                    crate::texture::lemma_grid_index(w as int, h as int, qx, qy);
                    if qx == px as int && qy == py as int {
                        assert(pixel_outcome_spec(eye, ls, tr, txs, w as int, h as int, zb_pre,
                            im_pre, zbuf@, image@, qx, qy));
                        assert(pixel_unchanged_spec(w as int, zb0, im0, zb_pre, im_pre, qx, qy));
                        assert(pixel_outcome_spec(eye, ls, tr, txs, w as int, h as int, zb0, im0,
                            zbuf@, image@, qx, qy));
                    } else {
                        assert(pixel_unchanged_spec(w as int, zb_pre, im_pre, zbuf@, image@, qx,
                            qy));
                        if (ylo <= qy < py as int && xlo <= qx <= xhi) || (qy == py as int && xlo
                            <= qx < px as int) {
                            assert(pixel_outcome_spec(eye, ls, tr, txs, w as int, h as int, zb0,
                                im0, zb_pre, im_pre, qx, qy));
                            assert(pixel_outcome_spec(eye, ls, tr, txs, w as int, h as int, zb0,
                                im0, zbuf@, image@, qx, qy));
                        } else {
                            assert(pixel_unchanged_spec(w as int, zb0, im0, zb_pre, im_pre, qx,
                                qy));
                            assert(pixel_unchanged_spec(w as int, zb0, im0, zbuf@, image@, qx,
                                qy));
                        }
                    }
                }
            }
            px = px + 1;
        }
        py = py + 1;
        proof {
            assert forall|qx: int, qy: int|
                #![all_triggers]
                0 <= qx < w && 0 <= qy < h implies (if ylo <= qy < py && xlo <= qx <= xhi {
                pixel_outcome_spec(eye, ls, tr, txs, w as int, h as int, zb0, im0, zbuf@, image@,
                    qx, qy)
            } else {
                pixel_unchanged_spec(w as int, zb0, im0, zbuf@, image@, qx, qy)
            }) by {
                crate::texture::lemma_grid_index(w as int, h as int, qx, qy);
                assert(pixel_unchanged_spec(w as int, zb0, im0, zbuf@, image@, qx, qy)
                    || !pixel_unchanged_spec(w as int, zb0, im0, zbuf@, image@, qx, qy));
            }
        }
    }
    proof {
        reveal(covered_spec);
        assert forall|qx: int, qy: int|
            0 <= qx < width && 0 <= qy < height implies #[trigger] pixel_outcome_spec(eye, ls, tr,
            txs, width as int, height as int, zb0, im0, zbuf@, image@, qx, qy) by {
            crate::texture::lemma_grid_index(w as int, h as int, qx, qy);
            assert(pixel_unchanged_spec(w as int, zb0, im0, zbuf@, image@, qx, qy)
                || !pixel_unchanged_spec(w as int, zb0, im0, zbuf@, image@, qx, qy));
            if !(ylo <= qy < py && xlo <= qx <= xhi) {
                assert(!covered_spec(tr, w as int, h as int, qx, qy));
            }
        }
    }
}

/// A linear pixel index decomposes into its column and row.
proof fn lemma_idx_decompose(w: int, px: int, py: int)
    requires
        0 <= px < w,
        0 <= py,
    ensures
        (py * w + px) % w == px,
        (py * w + px) / w == py,
{
    vstd::arithmetic::div_mod::lemma_fundamental_div_mod_converse(py * w + px, w, py, px);
}

/// One shaded pixel of the result list: its index is in range, its pixel
/// is covered by the triangle, and it carries exactly the interpolated
/// depth and the shaded color of that pixel.
pub open spec fn result_entry_spec(
    eye: Vector3,
    lights: Seq<Light>,
    t: Triangle,
    textures: Seq<Texture>,
    w: int,
    h: int,
    e: RenderResult,
) -> bool {
    let qx = (e.idx as int) % w;
    let qy = (e.idx as int) / w;
    &&& 0 <= e.idx as int
    &&& (e.idx as int) < w * h
    &&& covered_spec(t, w, h, qx, qy)
    &&& e.z as int == depth_spec(t, qx, qy)
    &&& e.r as int == pixel_color_spec(eye, lights, t, textures, qx, qy).0
    &&& e.g as int == pixel_color_spec(eye, lights, t, textures, qx, qy).1
    &&& e.b as int == pixel_color_spec(eye, lights, t, textures, qx, qy).2
}

/// Rasterize one triangle into a list of per-pixel results instead of
/// mutating any buffer: one entry for every covered pixel, in row-major
/// order (strictly increasing pixel index), carrying the shaded color and
/// the interpolated depth.  No z-test is applied; depth resolution is the
/// consumer's choice.
pub fn draw_trangle_edge_equation_result(
    rasterizer: &Rasterizer,
    width: i32,
    height: i32,
    triangle: &Triangle,
    textures: &Vec<Texture>,
) -> (res: Vec<RenderResult>)
    requires
        triangle.wf(),
        1 <= width <= 16384,
        1 <= height <= 16384,
        forall|i: int| 0 <= i < textures@.len() ==> (#[trigger] textures@[i]).wf(),
    ensures
        forall|i: int|
            0 <= i < res@.len() ==> #[trigger] result_entry_spec(rasterizer.eye_pos,
                rasterizer.lights@, *triangle, textures@, width as int, height as int, res@[i]),
        forall|i: int, j: int| 0 <= i < j < res@.len() ==> res@[i].idx < res@[j].idx,
        forall|qx: int, qy: int|
            #![all_triggers]
            0 <= qx < width && 0 <= qy < height && covered_spec(*triangle, width as int,
                height as int, qx, qy) ==> exists|i: int|
                0 <= i < res@.len() && (#[trigger] res@[i].idx) as int == qy * (width as int) + qx,
{
    let w: i64 = width as i64;
    let h: i64 = height as i64;
    let x0 = triangle.vertexs[0].x;
    let x1 = triangle.vertexs[1].x;
    let x2 = triangle.vertexs[2].x;
    let y0 = triangle.vertexs[0].y;
    let y1 = triangle.vertexs[1].y;
    let y2 = triangle.vertexs[2].y;
    let xlo: i64 = fx_floor(fx_max(fx_min(fx_min(x0, x1), x2), 0));
    let xhi: i64 = fx_min(fx_ceil(fx_max(fx_max(x0, x1), x2)), w - 1);
    let ylo: i64 = fx_floor(fx_max(fx_min(fx_min(y0, y1), y2), 0));
    let yhi: i64 = fx_min(fx_ceil(fx_max(fx_max(y0, y1), y2)), h - 1);
    let ghost eye = rasterizer.eye_pos;
    let ghost ls = rasterizer.lights@;
    let ghost tr = *triangle;
    let ghost txs = textures@;
    let mut res: Vec<RenderResult> = Vec::new();
    let mut py: i64 = ylo;
    while py <= yhi
        invariant
            triangle.wf(),
            tr == *triangle,
            eye == rasterizer.eye_pos,
            ls == rasterizer.lights@,
            txs == textures@,
            forall|i: int| 0 <= i < textures@.len() ==> (#[trigger] textures@[i]).wf(),
            1 <= w <= 16384,
            1 <= h <= 16384,
            w as int == width as int,
            h as int == height as int,
            xlo as int == bbox_x_lo_spec(tr),
            xhi as int == bbox_x_hi_spec(tr, w as int),
            ylo as int == bbox_y_lo_spec(tr),
            yhi as int == bbox_y_hi_spec(tr, h as int),
            0 <= xlo,
            xhi <= w - 1,
            0 <= ylo,
            yhi <= h - 1,
            ylo <= py,
            py <= yhi + 1 || py == ylo,
            forall|i: int|
                0 <= i < res@.len() ==> #[trigger] result_entry_spec(eye, ls, tr, txs, w as int,
                    h as int, res@[i]),
            forall|i: int, j: int| 0 <= i < j < res@.len() ==> res@[i].idx < res@[j].idx,
            forall|i: int|
                0 <= i < res@.len() ==> ((#[trigger] res@[i].idx) as int) < py * (w as int) + xlo,
            forall|qx: int, qy: int|
                #![all_triggers]
                0 <= qx < w && 0 <= qy < h && ylo <= qy < py && xlo <= qx <= xhi && covered_spec(
                    tr, w as int, h as int, qx, qy) ==> exists|i: int|
                    0 <= i < res@.len() && (#[trigger] res@[i].idx) as int == qy * (w as int) + qx,
        decreases yhi - py + 1,
    {
        let mut px: i64 = xlo;
        while px <= xhi
            invariant
                triangle.wf(),
                tr == *triangle,
                eye == rasterizer.eye_pos,
                ls == rasterizer.lights@,
                txs == textures@,
                forall|i: int| 0 <= i < textures@.len() ==> (#[trigger] textures@[i]).wf(),
                1 <= w <= 16384,
                1 <= h <= 16384,
                w as int == width as int,
                h as int == height as int,
                xlo as int == bbox_x_lo_spec(tr),
                xhi as int == bbox_x_hi_spec(tr, w as int),
                ylo as int == bbox_y_lo_spec(tr),
                yhi as int == bbox_y_hi_spec(tr, h as int),
                0 <= xlo,
                xhi <= w - 1,
                0 <= ylo,
                yhi <= h - 1,
                ylo <= py <= yhi,
                xlo <= px,
                px <= xhi + 1 || px == xlo,
                forall|i: int|
                    0 <= i < res@.len() ==> #[trigger] result_entry_spec(eye, ls, tr, txs,
                        w as int, h as int, res@[i]),
                forall|i: int, j: int| 0 <= i < j < res@.len() ==> res@[i].idx < res@[j].idx,
                forall|i: int|
                    0 <= i < res@.len() ==> ((#[trigger] res@[i].idx) as int) < py * (w as int) + px,
                forall|qx: int, qy: int|
                    #![all_triggers]
                    0 <= qx < w && 0 <= qy < h && ((ylo <= qy < py && xlo <= qx <= xhi) || (qy
                        == py && xlo <= qx < px)) && covered_spec(tr, w as int, h as int, qx, qy)
                        ==> exists|i: int|
                        0 <= i < res@.len() && (#[trigger] res@[i].idx) as int == qy * (w as int)
                            + qx,
            decreases xhi - px + 1,
        {
            proof {
                reveal(covered_spec);
            }
            let ghost res_pre = res@;
            let cx: i64 = 65536 * px + 32768;
            let cy: i64 = 65536 * py + 32768;
            let e01 = edge_fn(&triangle.vertexs[0], &triangle.vertexs[1], cx, cy);
            let e12 = edge_fn(&triangle.vertexs[1], &triangle.vertexs[2], cx, cy);
            let e20 = edge_fn(&triangle.vertexs[2], &triangle.vertexs[0], cx, cy);
            let area = fx_add(fx_add(e01, e12), e20);
            let pos = area > 0;
            let inside = edge_inside(&triangle.vertexs[0], &triangle.vertexs[1], e01, pos)
                && edge_inside(&triangle.vertexs[1], &triangle.vertexs[2], e12, pos)
                && edge_inside(&triangle.vertexs[2], &triangle.vertexs[0], e20, pos);
            if area != 0 && inside {
                proof {
                    lemma_frame_bound(w as int, h as int);
                    crate::texture::lemma_grid_index(w as int, h as int, px as int, py as int);
                    lemma_idx_decompose(w as int, px as int, py as int);
                }
                let d = pixel_depth(triangle, px, py);
                let rgb = shade_pixel(rasterizer, triangle, textures, px, py);
                let e = RenderResult { idx: (py * w + px) as i32, r: rgb.0, g: rgb.1, b: rgb.2, z: d };
                res.push(e);
            }
            proof {
                assert forall|qx: int, qy: int|
                    #![all_triggers]
                    0 <= qx < w && 0 <= qy < h && ((ylo <= qy < py && xlo <= qx <= xhi) || (qy
                        == py as int && xlo <= qx < px + 1)) && covered_spec(tr, w as int,
                    h as int, qx, qy) implies exists|i: int|
                    0 <= i < res@.len() && (#[trigger] res@[i].idx) as int == qy * (w as int)
                        + qx by {
                    if qy == py as int && qx == px as int {
                        assert(res@.len() == res_pre.len() + 1);
                        assert((res@[res@.len() - 1].idx) as int == qy * (w as int) + qx);
                    } else {
                        let i0 = choose|i: int|
                            0 <= i < res_pre.len() && (#[trigger] res_pre[i].idx) as int == qy * (
                            w as int) + qx;
                        assert(res@[i0].idx == res_pre[i0].idx);
                    }
                }
            }
            px = px + 1;
        }
        py = py + 1;
        proof {
            assert((py as int) * (w as int) == (py as int - 1) * (w as int) + (w as int))
                by (nonlinear_arith);
        }
    }
    proof {
        reveal(covered_spec);
    }
    res
}

/// The z-test, not submission order, decides a contested pixel.  Two
/// triangles are rasterized one after the other over the same buffers;
/// both cover the pixel and both pass the z-test against the original
/// buffer.  If the second triangle is at least as near as the first, its
/// color and depth stand (at exactly equal depths the last writer wins);
/// if it is strictly farther, the first triangle's color and depth stand.
pub proof fn lemma_depth_test_resolves(
    eye: Vector3,
    lights: Seq<Light>,
    t1: Triangle,
    t2: Triangle,
    textures: Seq<Texture>,
    w: int,
    h: int,
    zb0: Seq<i64>,
    im0: Seq<u8>,
    zb1: Seq<i64>,
    im1: Seq<u8>,
    zb2: Seq<i64>,
    im2: Seq<u8>,
    qx: int,
    qy: int,
)
    requires
        0 <= qx < w,
        0 <= qy < h,
        zb0.len() == w * h,
        pixel_outcome_spec(eye, lights, t1, textures, w, h, zb0, im0, zb1, im1, qx, qy),
        pixel_outcome_spec(eye, lights, t2, textures, w, h, zb1, im1, zb2, im2, qx, qy),
        covered_spec(t1, w, h, qx, qy),
        covered_spec(t2, w, h, qx, qy),
        depth_spec(t1, qx, qy) >= zb0[qy * w + qx] as int,
        depth_spec(t2, qx, qy) >= zb0[qy * w + qx] as int,
    ensures
        depth_spec(t2, qx, qy) >= depth_spec(t1, qx, qy) ==> {
            &&& zb2[qy * w + qx] as int == depth_spec(t2, qx, qy)
            &&& im2[4 * (qy * w + qx)] as int == pixel_color_spec(eye, lights, t2, textures, qx,
                qy).0
            &&& im2[4 * (qy * w + qx) + 1] as int == pixel_color_spec(eye, lights, t2, textures,
                qx, qy).1
            &&& im2[4 * (qy * w + qx) + 2] as int == pixel_color_spec(eye, lights, t2, textures,
                qx, qy).2
        },
        depth_spec(t2, qx, qy) < depth_spec(t1, qx, qy) ==> {
            &&& zb2[qy * w + qx] as int == depth_spec(t1, qx, qy)
            &&& im2[4 * (qy * w + qx)] as int == pixel_color_spec(eye, lights, t1, textures, qx,
                qy).0
            &&& im2[4 * (qy * w + qx) + 1] as int == pixel_color_spec(eye, lights, t1, textures,
                qx, qy).1
            &&& im2[4 * (qy * w + qx) + 2] as int == pixel_color_spec(eye, lights, t1, textures,
                qx, qy).2
        },
{
}

} // verus!

