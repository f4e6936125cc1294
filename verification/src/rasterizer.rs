//! Pipeline state and the camera / projection matrix builders, plus the
//! per-triangle transform stage feeding the edge-equation fill engine.
//!
//! The depth convention is uniform across the orthographic builder, the
//! perspective builder and the z-test: the camera looks down the negative
//! z axis, view-space depths are negative, and "nearer" compares as
//! numerically larger.  [`lemma_perspective_depth`] proves, at exact
//! precision, that the composed perspective depth map sends the near-plane
//! center to its maximum depth `(n-f-1)/(2(n-f))`, the far-plane center to
//! its minimum, and is strictly monotone between them.

use vstd::prelude::*;
use crate::fx::{
    fx_add, fx_add_spec, fx_div, fx_div_spec, fx_mul, fx_mul_spec, fx_neg, fx_neg_spec, fx_sub,
    fx_sub_spec, FX_ONE,
};
use crate::edge_equation::{
    covered_spec, dot3i_spec, draw_trangle_edge_equation, draw_trangle_edge_equation_result,
    pixel_outcome_spec, result_entry_spec,
};
use crate::light::Light;
use crate::texture::Texture;
use crate::triangle::Triangle;
use crate::matrix::{apply_val_spec, ident_spec, mul_val_spec, Mat4x4};
use crate::trig::{cos_deg, cos_deg_spec, sin_deg, sin_deg_spec, tan_deg, tan_deg_spec};
use crate::vector::{norm3_spec, Vector3, Vector4};

verus! {

/// The pipeline state holder: model, view and projection matrices, the
/// derived model-view-projection and model-view matrices, the active
/// lights, and the eye position used only for shading.
pub struct Rasterizer {
    pub model: Mat4x4,
    pub view: Mat4x4,
    pub projection: Mat4x4,
    pub mvp: Mat4x4,
    pub mv: Mat4x4,
    pub lights: Vec<Light>,
    pub eye_pos: Vector3,
}

/// The state after one recompute of the derived matrices: a pure function
/// of the three input matrices, everything else untouched.
pub open spec fn derived_spec(r: Rasterizer) -> Rasterizer {
    Rasterizer {
        mvp: mul_val_spec(mul_val_spec(r.projection, r.view), r.model),
        mv: mul_val_spec(r.view, r.model),
        ..r
    }
}

impl Rasterizer {
    /// A fresh pipeline: identity matrices, no lights, eye at the origin.
    pub fn new() -> (r: Rasterizer)
        ensures
            r.model == ident_spec(),
            r.view == ident_spec(),
            r.projection == ident_spec(),
            r.mvp == ident_spec(),
            r.mv == ident_spec(),
            r.lights@.len() == 0,
            r.eye_pos == (Vector3 { x: 0, y: 0, z: 0 }),
    {
        Rasterizer {
            model: Mat4x4::identity(),
            view: Mat4x4::identity(),
            mv: Mat4x4::identity(),
            projection: Mat4x4::identity(),
            mvp: Mat4x4::identity(),
            lights: Vec::new(),
            eye_pos: Vector3::new(),
        }
    }

    /// Replace the view matrix; derived matrices stay until recomputed.
    pub fn set_view(&mut self, m: Mat4x4)
        ensures
            *final(self) == (Rasterizer { view: m, ..*old(self) }),
    {
        self.view = m;
    }

    /// Replace the model matrix; derived matrices stay until recomputed.
    pub fn set_model(&mut self, m: Mat4x4)
        ensures
            *final(self) == (Rasterizer { model: m, ..*old(self) }),
    {
        self.model = m;
    }

    /// Replace the eye position used by shading.
    pub fn set_eye_pos(&mut self, v: Vector3)
        ensures
            *final(self) == (Rasterizer { eye_pos: v, ..*old(self) }),
    {
        self.eye_pos = v;
    }

    /// Replace the active light list.
    pub fn set_lights(&mut self, lights: Vec<Light>)
        ensures
            final(self).lights@ == lights@,
            final(self).model == old(self).model,
            final(self).view == old(self).view,
            final(self).projection == old(self).projection,
            final(self).mvp == old(self).mvp,
            final(self).mv == old(self).mv,
            final(self).eye_pos == old(self).eye_pos,
    {
        self.lights = lights;
    }

    /// Replace the projection matrix; derived matrices stay until
    /// recomputed.
    pub fn set_projection(&mut self, m: Mat4x4)
        ensures
            *final(self) == (Rasterizer { projection: m, ..*old(self) }),
    {
        self.projection = m;
    }

    /// Recompute the derived matrices from the current inputs: the
    /// model-view-projection matrix `projection * view * model` and the
    /// model-view matrix `view * model`.  The result is a pure function of
    /// the inputs, so recomputing twice in a row without changing any input
    /// produces identical matrices (see [`lemma_recompute_idempotent`]).
    pub fn compute_mvp(&mut self)
        ensures
            *final(self) == derived_spec(*old(self)),
    {
        self.mvp = self.projection.mul(&self.view).mul(&self.model);
        self.mv = self.view.mul(&self.model);
    }

    /// The active light list, read-only for shading.
    pub fn get_lights(&self) -> (r: &Vec<Light>)
        ensures
            r@ == self.lights@,
    {
        &self.lights
    }

    /// The eye position, read-only for shading.
    pub fn get_eye_pos(&self) -> (r: &Vector3)
        ensures
            *r == self.eye_pos,
    {
        &self.eye_pos
    }
}

/// One shaded pixel, decoupled from any buffer: a linear pixel index, an
/// 8-bit RGB triple and the interpolated depth.
#[derive(Clone, Copy, Debug, PartialEq, Eq, Structural)]
pub struct RenderResult {
    pub idx: i32,
    pub r: u8,
    pub g: u8,
    pub b: u8,
    pub z: i64,
}

impl RenderResult {
    /// An all-zero result.
    pub fn new() -> (r: RenderResult)
        ensures
            r == (RenderResult { idx: 0, r: 0, g: 0, b: 0, z: 0 }),
    {
        RenderResult { idx: 0, r: 0, g: 0, b: 0, z: 0 }
    }
}

/// The perspective divide: x, y and z over w, with w normalized to one.
/// A zero w yields the zero point, the silent degenerate case.
pub open spec fn persp_divide_spec(v: Vector4) -> Vector4 {
    Vector4 {
        x: fx_div_spec(v.x as int, v.w as int) as i64,
        y: fx_div_spec(v.y as int, v.w as int) as i64,
        z: fx_div_spec(v.z as int, v.w as int) as i64,
        w: 65536,
    }
}

fn persp_divide(v: &Vector4) -> (r: Vector4)
    ensures
        r == persp_divide_spec(*v),
{
    Vector4 {
        x: fx_div(v.x, v.w),
        y: fx_div(v.y, v.w),
        z: fx_div(v.z, v.w),
        w: FX_ONE,
    }
}

/// A screen-space vertex: the combined transform, the perspective divide,
/// then the viewport map for the frame size in fixed-point pixels.
pub open spec fn screen_vertex_spec(mvp: Mat4x4, w: int, h: int, v: Vector4) -> Vector4 {
    apply_val_spec(
        view_port_spec(65536 * w, 65536 * h),
        persp_divide_spec(apply_val_spec(mvp, v)),
    )
}

/// The transform stage shared by the two rasterization entry points:
/// derive the view-space and screen-space vertices of a triangle from its
/// object-space vertices and the pipeline's derived matrices.
fn transform_triangle(rasterizer: &Rasterizer, width: i32, height: i32, triangle: &mut Triangle)
    requires
        old(triangle).wf(),
        1 <= width <= 16384,
        1 <= height <= 16384,
    ensures
        final(triangle).wf(),
        final(triangle).origin_vertexs == old(triangle).origin_vertexs,
        final(triangle).tex_coords == old(triangle).tex_coords,
        final(triangle).colors == old(triangle).colors,
        final(triangle).render_type == old(triangle).render_type,
        forall|i: int|
            0 <= i < 3 ==> final(triangle).tvertexs@[i] == apply_val_spec(
                rasterizer.mv,
                old(triangle).origin_vertexs@[i],
            ),
        forall|i: int|
            0 <= i < 3 ==> final(triangle).vertexs@[i] == screen_vertex_spec(
                rasterizer.mvp,
                width as int,
                height as int,
                old(triangle).origin_vertexs@[i],
            ),
{
    let t1 = rasterizer.mvp.apply(&triangle.origin_vertexs[0]);
    let t2 = rasterizer.mvp.apply(&triangle.origin_vertexs[1]);
    let t3 = rasterizer.mvp.apply(&triangle.origin_vertexs[2]);
    let tv = vec![
        rasterizer.mv.apply(&triangle.origin_vertexs[0]),
        rasterizer.mv.apply(&triangle.origin_vertexs[1]),
        rasterizer.mv.apply(&triangle.origin_vertexs[2]),
    ];
    triangle.set_tvetexs(tv);
    let view_port = get_view_port(65536 * (width as i64), 65536 * (height as i64));
    let p1 = view_port.apply(&persp_divide(&t1));
    let p2 = view_port.apply(&persp_divide(&t2));
    let p3 = view_port.apply(&persp_divide(&t3));
    triangle.set_vertexs(vec![p1, p2, p3]);
}

/// Transform a triangle through the pipeline and rasterize it into the
/// caller's frame buffer and z-buffer.  The near and far distances are
/// frame parameters of the caller's depth convention; the edge-equation
/// fill reads depth bounds from the z-buffer contents alone.
pub fn draw_trangle(
    rasterizer: &Rasterizer,
    image: &mut Vec<u8>,
    zbuf: &mut Vec<i64>,
    _near: i64,
    _far: i64,
    width: i32,
    height: i32,
    triangle: &mut Triangle,
    textures: &Vec<Texture>,
)
    requires
        old(triangle).wf(),
        1 <= width <= 16384,
        1 <= height <= 16384,
        old(image)@.len() == 4 * (width as int) * (height as int),
        old(zbuf)@.len() == (width as int) * (height as int),
        forall|i: int| 0 <= i < textures@.len() ==> (#[trigger] textures@[i]).wf(),
    ensures
        final(triangle).wf(),
        final(triangle).origin_vertexs == old(triangle).origin_vertexs,
        final(triangle).tex_coords == old(triangle).tex_coords,
        final(triangle).colors == old(triangle).colors,
        final(triangle).render_type == old(triangle).render_type,
        forall|i: int|
            0 <= i < 3 ==> final(triangle).tvertexs@[i] == apply_val_spec(
                rasterizer.mv,
                old(triangle).origin_vertexs@[i],
            ),
        forall|i: int|
            0 <= i < 3 ==> final(triangle).vertexs@[i] == screen_vertex_spec(
                rasterizer.mvp,
                width as int,
                height as int,
                old(triangle).origin_vertexs@[i],
            ),
        final(image)@.len() == old(image)@.len(),
        final(zbuf)@.len() == old(zbuf)@.len(),
        forall|qx: int, qy: int|
            0 <= qx < width && 0 <= qy < height ==> #[trigger] pixel_outcome_spec(
                rasterizer.eye_pos,
                rasterizer.lights@,
                *final(triangle),
                textures@,
                width as int,
                height as int,
                old(zbuf)@,
                old(image)@,
                final(zbuf)@,
                final(image)@,
                qx,
                qy,
            ),
{
    transform_triangle(rasterizer, width, height, triangle);
    draw_trangle_edge_equation(image, rasterizer, zbuf, width, height, triangle, textures);
}

/// Transform a triangle through the pipeline and return its shaded pixels
/// as a list of per-pixel results, without touching any buffer: one entry
/// for every covered pixel and no other, in strictly increasing pixel
/// index order, carrying the engine's color and depth.
pub fn draw_trangle_map(
    rasterizer: &Rasterizer,
    width: i32,
    height: i32,
    triangle: &mut Triangle,
    textures: &Vec<Texture>,
) -> (res: Vec<RenderResult>)
    requires
        old(triangle).wf(),
        1 <= width <= 16384,
        1 <= height <= 16384,
        forall|i: int| 0 <= i < textures@.len() ==> (#[trigger] textures@[i]).wf(),
    ensures
        final(triangle).wf(),
        final(triangle).origin_vertexs == old(triangle).origin_vertexs,
        final(triangle).tex_coords == old(triangle).tex_coords,
        final(triangle).colors == old(triangle).colors,
        final(triangle).render_type == old(triangle).render_type,
        forall|i: int|
            0 <= i < 3 ==> final(triangle).tvertexs@[i] == apply_val_spec(
                rasterizer.mv,
                old(triangle).origin_vertexs@[i],
            ),
        forall|i: int|
            0 <= i < 3 ==> final(triangle).vertexs@[i] == screen_vertex_spec(
                rasterizer.mvp,
                width as int,
                height as int,
                old(triangle).origin_vertexs@[i],
            ),
        forall|i: int|
            0 <= i < res@.len() ==> #[trigger] result_entry_spec(
                rasterizer.eye_pos,
                rasterizer.lights@,
                *final(triangle),
                textures@,
                width as int,
                height as int,
                res@[i],
            ),
        forall|i: int, j: int| 0 <= i < j < res@.len() ==> res@[i].idx < res@[j].idx,
        forall|qx: int, qy: int|
            #![all_triggers]
            0 <= qx < width && 0 <= qy < height && covered_spec(
                *final(triangle),
                width as int,
                height as int,
                qx,
                qy,
            ) ==> exists|i: int|
                0 <= i < res@.len() && (#[trigger] res@[i].idx) as int == qy * (width as int) + qx,
{
    transform_triangle(rasterizer, width, height, triangle);
    draw_trangle_edge_equation_result(rasterizer, width, height, triangle, textures)
}

/// Recomputing the derived matrices is idempotent: applied to a state it
/// already produced, the recompute step changes nothing.
pub proof fn lemma_recompute_idempotent(r: Rasterizer)
    ensures
        derived_spec(derived_spec(r)) == derived_spec(r),
{
}

/// The rows of the right-handed look-at view matrix, stated value by value
/// over the fixed-point operations: forward is the normalized direction
/// from eye to target, the side axis is the normalized cross product of
/// forward with the normalized up hint, and the translation column holds
/// the negated dot product of each basis row with the eye, so the
/// transform maps the eye to the origin.  Near-parallel forward and up
/// produce a degenerate basis; that is a caller contract, not guarded
/// here.
pub open spec fn view_matrix_spec(eye: Vector4, at: Vector4, up: Vector4, r: Mat4x4) -> bool {
    let gx0 = fx_sub_spec(at.x as int, eye.x as int);
    let gy0 = fx_sub_spec(at.y as int, eye.y as int);
    let gz0 = fx_sub_spec(at.z as int, eye.z as int);
    let gn = norm3_spec(gx0, gy0, gz0);
    let gx = fx_div_spec(gx0, gn);
    let gy = fx_div_spec(gy0, gn);
    let gz = fx_div_spec(gz0, gn);
    let un = norm3_spec(up.x as int, up.y as int, up.z as int);
    let ux = fx_div_spec(up.x as int, un);
    let uy = fx_div_spec(up.y as int, un);
    let uz = fx_div_spec(up.z as int, un);
    let xx0 = fx_sub_spec(fx_mul_spec(gy, uz), fx_mul_spec(gz, uy));
    let xy0 = fx_sub_spec(fx_mul_spec(gz, ux), fx_mul_spec(gx, uz));
    let xz0 = fx_sub_spec(fx_mul_spec(gx, uy), fx_mul_spec(gy, ux));
    let xn = norm3_spec(xx0, xy0, xz0);
    let sx = fx_div_spec(xx0, xn);
    let sy = fx_div_spec(xy0, xn);
    let sz = fx_div_spec(xz0, xn);
    &&& r.r0.x as int == sx
    &&& r.r0.y as int == sy
    &&& r.r0.z as int == sz
    &&& r.r0.w as int == fx_neg_spec(
        dot3i_spec(sx, sy, sz, eye.x as int, eye.y as int, eye.z as int),
    )
    &&& r.r1.x as int == ux
    &&& r.r1.y as int == uy
    &&& r.r1.z as int == uz
    &&& r.r1.w as int == fx_neg_spec(
        dot3i_spec(ux, uy, uz, eye.x as int, eye.y as int, eye.z as int),
    )
    &&& r.r2.x as int == fx_neg_spec(gx)
    &&& r.r2.y as int == fx_neg_spec(gy)
    &&& r.r2.z as int == fx_neg_spec(gz)
    &&& r.r2.w as int == fx_neg_spec(
        dot3i_spec(
            fx_neg_spec(gx),
            fx_neg_spec(gy),
            fx_neg_spec(gz),
            eye.x as int,
            eye.y as int,
            eye.z as int,
        ),
    )
    &&& r.r3 == (Vector4 { x: 0, y: 0, z: 0, w: 65536 })
}

/// Build the right-handed look-at view matrix from eye position, look-at
/// target and up hint.
pub fn get_view_matrix(eye: Vector4, at: Vector4, mut up: Vector4) -> (r: Mat4x4)
    ensures
        view_matrix_spec(eye, at, up, r),
{
    let mut g = at.sub(&eye);
    g.normalize();
    up.normalize();
    let mut x = g.cross_product(&up);
    x.normalize();
    let tx = fx_neg(fx_add(fx_add(fx_mul(x.x, eye.x), fx_mul(x.y, eye.y)), fx_mul(x.z, eye.z)));
    let tu = fx_neg(fx_add(fx_add(fx_mul(up.x, eye.x), fx_mul(up.y, eye.y)), fx_mul(up.z, eye.z)));
    let ngx = fx_neg(g.x);
    let ngy = fx_neg(g.y);
    let ngz = fx_neg(g.z);
    let tg = fx_neg(fx_add(fx_add(fx_mul(ngx, eye.x), fx_mul(ngy, eye.y)), fx_mul(ngz, eye.z)));
    Mat4x4::new_val(
        Vector4 { x: x.x, y: x.y, z: x.z, w: tx },
        Vector4 { x: up.x, y: up.y, z: up.z, w: tu },
        Vector4 { x: ngx, y: ngy, z: ngz, w: tg },
        Vector4 { x: 0, y: 0, z: 0, w: FX_ONE },
    )
}

/// The viewport matrix: maps normalized device coordinates in `[-1, 1]` to
/// pixel coordinates `[0, width] x [0, height]`, flipping the vertical axis
/// so increasing y moves down the image, and passing depth through
/// unchanged.
pub open spec fn view_port_spec(width: int, height: int) -> Mat4x4 {
    Mat4x4 {
        r0: Vector4 {
            x: fx_div_spec(width, 131072) as i64,
            y: 0,
            z: 0,
            w: fx_div_spec(width, 131072) as i64,
        },
        r1: Vector4 {
            x: 0,
            y: fx_neg_spec(fx_div_spec(height, 131072)) as i64,
            z: 0,
            w: fx_div_spec(height, 131072) as i64,
        },
        r2: Vector4 { x: 0, y: 0, z: 65536, w: 0 },
        r3: Vector4 { x: 0, y: 0, z: 0, w: 65536 },
    }
}

/// Build the viewport matrix for a frame of the given pixel size.
pub fn get_view_port(width: i64, height: i64) -> (r: Mat4x4)
    ensures
        r == view_port_spec(width as int, height as int),
{
    let half_w = fx_div(width, 131072);
    let half_h = fx_div(height, 131072);
    Mat4x4::new_val(
        Vector4 { x: half_w, y: 0, z: 0, w: half_w },
        Vector4 { x: 0, y: fx_neg(half_h), z: 0, w: half_h },
        Vector4 { x: 0, y: 0, z: FX_ONE, w: 0 },
        Vector4 { x: 0, y: 0, z: 0, w: FX_ONE },
    )
}

/// The model matrix: a rotation about the vertical axis by an angle in
/// degrees.
pub open spec fn model_matrix_spec(angle: int) -> Mat4x4 {
    Mat4x4 {
        r0: Vector4 {
            x: cos_deg_spec(angle) as i64,
            y: 0,
            z: sin_deg_spec(angle) as i64,
            w: 0,
        },
        r1: Vector4 { x: 0, y: 65536, z: 0, w: 0 },
        r2: Vector4 {
            x: fx_neg_spec(sin_deg_spec(angle)) as i64,
            y: 0,
            z: cos_deg_spec(angle) as i64,
            w: 0,
        },
        r3: Vector4 { x: 0, y: 0, z: 0, w: 65536 },
    }
}

/// Build the model rotation matrix for an angle in degrees.
pub fn get_model_matrix(angel: i64) -> (r: Mat4x4)
    ensures
        r == model_matrix_spec(angel as int),
{
    let c = cos_deg(angel);
    let s = sin_deg(angel);
    Mat4x4::new_val(
        Vector4 { x: c, y: 0, z: s, w: 0 },
        Vector4 { x: 0, y: FX_ONE, z: 0, w: 0 },
        Vector4 { x: fx_neg(s), y: 0, z: c, w: 0 },
        Vector4 { x: 0, y: 0, z: 0, w: FX_ONE },
    )
}

/// The scale part of the orthographic projection: `2/(r-l)`, `2/(t-b)` and
/// `1/(n-f)` on the diagonal.
pub open spec fn ortho_scale_spec(l: int, r: int, t: int, b: int, n: int, f: int) -> Mat4x4 {
    Mat4x4 {
        r0: Vector4 { x: fx_div_spec(131072, fx_sub_spec(r, l)) as i64, y: 0, z: 0, w: 0 },
        r1: Vector4 { x: 0, y: fx_div_spec(131072, fx_sub_spec(t, b)) as i64, z: 0, w: 0 },
        r2: Vector4 { x: 0, y: 0, z: fx_div_spec(65536, fx_sub_spec(n, f)) as i64, w: 0 },
        r3: Vector4 { x: 0, y: 0, z: 0, w: 65536 },
    }
}

/// The centering part of the orthographic projection: translate the box
/// center to the origin in x and y, and the depth to the shifted center
/// `-(n+f+1)/2`, which maps the view-space depth range into the target
/// band below zero that the perspective builder and the z-test share.
pub open spec fn ortho_center_spec(l: int, r: int, t: int, b: int, n: int, f: int) -> Mat4x4 {
    Mat4x4 {
        r0: Vector4 {
            x: 65536,
            y: 0,
            z: 0,
            w: fx_neg_spec(fx_div_spec(fx_add_spec(l, r), 131072)) as i64,
        },
        r1: Vector4 {
            x: 0,
            y: 65536,
            z: 0,
            w: fx_neg_spec(fx_div_spec(fx_add_spec(t, b), 131072)) as i64,
        },
        r2: Vector4 {
            x: 0,
            y: 0,
            z: 65536,
            w: fx_neg_spec(fx_div_spec(fx_add_spec(fx_add_spec(n, f), 65536), 131072)) as i64,
        },
        r3: Vector4 { x: 0, y: 0, z: 0, w: 65536 },
    }
}

/// Build the orthographic projection mapping the axis-aligned view-space
/// box `[l,r] x [b,t] x [f,n]` to the canonical cube, by independent scale
/// and centering transforms.  No validation of the bounds: a degenerate box
/// yields a degenerate matrix, a caller contract violation.
pub fn get_ortho_projection_matrix(l: i64, r: i64, t: i64, b: i64, n: i64, f: i64) -> (res: Mat4x4)
    ensures
        res == mul_val_spec(
            ortho_scale_spec(l as int, r as int, t as int, b as int, n as int, f as int),
            ortho_center_spec(l as int, r as int, t as int, b as int, n as int, f as int),
        ),
{
    let m1 = Mat4x4::new_val(
        Vector4 { x: fx_div(131072, fx_sub(r, l)), y: 0, z: 0, w: 0 },
        Vector4 { x: 0, y: fx_div(131072, fx_sub(t, b)), z: 0, w: 0 },
        Vector4 { x: 0, y: 0, z: fx_div(65536, fx_sub(n, f)), w: 0 },
        Vector4 { x: 0, y: 0, z: 0, w: FX_ONE },
    );
    let m2 = Mat4x4::new_val(
        Vector4 { x: FX_ONE, y: 0, z: 0, w: fx_neg(fx_div(fx_add(l, r), 131072)) },
        Vector4 { x: 0, y: FX_ONE, z: 0, w: fx_neg(fx_div(fx_add(t, b), 131072)) },
        Vector4 { x: 0, y: 0, z: FX_ONE, w: fx_neg(fx_div(fx_add(fx_add(n, f), FX_ONE), 131072)) },
        Vector4 { x: 0, y: 0, z: 0, w: FX_ONE },
    );
    m1.mul(&m2)
}

/// The perspective-to-orthographic matrix: scales x and y by the near
/// value, carries `(n+f, -n*f)` in the depth row, and moves view-space
/// depth into w to produce the depth divide.
pub open spec fn persp_to_ortho_spec(n: int, f: int) -> Mat4x4 {
    Mat4x4 {
        r0: Vector4 { x: n as i64, y: 0, z: 0, w: 0 },
        r1: Vector4 { x: 0, y: n as i64, z: 0, w: 0 },
        r2: Vector4 {
            x: 0,
            y: 0,
            z: fx_add_spec(n, f) as i64,
            w: fx_neg_spec(fx_mul_spec(n, f)) as i64,
        },
        r3: Vector4 { x: 0, y: 0, z: 65536, w: 0 },
    }
}

/// The vertical half-extent of the frustum at the near plane: `|near| *
/// tan(fov/2)` for a vertical field of view in degrees.
pub open spec fn frustum_top_spec(eye_fov: int, near: int) -> int {
    let a = if near >= 0 {
        near
    } else {
        fx_neg_spec(near)
    };
    fx_mul_spec(a, tan_deg_spec(fx_div_spec(eye_fov, 131072)))
}

/// Build the perspective projection from a vertical field of view in
/// degrees, an aspect ratio, and near/far distances, as the
/// perspective-to-orthographic decomposition composed with the
/// orthographic projection of the frustum box.  Invalid inputs (near >=
/// far as depths, a degenerate field of view) yield a degenerate matrix,
/// not a runtime error.
pub fn get_presp_projection_matrix(eye_fov: i64, aspect_ratio: i64, near: i64, far: i64) -> (res:
    Mat4x4)
    ensures
        ({
            let t = frustum_top_spec(eye_fov as int, near as int);
            let r = fx_mul_spec(t, aspect_ratio as int);
            let l = fx_neg_spec(r);
            let b = fx_neg_spec(t);
            res == mul_val_spec(
                mul_val_spec(
                    ortho_scale_spec(l, r, t, b, near as int, far as int),
                    ortho_center_spec(l, r, t, b, near as int, far as int),
                ),
                persp_to_ortho_spec(near as int, far as int),
            )
        }),
{
    let a = if near >= 0 {
        near
    } else {
        fx_neg(near)
    };
    let t = fx_mul(a, tan_deg(fx_div(eye_fov, 131072)));
    let r = fx_mul(t, aspect_ratio);
    let l = fx_neg(r);
    let b = fx_neg(t);
    let p2o = Mat4x4::new_val(
        Vector4 { x: near, y: 0, z: 0, w: 0 },
        Vector4 { x: 0, y: near, z: 0, w: 0 },
        Vector4 { x: 0, y: 0, z: fx_add(near, far), w: fx_neg(fx_mul(near, far)) },
        Vector4 { x: 0, y: 0, z: FX_ONE, w: 0 },
    );
    get_ortho_projection_matrix(l, r, t, b, near, far).mul(&p2o)
}

/// Numerator of the exact composed perspective depth map at view depth
/// `z`: the perspective-to-orthographic z row gives `(n+f)z - nf`, the
/// depth divide gives `w = z`, and the orthographic centering `-(n+f+1)/2`
/// and scale `1/(n-f)` give `((n+f-1)z - 2nf) / (2z(n-f))`.  The viewport
/// passes depth through unchanged.
pub open spec fn persp_depth_num(n: int, f: int, z: int) -> int {
    (n + f - 1) * z - 2 * n * f
}

/// Denominator of the exact composed perspective depth map.
pub open spec fn persp_depth_den(n: int, f: int, z: int) -> int {
    2 * z * (n - f)
}

/// The exact depth map of the perspective projection composed with the
/// viewport sends the near-plane center to `(n-f-1)/(2(n-f))`, its
/// maximum over the frustum, the far-plane center to `(f-n-1)/(2(n-f))`,
/// its minimum, and is strictly monotone in between: for view depths
/// `f <= z1 < z2 <= n` (farther to nearer), the mapped depth strictly
/// increases, so the nearest point takes the extreme depth value under
/// the uniform nearer-is-numerically-larger convention.  The denominators
/// are negative here, so the fraction comparison `num1/den1 < num2/den2`
/// reads `num1 * den2 < num2 * den1`, and each endpoint value is stated
/// cross-multiplied.
pub proof fn lemma_perspective_depth(n: int, f: int, z1: int, z2: int)
    requires
        f < n < 0,
        f <= z1 < z2 <= n,
    ensures
        persp_depth_num(n, f, n) * (2 * (n - f)) == (n - f - 1) * persp_depth_den(n, f, n),
        persp_depth_num(n, f, f) * (2 * (n - f)) == (f - n - 1) * persp_depth_den(n, f, f),
        persp_depth_den(n, f, z1) < 0,
        persp_depth_den(n, f, z2) < 0,
        persp_depth_num(n, f, z1) * persp_depth_den(n, f, z2) < persp_depth_num(n, f, z2)
            * persp_depth_den(n, f, z1),
{
    assert(((n + f - 1) * n - 2 * n * f) * (2 * (n - f)) == (n - f - 1) * (2 * n * (n - f)))
        by (nonlinear_arith);
    assert(((n + f - 1) * f - 2 * n * f) * (2 * (n - f)) == (f - n - 1) * (2 * f * (n - f)))
        by (nonlinear_arith);
    assert(2 * z1 * (n - f) < 0) by (nonlinear_arith)
        requires
            z1 < 0,
            n - f > 0,
    ;
    assert(2 * z2 * (n - f) < 0) by (nonlinear_arith)
        requires
            z2 < 0,
            n - f > 0,
    ;
    lemma_cross_difference(n + f - 1, 2 * n * f, n - f, z1, z2);
    assert(2 * (n - f) * (2 * n * f) * (z2 - z1) > 0) by (nonlinear_arith)
        requires
            n < 0,
            f < 0,
            n - f > 0,
            z2 - z1 > 0,
    ;
}

/// The cross-multiplied difference of the two depth fractions factors into
/// a product of fixed-sign terms.
proof fn lemma_cross_difference(u: int, p: int, k: int, z1: int, z2: int)
    ensures
        (u * z2 - p) * (2 * z1 * k) - (u * z1 - p) * (2 * z2 * k) == 2 * k * p * (z2 - z1),
{
    assert((u * z2 - p) * (2 * z1 * k) == u * z2 * (2 * z1 * k) - p * (2 * z1 * k))
        by (nonlinear_arith);
    assert((u * z1 - p) * (2 * z2 * k) == u * z1 * (2 * z2 * k) - p * (2 * z2 * k))
        by (nonlinear_arith);
    assert(u * z2 * (2 * z1 * k) == u * z1 * (2 * z2 * k)) by (nonlinear_arith);
    assert(p * (2 * z2 * k) - p * (2 * z1 * k) == 2 * k * p * (z2 - z1)) by (nonlinear_arith);
}

} // verus!
