use mini3d::fx::{fx_add, fx_div, fx_mul, fx_neg, fx_sub, FX_ONE};
use mini3d::matrix::Mat4x4;
use mini3d::rasterizer::{
    get_model_matrix, get_presp_projection_matrix, get_view_matrix, get_view_port, Rasterizer,
};
use mini3d::vector::{Vector3, Vector4};

fn fxi(v: i64) -> i64 {
    v * FX_ONE
}

#[test]
fn fixed_point_arithmetic_exact_values() {
    assert_eq!(fx_add(fxi(3), fxi(2)), fxi(5));
    assert_eq!(fx_sub(fxi(3), fxi(5)), fxi(-2));
    assert_eq!(fx_mul(fxi(3), fxi(2)), fxi(6));
    assert_eq!(fx_div(fxi(3), fxi(2)), 98304);
    assert_eq!(fx_div(fxi(1), 0), 0);
    assert_eq!(fx_neg(fxi(7)), fxi(-7));
}

#[test]
fn vector_normalize_exact() {
    let mut v = Vector3::new_3(fxi(3), fxi(4), 0);
    v.normalize();
    assert_eq!(v.x, 39321);
    assert_eq!(v.y, 52428);
    assert_eq!(v.z, 0);
}

#[test]
fn matrix_identity_application() {
    let m = Mat4x4::identity();
    let v = Vector4::new_4(fxi(1), fxi(2), fxi(3), fxi(1));
    let r = m.apply(&v);
    assert_eq!(r, v);
}

#[test]
fn view_port_entries() {
    let vp = get_view_port(fxi(512), fxi(512));
    assert_eq!(vp.r0.x, fxi(256));
    assert_eq!(vp.r0.w, fxi(256));
    assert_eq!(vp.r1.y, -fxi(256));
    assert_eq!(vp.r1.w, fxi(256));
    assert_eq!(vp.r2.z, FX_ONE);
    assert_eq!(vp.r2.w, 0);
}

#[test]
fn model_matrix_zero_angle_is_identity() {
    let m = get_model_matrix(0);
    assert_eq!(m, Mat4x4::identity());
}

#[test]
fn view_matrix_canonical_camera() {
    let m = get_view_matrix(
        Vector4::new_4(0, 0, fxi(2), FX_ONE),
        Vector4::new_4(0, 0, 0, FX_ONE),
        Vector4::new_4(0, FX_ONE, 0, FX_ONE),
    );
    // Looking down -z from (0, 0, 2): side = +x, up = +y, forward = -z.
    assert_eq!(m.r0.x, FX_ONE);
    assert_eq!(m.r0.y, 0);
    assert_eq!(m.r1.y, FX_ONE);
    assert_eq!(m.r2.z, FX_ONE);
    assert_eq!(m.r2.w, -fxi(2));
    assert_eq!(m.r3.w, FX_ONE);
}

#[test]
fn view_matrix_maps_eye_to_origin() {
    let m = get_view_matrix(
        Vector4::new_4(fxi(1), fxi(1), fxi(5), FX_ONE),
        Vector4::new_4(fxi(1), fxi(1), 0, FX_ONE),
        Vector4::new_4(0, FX_ONE, 0, FX_ONE),
    );
    // Basis is axis-aligned; the translation column is -(basis . eye), so
    // applying the matrix to the eye yields the origin.
    assert_eq!(m.r0.w, -fxi(1));
    assert_eq!(m.r1.w, -fxi(1));
    assert_eq!(m.r2.w, -fxi(5));
    let at_origin = m.apply(&Vector4::new_4(fxi(1), fxi(1), fxi(5), FX_ONE));
    assert_eq!(at_origin.x, 0);
    assert_eq!(at_origin.y, 0);
    assert_eq!(at_origin.z, 0);
}

// Round trip: with exactly representable matrices, transforming a vertex
// stepwise equals applying the precomputed combined matrix.
#[test]
fn transform_round_trip_exact_matrices() {
    let a = Mat4x4::new_val(
        Vector4::new_4(fxi(2), 0, 0, fxi(3)),
        Vector4::new_4(0, fxi(2), 0, fxi(-1)),
        Vector4::new_4(0, 0, fxi(2), fxi(4)),
        Vector4::new_4(0, 0, 0, FX_ONE),
    );
    let b = Mat4x4::new_val(
        Vector4::new_4(FX_ONE, 0, 0, fxi(1)),
        Vector4::new_4(0, FX_ONE, 0, fxi(1)),
        Vector4::new_4(0, 0, FX_ONE, fxi(1)),
        Vector4::new_4(0, 0, 0, FX_ONE),
    );
    let v = Vector4::new_4(fxi(1), fxi(2), fxi(3), FX_ONE);
    let stepwise = a.apply(&b.apply(&v));
    let combined = a.mul(&b).apply(&v);
    assert_eq!(stepwise, combined);
}

// Idempotence: recomputing derived matrices twice without changing any
// input produces bit-identical matrices.
#[test]
fn recompute_derived_matrices_idempotent() {
    let mut r = Rasterizer::new();
    r.set_model(get_model_matrix(fxi(30)));
    r.set_view(get_view_matrix(
        Vector4::new_4(0, 0, fxi(2), FX_ONE),
        Vector4::new_4(0, 0, 0, FX_ONE),
        Vector4::new_4(0, FX_ONE, 0, FX_ONE),
    ));
    r.set_projection(get_presp_projection_matrix(fxi(60), FX_ONE, -6554, -fxi(50)));
    r.compute_mvp();
    let mvp1 = r.mvp;
    let mv1 = r.mv;
    r.compute_mvp();
    assert_eq!(r.mvp, mvp1);
    assert_eq!(r.mv, mv1);
}

// Depth ordering: the perspective projection maps the near-plane center to
// the greatest depth, the far-plane center to the least, monotonic between.
#[test]
fn perspective_depth_ordering() {
    let near: i64 = -6554; // -0.1
    let far: i64 = -fxi(50);
    let m = get_presp_projection_matrix(fxi(60), FX_ONE, near, far);
    let depth_of = |z: i64| -> i64 {
        let v = m.apply(&Vector4::new_4(0, 0, z, FX_ONE));
        fx_div(v.z, v.w)
    };
    let d_near = depth_of(near);
    let d_mid1 = depth_of(-fxi(1));
    let d_mid2 = depth_of(-fxi(10));
    let d_far = depth_of(far);
    // Near maps close to (near-far-1)/(2(near-far)), far to its mirror.
    assert!((d_near - 32113).abs() <= 300);
    assert!((d_far + 33425).abs() <= 300);
    assert!(d_near > d_mid1);
    assert!(d_mid1 > d_mid2);
    assert!(d_mid2 > d_far);
}

#[test]
fn setters_leave_other_state() {
    let mut r = Rasterizer::new();
    let m = get_model_matrix(fxi(45));
    r.set_model(m);
    assert_eq!(r.model, m);
    assert_eq!(r.view, Mat4x4::identity());
    r.set_eye_pos(Vector3::new_3(0, 0, fxi(2)));
    assert_eq!(r.get_eye_pos().z, fxi(2));
    assert_eq!(r.get_lights().len(), 0);
}
