use mini3d::edge_equation::{draw_trangle_edge_equation, draw_trangle_edge_equation_result};
use mini3d::fx::FX_ONE;
use mini3d::light::Light;
use mini3d::rasterizer::Rasterizer;
use mini3d::texture::Texture;
use mini3d::triangle::{RenderType, Triangle};
use mini3d::vector::{Color3, Vector2, Vector3, Vector4};

fn fxi(v: i64) -> i64 {
    v * FX_ONE
}

fn frame(w: usize, h: usize) -> (Vec<u8>, Vec<i64>) {
    let mut image: Vec<u8> = Vec::new();
    for _ in 0..w * h {
        image.push(0);
        image.push(0);
        image.push(0);
        image.push(255);
    }
    let zbuf: Vec<i64> = vec![-fxi(51); w * h];
    (image, zbuf)
}

fn flat_triangle(
    s0: (i64, i64),
    s1: (i64, i64),
    s2: (i64, i64),
    view_z: i64,
    color: (i64, i64, i64),
) -> Triangle {
    let mut t = Triangle::new();
    t.set_vertexs(vec![
        Vector4::new_4(fxi(s0.0), fxi(s0.1), 0, FX_ONE),
        Vector4::new_4(fxi(s1.0), fxi(s1.1), 0, FX_ONE),
        Vector4::new_4(fxi(s2.0), fxi(s2.1), 0, FX_ONE),
    ]);
    t.set_tvetexs(vec![
        Vector4::new_4(-FX_ONE, -FX_ONE, view_z, FX_ONE),
        Vector4::new_4(FX_ONE, -FX_ONE, view_z, FX_ONE),
        Vector4::new_4(0, FX_ONE, view_z, FX_ONE),
    ]);
    t.set_colors(vec![
        Color3::new_3(color.0, color.1, color.2),
        Color3::new_3(color.0, color.1, color.2),
        Color3::new_3(color.0, color.1, color.2),
    ]);
    t.set_render_type(RenderType::Color);
    t
}

// Concrete scenario: a unit triangle in view space mapped to screen
// (0,511), (511,511), (255,0) on a 512x512 target, flat red; the centroid
// pixel is red and the corner pixel keeps the background.
#[test]
fn flat_red_triangle_centroid_and_corner() {
    let rast = Rasterizer::new();
    let textures: Vec<Texture> = Vec::new();
    let mut t = Triangle::new();
    t.set_vertexs(vec![
        Vector4::new_4(0, fxi(511), 0, FX_ONE),
        Vector4::new_4(fxi(511), fxi(511), 0, FX_ONE),
        Vector4::new_4(fxi(255), 0, 0, FX_ONE),
    ]);
    t.set_tvetexs(vec![
        Vector4::new_4(-FX_ONE, -FX_ONE, 0, FX_ONE),
        Vector4::new_4(FX_ONE, -FX_ONE, 0, FX_ONE),
        Vector4::new_4(0, FX_ONE, 0, FX_ONE),
    ]);
    t.set_colors(vec![
        Color3::new_3(FX_ONE, 0, 0),
        Color3::new_3(FX_ONE, 0, 0),
        Color3::new_3(FX_ONE, 0, 0),
    ]);
    t.set_render_type(RenderType::Color);
    let (mut image, mut zbuf) = frame(512, 512);
    draw_trangle_edge_equation(&mut image, &rast, &mut zbuf, 512, 512, &t, &textures);
    let centroid = (341 * 512 + 255) * 4;
    assert_eq!(image[centroid], 255);
    assert_eq!(image[centroid + 1], 0);
    assert_eq!(image[centroid + 2], 0);
    assert_eq!(image[centroid + 3], 255);
    assert_eq!(image[0], 0);
    assert_eq!(image[1], 0);
    assert_eq!(image[2], 0);
    assert_eq!(image[3], 255);
    assert_eq!(zbuf[0], -fxi(51));
}

// Rasterizing one non-degenerate triangle over a far-seeded z-buffer
// writes interior pixels with a depth nearer than the sentinel and leaves
// exterior pixels untouched.
#[test]
fn single_triangle_depth_and_exterior() {
    let rast = Rasterizer::new();
    let textures: Vec<Texture> = Vec::new();
    let t = flat_triangle((0, 0), (511, 0), (255, 511), -fxi(1), (FX_ONE, FX_ONE, FX_ONE));
    let (mut image, mut zbuf) = frame(512, 512);
    draw_trangle_edge_equation(&mut image, &rast, &mut zbuf, 512, 512, &t, &textures);
    let interior = 200 * 512 + 255;
    assert!(zbuf[interior] > -fxi(51));
    assert_eq!(image[interior * 4], 255);
    let exterior = 500 * 512 + 0;
    assert_eq!(zbuf[exterior], -fxi(51));
    assert_eq!(image[exterior * 4], 0);
}

// Two overlapping opaque triangles: the z-test, not the submission order,
// decides the contested pixels.
#[test]
fn nearer_triangle_wins_either_order() {
    let rast = Rasterizer::new();
    let textures: Vec<Texture> = Vec::new();
    let far_green = flat_triangle((0, 0), (511, 0), (255, 511), -fxi(2), (0, FX_ONE, 0));
    let near_red = flat_triangle((0, 0), (511, 0), (255, 511), -fxi(1), (FX_ONE, 0, 0));
    let p = (200 * 512 + 255) * 4;

    let (mut image, mut zbuf) = frame(512, 512);
    draw_trangle_edge_equation(&mut image, &rast, &mut zbuf, 512, 512, &far_green, &textures);
    draw_trangle_edge_equation(&mut image, &rast, &mut zbuf, 512, 512, &near_red, &textures);
    assert_eq!(image[p], 255);
    assert_eq!(image[p + 1], 0);

    let (mut image2, mut zbuf2) = frame(512, 512);
    draw_trangle_edge_equation(&mut image2, &rast, &mut zbuf2, 512, 512, &near_red, &textures);
    draw_trangle_edge_equation(&mut image2, &rast, &mut zbuf2, 512, 512, &far_green, &textures);
    assert_eq!(image2[p], 255);
    assert_eq!(image2[p + 1], 0);
}

// At exactly equal depths the last submitted triangle wins the pixel.
#[test]
fn equal_depth_last_writer_wins() {
    let rast = Rasterizer::new();
    let textures: Vec<Texture> = Vec::new();
    let red = flat_triangle((0, 0), (511, 0), (255, 511), -fxi(1), (FX_ONE, 0, 0));
    let blue = flat_triangle((0, 0), (511, 0), (255, 511), -fxi(1), (0, 0, FX_ONE));
    let p = (200 * 512 + 255) * 4;
    let (mut image, mut zbuf) = frame(512, 512);
    draw_trangle_edge_equation(&mut image, &rast, &mut zbuf, 512, 512, &red, &textures);
    draw_trangle_edge_equation(&mut image, &rast, &mut zbuf, 512, 512, &blue, &textures);
    assert_eq!(image[p], 0);
    assert_eq!(image[p + 2], 255);
}

// Texture sampling at (0,0) returns the first texel; at (1,1) the last,
// under the clamp policy, never an out-of-bounds read.
#[test]
fn texture_sampling_corners() {
    let a = Color3::new_3(FX_ONE, 0, 0);
    let b = Color3::new_3(0, FX_ONE, 0);
    let c = Color3::new_3(0, 0, FX_ONE);
    let d = Color3::new_3(FX_ONE, FX_ONE, 0);
    let tex = Texture::new(0, 2, 2, vec![a, b, c, d]);
    assert_eq!(tex.sample(0, 0), a);
    assert_eq!(tex.sample(FX_ONE, FX_ONE), d);
    assert_eq!(tex.sample(-fxi(3), -fxi(3)), a);
    assert_eq!(tex.sample(fxi(7), fxi(7)), d);
    assert_eq!(tex.sample(FX_ONE, 0), b);
    assert_eq!(tex.sample(0, FX_ONE), c);
}

// A textured triangle samples its bound texture for the base color.
#[test]
fn textured_triangle_uses_texture() {
    let rast = Rasterizer::new();
    let red = Color3::new_3(FX_ONE, 0, 0);
    let tex = Texture::new(0, 2, 2, vec![red, red, red, red]);
    let textures = vec![tex];
    let mut t = flat_triangle((0, 0), (511, 0), (255, 511), -fxi(1), (0, FX_ONE, 0));
    t.set_tex_coords(vec![
        Vector2::new_2(0, 0),
        Vector2::new_2(FX_ONE, 0),
        Vector2::new_2(0, FX_ONE),
    ]);
    t.set_render_type(RenderType::Texture);
    let (mut image, mut zbuf) = frame(512, 512);
    draw_trangle_edge_equation(&mut image, &rast, &mut zbuf, 512, 512, &t, &textures);
    let p = (200 * 512 + 255) * 4;
    assert_eq!(image[p], 255);
    assert_eq!(image[p + 1], 0);
}

// The result-list entry point reports the same covered pixels without
// touching any buffer: entries are strictly increasing and match the
// direct-write path.
#[test]
fn result_list_matches_direct_write() {
    let rast = Rasterizer::new();
    let textures: Vec<Texture> = Vec::new();
    let t = flat_triangle((10, 10), (40, 10), (10, 40), -fxi(1), (FX_ONE, 0, 0));
    let res = draw_trangle_edge_equation_result(&rast, 64, 64, &t, &textures);
    assert!(res.len() > 0);
    let (mut image, mut zbuf) = frame(64, 64);
    draw_trangle_edge_equation(&mut image, &rast, &mut zbuf, 64, 64, &t, &textures);
    let mut last: i32 = -1;
    for e in res.iter() {
        assert!(e.idx > last);
        last = e.idx;
        let i = e.idx as usize;
        assert_eq!(image[i * 4], e.r);
        assert_eq!(image[i * 4 + 1], e.g);
        assert_eq!(image[i * 4 + 2], e.b);
        assert_eq!(zbuf[i], e.z);
    }
}

// A lit triangle with a light straight ahead comes out brighter than the
// pure ambient term.
#[test]
fn phong_lighting_brightens() {
    let mut rast = Rasterizer::new();
    rast.set_eye_pos(Vector3::new_3(0, 0, fxi(2)));
    rast.set_lights(vec![Light::new(
        Vector3::new_3(0, 0, fxi(2)),
        Color3::new_3(FX_ONE, FX_ONE, FX_ONE),
    )]);
    let textures: Vec<Texture> = Vec::new();
    let mut t = flat_triangle((0, 0), (511, 0), (255, 511), -fxi(1), (FX_ONE, FX_ONE, FX_ONE));
    // Give the triangle view-space extent so the face normal is well formed.
    t.set_tvetexs(vec![
        Vector4::new_4(-FX_ONE, -FX_ONE, -fxi(1), FX_ONE),
        Vector4::new_4(FX_ONE, -FX_ONE, -fxi(1), FX_ONE),
        Vector4::new_4(0, FX_ONE, -fxi(1), FX_ONE),
    ]);
    t.set_render_type(RenderType::ColorLight);
    let (mut image, mut zbuf) = frame(512, 512);
    draw_trangle_edge_equation(&mut image, &rast, &mut zbuf, 512, 512, &t, &textures);
    let p = (200 * 512 + 255) * 4;
    // Ambient alone would give about a tenth of full brightness.
    assert!(image[p] > 40);
}

// A pixel whose sample lies exactly on an edge shared by two adjacent
// triangles is written by exactly one of them, whichever order they are
// submitted in: the top-left tie-break, not submission order, owns it.
#[test]
fn shared_edge_pixel_owned_by_exactly_one() {
    let rast = Rasterizer::new();
    let textures: Vec<Texture> = Vec::new();
    let xm = 100 * FX_ONE + FX_ONE / 2;
    let ya = FX_ONE / 2;
    let yb = 200 * FX_ONE + FX_ONE / 2;
    let ym = 100 * FX_ONE + FX_ONE / 2;
    let make = |third_x: i64, color: (i64, i64, i64)| -> Triangle {
        let mut t = Triangle::new();
        t.set_vertexs(vec![
            Vector4::new_4(xm, ya, 0, FX_ONE),
            Vector4::new_4(xm, yb, 0, FX_ONE),
            Vector4::new_4(third_x, ym, 0, FX_ONE),
        ]);
        t.set_tvetexs(vec![
            Vector4::new_4(-FX_ONE, -FX_ONE, -FX_ONE, FX_ONE),
            Vector4::new_4(FX_ONE, -FX_ONE, -FX_ONE, FX_ONE),
            Vector4::new_4(0, FX_ONE, -FX_ONE, FX_ONE),
        ]);
        t.set_colors(vec![
            Color3::new_3(color.0, color.1, color.2),
            Color3::new_3(color.0, color.1, color.2),
            Color3::new_3(color.0, color.1, color.2),
        ]);
        t.set_render_type(RenderType::Color);
        t
    };
    let left_red = make(FX_ONE / 2, (FX_ONE, 0, 0));
    let right_blue = make(200 * FX_ONE + FX_ONE / 2, (0, 0, FX_ONE));
    // The center of pixel (100, 100) lies exactly on the shared edge.
    let p = (100 * 256 + 100) * 4;

    let (mut image, mut zbuf) = frame(256, 256);
    draw_trangle_edge_equation(&mut image, &rast, &mut zbuf, 256, 256, &left_red, &textures);
    draw_trangle_edge_equation(&mut image, &rast, &mut zbuf, 256, 256, &right_blue, &textures);
    let first_order = (image[p], image[p + 1], image[p + 2]);

    let (mut image2, mut zbuf2) = frame(256, 256);
    draw_trangle_edge_equation(&mut image2, &rast, &mut zbuf2, 256, 256, &right_blue, &textures);
    draw_trangle_edge_equation(&mut image2, &rast, &mut zbuf2, 256, 256, &left_red, &textures);
    let second_order = (image2[p], image2[p + 1], image2[p + 2]);

    // Written (not background), and by the same triangle either way: the
    // shared edge descends for the right triangle's interior, so the right
    // (blue) triangle owns the boundary pixel.
    assert_eq!(first_order, (0, 0, 255));
    assert_eq!(second_order, (0, 0, 255));
    // Strict interiors on either side keep their own triangle's color.
    let left_p = (100 * 256 + 99) * 4;
    let right_p = (100 * 256 + 101) * 4;
    assert_eq!(image[left_p], 255);
    assert_eq!(image[right_p + 2], 255);
}

// A degenerate (zero-area) triangle contributes no pixels.
#[test]
fn degenerate_triangle_draws_nothing() {
    let rast = Rasterizer::new();
    let textures: Vec<Texture> = Vec::new();
    let t = flat_triangle((100, 100), (100, 100), (100, 100), -fxi(1), (FX_ONE, 0, 0));
    let (mut image, mut zbuf) = frame(128, 128);
    let before = image.clone();
    draw_trangle_edge_equation(&mut image, &rast, &mut zbuf, 128, 128, &t, &textures);
    assert_eq!(image, before);
}
