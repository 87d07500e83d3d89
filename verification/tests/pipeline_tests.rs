use orbit_render::displace::VertexShader;
use orbit_render::fixed::FX_ONE;
use orbit_render::framebuffer::{Framebuffer, DEPTH_FAR};
use orbit_render::matrix::{Mat4, Vec4};
use orbit_render::pipeline::render;
use orbit_render::raster::triangle;
use orbit_render::shader::{Material, Uniforms};
use orbit_render::vec3::Vec3;

fn fx(v: i64) -> i64 {
    v * FX_ONE
}

#[test]
fn raster_covers_exactly_the_claimed_pixels() {
    // A triangle over the pixel square from (10, 10) to (12, 12):
    // exactly the pixels with all weights on the triangle's side,
    // boundaries admitted only by the top-left rule (the hypotenuse
    // and its endpoints stay out).
    let a = Vec3::new(fx(10), fx(10), 0);
    let b = Vec3::new(fx(12), fx(10), 0);
    let c = Vec3::new(fx(10), fx(12), 0);
    let col = Vec3::new(FX_ONE, 0, 0);
    let frags = triangle(&a, &b, &c, col, col, col);
    let mut got: Vec<(i64, i64)> = frags.iter().map(|f| (f.x, f.y)).collect();
    got.sort();
    let mut expect = vec![(10, 10), (10, 11), (11, 10)];
    expect.sort();
    assert_eq!(got, expect);
    for f in frags.iter() {
        assert_eq!(f.color, col);
    }
}

#[test]
fn raster_never_double_covers_a_shared_edge() {
    // A square split along its diagonal into two triangles of one
    // winding: no pixel appears in both outputs, and together they
    // tile the square exactly — 10 + 6 = 16 pixels, once each.
    let a = Vec3::new(0, 0, 0);
    let b = Vec3::new(fx(4), 0, 0);
    let c = Vec3::new(0, fx(4), 0);
    let d = Vec3::new(fx(4), fx(4), 0);
    let col = Vec3::new(FX_ONE, FX_ONE, FX_ONE);
    let f1 = triangle(&a, &b, &c, col, col, col);
    let f2 = triangle(&b, &d, &c, col, col, col);
    let s1: Vec<(i64, i64)> = f1.iter().map(|f| (f.x, f.y)).collect();
    let s2: Vec<(i64, i64)> = f2.iter().map(|f| (f.x, f.y)).collect();
    assert_eq!(s1.len(), 10);
    assert_eq!(s2.len(), 6);
    for p in s1.iter() {
        assert!(!s2.contains(p), "double cover at {:?}", p);
    }
    let mut union: Vec<(i64, i64)> = s1.iter().chain(s2.iter()).cloned().collect();
    union.sort();
    union.dedup();
    assert_eq!(union.len(), 16);
}

#[test]
fn raster_shared_edge_of_opposite_halves_is_claimed_once() {
    // The split the tie-break is named for: triangles above and
    // below the edge from (0,0) to (2,0), consistent winding. The
    // upper triangle keeps its bottom row; the lower one gives the
    // same row up.
    let a = Vec3::new(0, 0, 0);
    let b = Vec3::new(fx(2), 0, 0);
    let c = Vec3::new(0, fx(2), 0);
    let d = Vec3::new(fx(2), -fx(2), 0);
    let col = Vec3::new(FX_ONE, FX_ONE, FX_ONE);
    let upper = triangle(&a, &b, &c, col, col, col);
    let lower = triangle(&b, &a, &d, col, col, col);
    let mut s1: Vec<(i64, i64)> = upper.iter().map(|f| (f.x, f.y)).collect();
    let mut s2: Vec<(i64, i64)> = lower.iter().map(|f| (f.x, f.y)).collect();
    s1.sort();
    s2.sort();
    assert_eq!(s1, vec![(0, 0), (0, 1), (1, 0)]);
    assert_eq!(s2, vec![(1, -1)]);
}

#[test]
fn raster_degenerate_triangle_covers_nothing() {
    let a = Vec3::new(fx(1), fx(1), 0);
    let b = Vec3::new(fx(5), fx(5), 0);
    let c = Vec3::new(fx(9), fx(9), 0);
    let col = Vec3::new(FX_ONE, 0, 0);
    let frags = triangle(&a, &b, &c, col, col, col);
    assert_eq!(frags.len(), 0);
}

#[test]
fn raster_interpolates_depth_between_vertices() {
    let a = Vec3::new(fx(0), fx(0), 0);
    let b = Vec3::new(fx(8), fx(0), FX_ONE);
    let c = Vec3::new(fx(0), fx(8), 0);
    let col = Vec3::new(FX_ONE, 0, 0);
    let frags = triangle(&a, &b, &c, col, col, col);
    let mut seen_corner = false;
    let mut seen_mid = false;
    for f in frags.iter() {
        if f.x == 0 && f.y == 0 {
            assert_eq!(f.depth, 0);
            seen_corner = true;
        }
        if f.x == 4 && f.y == 0 {
            assert_eq!(f.depth, FX_ONE / 2);
            seen_mid = true;
        }
    }
    assert!(seen_corner && seen_mid);
}

#[test]
fn depth_test_keeps_the_nearer_fragment_either_order() {
    // NDC depths -0.5 and 0.2 at one pixel: the smaller depth wins
    // regardless of write order.
    let near = -FX_ONE / 2;
    let far = 13107;
    let c_near = Vec3::new(FX_ONE, 0, 0);
    let c_far = Vec3::new(0, FX_ONE, 0);

    let mut fb = Framebuffer::new(4, 4, Vec3::new(0, 0, 0));
    fb.set_current_color(c_near);
    fb.set_pixel(1, 1, near);
    fb.set_current_color(c_far);
    fb.set_pixel(1, 1, far);
    assert_eq!(fb.colors[1 * 4 + 1], c_near);
    assert_eq!(fb.depths[1 * 4 + 1], near);

    let mut fb2 = Framebuffer::new(4, 4, Vec3::new(0, 0, 0));
    fb2.set_current_color(c_far);
    fb2.set_pixel(1, 1, far);
    fb2.set_current_color(c_near);
    fb2.set_pixel(1, 1, near);
    assert_eq!(fb2.colors[1 * 4 + 1], c_near);
    assert_eq!(fb2.depths[1 * 4 + 1], near);
}

#[test]
fn framebuffer_drops_out_of_bounds_writes() {
    let mut fb = Framebuffer::new(4, 4, Vec3::new(0, 0, 0));
    fb.set_current_color(Vec3::new(FX_ONE, 0, 0));
    fb.set_pixel(-1, 2, 0);
    fb.set_pixel(2, -1, 0);
    fb.set_pixel(4, 0, 0);
    fb.set_pixel(0, 4, 0);
    for i in 0..16 {
        assert_eq!(fb.colors[i], Vec3::new(0, 0, 0));
        assert_eq!(fb.depths[i], DEPTH_FAR);
    }
}

#[test]
fn end_to_end_flat_triangle_fills_its_pixels() {
    // One flat-shaded triangle over pixels (0,0)-(10,0)-(0,10), all
    // shader layers off, empty depth buffer: the covered pixels hold
    // exactly the (normalized, clamped, gamma-corrected) base color.
    let a = Vec3::new(fx(0), fx(0), 0);
    let b = Vec3::new(fx(10), fx(0), 0);
    let c = Vec3::new(fx(0), fx(10), 0);
    let white = Vec3::new(FX_ONE, FX_ONE, FX_ONE);
    let bg = Vec3::new(0, 0, 0);
    let frags = triangle(&a, &b, &c, white, white, white);
    assert_eq!(frags.len(), 55);
    let u = orbit_render::shader::Uniforms { time: 0, res_x: fx(16), res_y: fx(16) };
    let mat = orbit_render::shader::Material::moon();
    let mut fb = Framebuffer::new(16, 16, bg);
    for f in frags.iter() {
        let color = orbit_render::shader::fragment_shader(f, &u, (false, false, false, false), &mat);
        fb.set_current_color(color);
        fb.set_pixel(f.x, f.y, f.depth);
    }
    // gamma(1.0) == 1.0 exactly, so covered pixels stay pure white;
    // the hypotenuse row x + y == 10 stays out under the tie-break.
    for y in 0i64..16 {
        for x in 0i64..16 {
            let idx = (y * 16 + x) as usize;
            if x + y <= 9 {
                assert_eq!(fb.colors[idx], white, "pixel {} {}", x, y);
            } else {
                assert_eq!(fb.colors[idx], bg, "pixel {} {}", x, y);
            }
        }
    }
}

#[test]
fn render_writes_the_shaded_triangle_through_the_depth_test() {
    // The whole pass through `render`: identity view, projection and
    // viewport matrices pass the object-space triangle straight
    // through to pixels (0,0)-(10,0)-(0,10) at depth 0. All layers
    // off, so covered pixels take the gamma-corrected base color —
    // pure white stays pure white — and nothing else is touched.
    let ident = Mat4 {
        r0: Vec4 { x: FX_ONE, y: 0, z: 0, w: 0 },
        r1: Vec4 { x: 0, y: FX_ONE, z: 0, w: 0 },
        r2: Vec4 { x: 0, y: 0, z: FX_ONE, w: 0 },
        r3: Vec4 { x: 0, y: 0, z: 0, w: FX_ONE },
    };
    let white = Vec3::new(FX_ONE, FX_ONE, FX_ONE);
    let bg = Vec3::new(0, 0, 0);
    let mut fb = Framebuffer::new(16, 16, bg);
    let vertices = vec![
        Vec3::new(0, 0, 0),
        Vec3::new(fx(10), 0, 0),
        Vec3::new(0, fx(10), 0),
    ];
    let u = Uniforms { time: 0, res_x: fx(16), res_y: fx(16) };
    let mat = Material::moon();
    render(
        &mut fb,
        Vec3::new(0, 0, 0),
        FX_ONE,
        Vec3::new(0, 0, 0),
        &vertices,
        &ident,
        &ident,
        &ident,
        &u,
        &VertexShader::Identity,
        (false, false, false, false),
        &mat,
        white,
    );
    for y in 0i64..16 {
        for x in 0i64..16 {
            let idx = (y * 16 + x) as usize;
            if x + y <= 9 {
                assert_eq!(fb.colors[idx], white, "pixel {} {}", x, y);
                assert_eq!(fb.depths[idx], 0, "depth {} {}", x, y);
            } else {
                assert_eq!(fb.colors[idx], bg, "pixel {} {}", x, y);
                assert_eq!(fb.depths[idx], DEPTH_FAR, "depth {} {}", x, y);
            }
        }
    }
}

#[test]
fn render_skips_an_entity_with_a_vertex_behind_the_eye() {
    // One vertex gets a non-positive homogeneous weight, so the whole
    // entity is skipped for the frame and no pixel changes.
    let ident = Mat4 {
        r0: Vec4 { x: FX_ONE, y: 0, z: 0, w: 0 },
        r1: Vec4 { x: 0, y: FX_ONE, z: 0, w: 0 },
        r2: Vec4 { x: 0, y: 0, z: FX_ONE, w: 0 },
        r3: Vec4 { x: 0, y: 0, z: 0, w: FX_ONE },
    };
    // A projection whose weight row reads negated depth: a vertex at
    // z == 0 gets weight 0 and is discarded.
    let proj = Mat4 {
        r0: Vec4 { x: FX_ONE, y: 0, z: 0, w: 0 },
        r1: Vec4 { x: 0, y: FX_ONE, z: 0, w: 0 },
        r2: Vec4 { x: 0, y: 0, z: FX_ONE, w: 0 },
        r3: Vec4 { x: 0, y: 0, z: -FX_ONE, w: 0 },
    };
    let white = Vec3::new(FX_ONE, FX_ONE, FX_ONE);
    let bg = Vec3::new(0, 0, 0);
    let mut fb = Framebuffer::new(8, 8, bg);
    let vertices = vec![
        Vec3::new(0, 0, -fx(1)),
        Vec3::new(fx(4), 0, -fx(1)),
        Vec3::new(0, fx(4), 0),
    ];
    let u = Uniforms { time: 0, res_x: fx(8), res_y: fx(8) };
    let mat = Material::rocky();
    render(
        &mut fb,
        Vec3::new(0, 0, 0),
        FX_ONE,
        Vec3::new(0, 0, 0),
        &vertices,
        &ident,
        &proj,
        &ident,
        &u,
        &VertexShader::Identity,
        (false, false, false, false),
        &mat,
        white,
    );
    for i in 0..64 {
        assert_eq!(fb.colors[i], bg);
        assert_eq!(fb.depths[i], DEPTH_FAR);
    }
}
