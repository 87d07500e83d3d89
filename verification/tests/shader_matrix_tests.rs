use orbit_render::assembler::assemble_triangles;
use orbit_render::fixed::{fx_cbrt, fx_sqrt, FX_ONE, FX_PI};
use orbit_render::matrix::{
    create_projection_matrix, create_view_matrix, create_viewport_matrix, transform,
};
use orbit_render::raster::Fragment;
use orbit_render::shader::{fragment_shader, Material, Uniforms};
use orbit_render::vec3::Vec3;

#[test]
fn shader_all_layers_off_is_normalize_clamp_gamma() {
    // The base color (0.25, 0.5, 1.0) passes through unchanged but
    // for the gamma: 20642, 36779, 65536 in Q16.16.
    let frag = Fragment::new(3, 4, Vec3::new(FX_ONE / 4, FX_ONE / 2, FX_ONE), 0);
    let u = Uniforms { time: 0, res_x: 16 * FX_ONE, res_y: 16 * FX_ONE };
    let mat = Material::rocky();
    let out = fragment_shader(&frag, &u, (false, false, false, false), &mat);
    assert_eq!(out, Vec3::new(20642, 36779, 65536));
}

#[test]
fn shader_rescales_byte_colors_defensively() {
    // A component above one means a 0..255-scale color leaked in:
    // every channel is divided by 255 before clamping and gamma.
    let frag = Fragment::new(0, 0, Vec3::new(2 * FX_ONE, FX_ONE, 0), 0);
    let u = Uniforms { time: 0, res_x: 16 * FX_ONE, res_y: 16 * FX_ONE };
    let mat = Material::star();
    let out = fragment_shader(&frag, &u, (false, false, false, false), &mat);
    assert_eq!(out, Vec3::new(1152, 646, 0));
}

#[test]
fn shader_layers_are_deterministic() {
    let frag = Fragment::new(7, 9, Vec3::new(FX_ONE / 2, FX_ONE / 2, FX_ONE / 2), 0);
    let u = Uniforms { time: 123456, res_x: 32 * FX_ONE, res_y: 32 * FX_ONE };
    for mat in [
        Material::rocky(),
        Material::gaseous(),
        Material::ring(),
        Material::star(),
        Material::moon(),
    ] {
        let a = fragment_shader(&frag, &u, (true, true, true, true), &mat);
        let b = fragment_shader(&frag, &u, (true, true, true, true), &mat);
        assert_eq!(a, b);
        assert!(0 <= a.x && a.x <= FX_ONE);
        assert!(0 <= a.y && a.y <= FX_ONE);
        assert!(0 <= a.z && a.z <= FX_ONE);
    }
}

#[test]
fn gamma_follows_the_five_sixths_power() {
    // x^(1/1.2) == sqrt(x) * cbrt(x): spot values.
    assert_eq!(fx_sqrt(FX_ONE), FX_ONE);
    assert_eq!(fx_cbrt(FX_ONE), FX_ONE);
    assert_eq!(fx_sqrt(0), 0);
    assert_eq!(fx_cbrt(0), 0);
}

#[test]
fn assembler_drops_trailing_vertices() {
    let v: Vec<Vec3> = (0..7).map(|i| Vec3::new(i * FX_ONE, 0, 0)).collect();
    let tris = assemble_triangles(&v);
    assert_eq!(tris.len(), 2);
    assert_eq!(tris[0].a, v[0]);
    assert_eq!(tris[0].b, v[1]);
    assert_eq!(tris[0].c, v[2]);
    assert_eq!(tris[1].a, v[3]);
    assert_eq!(tris[1].b, v[4]);
    assert_eq!(tris[1].c, v[5]);
}

#[test]
fn camera_eye_is_flagged_behind() {
    // Transforming the camera's own eye point through view and
    // projection gives a homogeneous weight of zero: not in front,
    // so the transform discards it.
    let eye = Vec3::new(0, 0, 50 * FX_ONE);
    let target = Vec3::new(0, 0, 0);
    let up = Vec3::new(0, FX_ONE, 0);
    let view = create_view_matrix(eye, target, up).unwrap();
    let proj = create_projection_matrix(FX_PI / 3, FX_ONE * 13 / 6, FX_ONE / 2, 100 * FX_ONE)
        .unwrap();
    let viewport = create_viewport_matrix(0, 0, 1300 * FX_ONE, 600 * FX_ONE);
    let r = transform(
        eye,
        Vec3::new(0, 0, 0),
        FX_ONE,
        Vec3::new(0, 0, 0),
        &view,
        &proj,
        &viewport,
    );
    assert!(r.is_none());
}

#[test]
fn points_ahead_of_the_camera_land_near_the_center() {
    // A point dead ahead of a symmetric frustum projects to the
    // viewport center.
    let eye = Vec3::new(0, 0, 50 * FX_ONE);
    let target = Vec3::new(0, 0, 0);
    let up = Vec3::new(0, FX_ONE, 0);
    let view = create_view_matrix(eye, target, up).unwrap();
    let proj = create_projection_matrix(FX_PI / 3, FX_ONE, FX_ONE / 2, 100 * FX_ONE).unwrap();
    let viewport = create_viewport_matrix(0, 0, 600 * FX_ONE, 600 * FX_ONE);
    let r = transform(
        Vec3::new(0, 0, 0),
        Vec3::new(0, 0, 0),
        FX_ONE,
        Vec3::new(0, 0, 0),
        &view,
        &proj,
        &viewport,
    )
    .unwrap();
    // x and y are within one pixel of the center (300, 300).
    assert!((r.x - 300 * FX_ONE).abs() <= FX_ONE, "x {}", r.x);
    assert!((r.y - 300 * FX_ONE).abs() <= FX_ONE, "y {}", r.y);
}

#[test]
fn material_presets_hold_their_exact_constants() {
    // The presets are constants; a few distinguishing knobs, checked
    // against their Q16.16 values (0.6, 0.25, 0.06 and so on).
    let rocky = Material::rocky();
    assert_eq!(rocky.fbm_octaves, 5);
    assert_eq!(rocky.pal_mix_radius, 39322);
    assert_eq!(rocky.accent_strength, 16384);
    assert_eq!(rocky.scan_intensity, 3932);
    assert_eq!(rocky.bloom_strength, 5243);
    assert_eq!(rocky.pal1_a, Vec3::new(36045, 29491, 26214));
    assert_eq!(
        rocky.rings_weight + rocky.stripes_weight + rocky.checker_weight,
        9830 + 6554 + 3277
    );

    let gaseous = Material::gaseous();
    assert_eq!(gaseous.fbm_octaves, 4);
    assert_eq!(gaseous.fbm_gain, 36045);
    assert_eq!(gaseous.pal_mix_radius, 58982);
    assert_eq!(gaseous.accent_strength, 22938);
    assert_eq!(
        gaseous.rings_weight + gaseous.stripes_weight + gaseous.checker_weight,
        FX_ONE
    );

    let ring = Material::ring();
    assert_eq!(ring.rings_speed, 0);
    assert_eq!(ring.fbm_time, 0);
    assert_eq!(ring.fbm_octaves, 3);
    assert_eq!(ring.accent_strength, 7864);

    let star = Material::star();
    assert_eq!(star.rings_weight, 0);
    assert_eq!(star.stripes_weight, 0);
    assert_eq!(star.checker_weight, 0);
    assert_eq!(star.bloom_strength, 22938);

    let moon = Material::moon();
    assert_eq!(moon.fbm_octaves, 5);
    assert_eq!(moon.accent, Vec3::new(22938, 22938, 22938));
}
