use orbit_render::displace::VertexShader;
use orbit_render::fixed::{FX_HALF_PI, FX_ONE};
use orbit_render::motion::{update_pass1, update_pass2, Entity, Motion};
use orbit_render::noise::{fbm3, value_noise3};
use orbit_render::vec3::Vec3;

fn entity(name: &str, motion: Motion) -> Entity {
    Entity {
        name: name.to_string(),
        translation: Vec3::new(0, 0, 0),
        rotation: Vec3::new(0, 0, 0),
        scale: FX_ONE,
        motion,
        vertices: Vec::new(),
        vshader: VertexShader::Identity,
    }
}

#[test]
fn fbm_single_octave_equals_base_noise() {
    let points = [
        Vec3::new(12345, -98765, 4444),
        Vec3::new(0, 0, 0),
        Vec3::new(7 * FX_ONE + 11, -3 * FX_ONE - 5, FX_ONE / 3),
    ];
    for p in points.iter() {
        let base = value_noise3(*p);
        let one = fbm3(*p, 1, 2 * FX_ONE, FX_ONE / 2);
        assert_eq!(one, base);
    }
}

#[test]
fn fbm_is_deterministic() {
    let p = Vec3::new(31415, -92653, 58979);
    let a = fbm3(p, 5, 2 * FX_ONE, FX_ONE / 2);
    let b = fbm3(p, 5, 2 * FX_ONE, FX_ONE / 2);
    assert_eq!(a, b);
    assert!(-FX_ONE <= a && a <= FX_ONE);
}

#[test]
fn orbit_positions_at_quarter_turns() {
    // radius 5, speed 1, phase 0: at time 0 the translation is
    // (5, 0, 0); at time pi/2 it is (0, 0, 5), exactly, because the
    // library's sine is exact at quarter turns.
    let orbit = Motion::Orbit {
        center: Vec3::new(0, 0, 0),
        radius: 5 * FX_ONE,
        angular_speed: FX_ONE,
        phase: 0,
    };
    let mut entities = vec![entity("planet", orbit.clone())];
    update_pass1(&mut entities, 0);
    assert_eq!(entities[0].translation, Vec3::new(5 * FX_ONE, 0, 0));

    let mut entities2 = vec![entity("planet", orbit)];
    update_pass1(&mut entities2, FX_HALF_PI);
    assert_eq!(entities2[0].translation, Vec3::new(0, 0, 5 * FX_ONE));
}

#[test]
fn zero_radius_child_follows_parent() {
    for time in [0i64, 12345, FX_HALF_PI, -70000] {
        let mut entities = vec![
            entity(
                "parent",
                Motion::Orbit {
                    center: Vec3::new(FX_ONE, 2 * FX_ONE, 3 * FX_ONE),
                    radius: 4 * FX_ONE,
                    angular_speed: 3 * FX_ONE,
                    phase: 7777,
                },
            ),
            entity(
                "child",
                Motion::OrbitAround {
                    parent: "parent".to_string(),
                    radius: 0,
                    angular_speed: 5 * FX_ONE,
                    phase: 999,
                },
            ),
        ];
        update_pass1(&mut entities, time);
        update_pass2(&mut entities, time);
        assert_eq!(entities[1].translation, entities[0].translation);
    }
}

#[test]
fn unresolved_parent_leaves_entity_unchanged() {
    let mut entities = vec![entity(
        "lonely",
        Motion::OrbitAround {
            parent: "nobody".to_string(),
            radius: 2 * FX_ONE,
            angular_speed: FX_ONE,
            phase: 0,
        },
    )];
    update_pass1(&mut entities, 55555);
    update_pass2(&mut entities, 55555);
    assert_eq!(entities[0].translation, Vec3::new(0, 0, 0));
    assert_eq!(entities[0].rotation, Vec3::new(0, 0, 0));
}

#[test]
fn static_entity_never_moves() {
    let mut entities = vec![entity("ship", Motion::Static)];
    update_pass1(&mut entities, 98765);
    update_pass2(&mut entities, 98765);
    assert_eq!(entities[0].translation, Vec3::new(0, 0, 0));
}
