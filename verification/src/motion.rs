//! The entity motion system: a per-frame, two-pass update of every
//! entity's translation and yaw.
//!
//! The first pass places world-anchored orbits; the second places
//! entities that orbit another entity, resolving the parent by name
//! against the entity list and reading its translation as it stands
//! when the child is reached — a parent that is itself updated later
//! in the second pass is read stale, a documented ordering
//! dependency. An unresolvable parent name leaves the entity
//! untouched for the frame.

use vstd::prelude::*;
use crate::displace::VertexShader;
use crate::fixed::{fx_cos, fx_cos_spec, fx_mul, fx_mul_spec, fx_ok, fx_sin, fx_sin_spec, FX_ONE};
use crate::vec3::Vec3;

verus! {

/// How an entity moves, frame to frame.
#[derive(Clone, Debug)]
pub enum Motion {
    Static,
    Orbit { center: Vec3, radius: i64, angular_speed: i64, phase: i64 },
    OrbitAround { parent: String, radius: i64, angular_speed: i64, phase: i64 },
}

impl Motion {
    /// The descriptor's parameters lie in the update's ranges.
    pub open spec fn ok(self) -> bool {
        match self {
            Motion::Static => true,
            Motion::Orbit { center, radius, angular_speed, phase } => center.ok() && fx_ok(
                radius as int,
            ) && fx_ok(angular_speed as int) && fx_ok(phase as int),
            Motion::OrbitAround { parent, radius, angular_speed, phase } => fx_ok(radius as int)
                && fx_ok(angular_speed as int) && fx_ok(phase as int),
        }
    }
}

/// A scene entity: a named mesh with its transform, motion and
/// displacement descriptors.
pub struct Entity {
    pub name: String,
    pub translation: Vec3,
    pub rotation: Vec3,
    pub scale: i64,
    pub motion: Motion,
    pub vertices: Vec<Vec3>,
    pub vshader: VertexShader,
}

impl Entity {
    /// The entity's motion parameters and transform lie in range.
    pub open spec fn ok(self) -> bool {
        self.motion.ok() && self.translation.ok() && self.rotation.ok()
    }
}

/// The orbit angle at a time: the phase plus scaled time.
pub open spec fn theta_spec(phase: int, angular_speed: int, time: int) -> int {
    phase + fx_mul_spec(angular_speed, time)
}

/// A point on the circle of the given center and radius at an angle:
/// `x` and `z` trace the circle, `y` stays at the center's.
pub open spec fn circle_spec(center: Vec3, radius: int, theta: int) -> Vec3 {
    Vec3 {
        x: (center.x + fx_mul_spec(radius, fx_cos_spec(theta))) as i64,
        y: center.y,
        z: (center.z + fx_mul_spec(radius, fx_sin_spec(theta))) as i64,
    }
}

/// One entity after the first pass: world-anchored orbits move to
/// their circle point and face along it; everything else is
/// untouched.
pub open spec fn pass1_step_spec(e: Entity, time: int) -> Entity {
    match e.motion {
        Motion::Orbit { center, radius, angular_speed, phase } => {
            let theta = theta_spec(phase as int, angular_speed as int, time);
            Entity {
                translation: circle_spec(center, radius as int, theta),
                rotation: Vec3 { x: e.rotation.x, y: (-theta) as i64, z: e.rotation.z },
                ..e
            }
        },
        _ => e,
    }
}

/// The first index whose entity carries the name, if any.
pub open spec fn find_name_spec(s: Seq<Entity>, name: Seq<char>) -> Option<int>
    decreases s.len(),
{
    if s.len() == 0 {
        None
    } else if s[0].name@ == name {
        Some(0)
    } else {
        match find_name_spec(s.drop_first(), name) {
            Some(i) => Some(i + 1),
            None => None,
        }
    }
}

/// One entity during the second pass, read against the state of the
/// whole list as it stands: a parent-relative orbit snaps to the
/// parent (zero radius) or circles it along world axes; an
/// unresolved parent, or any other motion, leaves the entity
/// untouched.
pub open spec fn pass2_step_spec(state: Seq<Entity>, e: Entity, time: int) -> Entity {
    match e.motion {
        Motion::OrbitAround { parent, radius, angular_speed, phase } => {
            match find_name_spec(state, parent@) {
                Some(pi) => {
                    let parent_pos = state[pi].translation;
                    let theta = theta_spec(phase as int, angular_speed as int, time);
                    if !parent_pos.ok() {
                        e
                    } else if radius == 0 {
                        Entity {
                            translation: parent_pos,
                            rotation: Vec3 { x: e.rotation.x, y: (-theta) as i64, z: e.rotation.z },
                            ..e
                        }
                    } else {
                        Entity {
                            translation: circle_spec(parent_pos, radius as int, theta),
                            rotation: Vec3 { x: e.rotation.x, y: (-theta) as i64, z: e.rotation.z },
                            ..e
                        }
                    }
                },
                None => e,
            }
        },
        _ => e,
    }
}

/// The list after the second pass has handled its first `k` entries,
/// in order, each against the list as the earlier steps left it.
pub open spec fn pass2_upto_spec(s: Seq<Entity>, time: int, k: nat) -> Seq<Entity>
    decreases k,
{
    if k == 0 {
        s
    } else {
        let prev = pass2_upto_spec(s, time, (k - 1) as nat);
        prev.update(k - 1, pass2_step_spec(prev, prev[k - 1], time))
    }
}

fn find_name(entities: &Vec<Entity>, name: &String) -> (r: Option<usize>)
    ensures
        match r {
            Some(i) => find_name_spec(entities@, name@) == Some(i as int) && i < entities@.len(),
            None => find_name_spec(entities@, name@) is None,
        },
{
    let mut i: usize = 0;
    proof {
        assert(entities@.skip(0) =~= entities@);
    }
    while i < entities.len()
        invariant
            i <= entities@.len(),
            forall|j: int| 0 <= j < i ==> entities@[j].name@ != name@,
            find_name_spec(entities@.skip(i as int), name@) is Some ==> find_name_spec(
                entities@,
                name@,
            ) == Some(
                find_name_spec(entities@.skip(i as int), name@)->Some_0 + i,
            ),
            find_name_spec(entities@.skip(i as int), name@) is None ==> find_name_spec(
                entities@,
                name@,
            ) is None,
        decreases entities@.len() - i,
    {
        proof {
            assert(entities@.skip(i as int)[0] == entities@[i as int]);
            assert(entities@.skip(i as int).drop_first() =~= entities@.skip(i as int + 1));
        }
        if entities[i].name == *name {
            return Some(i);
        }
        i = i + 1;
    }
    proof {
        assert(entities@.skip(i as int).len() == 0);
    }
    None
}

/// Run the first pass: every world-anchored orbit moves to its
/// circle point; nothing else changes.
pub fn update_pass1(entities: &mut Vec<Entity>, time: i64)
    requires
        forall|i: int| 0 <= i < old(entities)@.len() ==> (#[trigger] old(entities)@[i]).ok(),
        fx_ok(time as int),
    ensures
        final(entities)@.len() == old(entities)@.len(),
        forall|i: int|
            0 <= i < old(entities)@.len() ==> final(entities)@[i] == pass1_step_spec(
                #[trigger] old(entities)@[i],
                time as int,
            ),
{
    let n = entities.len();
    let mut i: usize = 0;
    while i < n
        invariant
            n == entities@.len(),
            n == old(entities)@.len(),
            i <= n,
            fx_ok(time as int),
            forall|j: int| 0 <= j < n ==> (#[trigger] old(entities)@[j]).ok(),
            forall|j: int|
                0 <= j < i ==> entities@[j] == pass1_step_spec(
                    #[trigger] old(entities)@[j],
                    time as int,
                ),
            forall|j: int| i <= j < n ==> entities@[j] == old(entities)@[j],
        decreases n - i,
    {
        match &entities[i].motion {
            Motion::Orbit { center, radius, angular_speed, phase } => {
                let center = *center;
                let radius = *radius;
                let angular_speed = *angular_speed;
                let phase = *phase;
                proof {
                    crate::fixed::lemma_fx_mul_ok(angular_speed as int, time as int);
                }
                let theta = phase + fx_mul(angular_speed, time);
                let co = fx_cos(theta);
                let si = fx_sin(theta);
                proof {
                    crate::fixed::lemma_fx_mul_ok(radius as int, co as int);
                    crate::fixed::lemma_fx_mul_ok(radius as int, si as int);
                }
                let tx = center.x + fx_mul(radius, co);
                let tz = center.z + fx_mul(radius, si);
                let rot = entities[i].rotation;
                let e = &mut entities[i];
                e.translation = Vec3 { x: tx, y: center.y, z: tz };
                e.rotation = Vec3 { x: rot.x, y: -theta, z: rot.z };
            },
            _ => {
            },
        }
        i = i + 1;
    }
}

/// Run the second pass: every parent-relative orbit snaps to or
/// circles its parent's current translation; an unresolved parent
/// leaves its entity untouched.
#[verifier::rlimit(100)]
#[verifier::spinoff_prover]
pub fn update_pass2(entities: &mut Vec<Entity>, time: i64)
    requires
        forall|i: int| 0 <= i < old(entities)@.len() ==> (#[trigger] old(entities)@[i]).motion.ok(),
        fx_ok(time as int),
    ensures
        final(entities)@ == pass2_upto_spec(old(entities)@, time as int, old(entities)@.len()),
{
    let n = entities.len();
    let mut i: usize = 0;
    while i < n
        invariant
            n == entities@.len(),
            n == old(entities)@.len(),
            i <= n,
            fx_ok(time as int),
            entities@ == pass2_upto_spec(old(entities)@, time as int, i as nat),
            forall|j: int| 0 <= j < n ==> (#[trigger] entities@[j]).motion == old(entities)@[j].motion,
            forall|j: int|
                0 <= j < n ==> (#[trigger] old(entities)@[j]).motion.ok(),
        decreases n - i,
    {
        let ghost pre = entities@;
        let is_orbit_around = match &entities[i].motion {
            Motion::OrbitAround { .. } => true,
            _ => false,
        };
        if is_orbit_around {
            let (parent, radius, angular_speed, phase) = match &entities[i].motion {
                Motion::OrbitAround { parent, radius, angular_speed, phase } => (
                    parent.clone(),
                    *radius,
                    *angular_speed,
                    *phase,
                ),
                _ => (String::new(), 0, 0, 0),
            };
            proof {
                assert(entities@[i as int].motion == old(entities)@[i as int].motion);
                assert(old(entities)@[i as int].motion.ok());
                assert(fx_ok(angular_speed as int) && fx_ok(phase as int) && fx_ok(radius as int));
            }
            match find_name(entities, &parent) {
                Some(pi) => {
                    let parent_pos = entities[pi].translation;
                    proof {
                        crate::fixed::lemma_fx_mul_ok(angular_speed as int, time as int);
                    }
                    let theta = phase + fx_mul(angular_speed, time);
                    let rot = entities[i].rotation;
                    let pok = -crate::fixed::FX_BOUND <= parent_pos.x && parent_pos.x
                        <= crate::fixed::FX_BOUND && -crate::fixed::FX_BOUND <= parent_pos.y
                        && parent_pos.y <= crate::fixed::FX_BOUND && -crate::fixed::FX_BOUND
                        <= parent_pos.z && parent_pos.z <= crate::fixed::FX_BOUND;
                    if !pok {
                    } else if radius == 0 {
                        let e = &mut entities[i];
                        e.translation = parent_pos;
                        e.rotation = Vec3 { x: rot.x, y: -theta, z: rot.z };
                    } else {
                        let co = fx_cos(theta);
                        let si = fx_sin(theta);
                        proof {
                            crate::fixed::lemma_fx_mul_ok(radius as int, co as int);
                            crate::fixed::lemma_fx_mul_ok(radius as int, si as int);
                        }
                        let tx = parent_pos.x + fx_mul(radius, co);
                        let tz = parent_pos.z + fx_mul(radius, si);
                        let e = &mut entities[i];
                        e.translation = Vec3 { x: tx, y: parent_pos.y, z: tz };
                        e.rotation = Vec3 { x: rot.x, y: -theta, z: rot.z };
                    }
                },
                None => {
                },
            }
        }
        proof {
            assert(entities@ =~= pre.update(i as int, pass2_step_spec(pre, pre[i as int], time as int)));
            assert(entities@ == pass2_upto_spec(old(entities)@, time as int, (i + 1) as nat));
        }
        i = i + 1;
    }
}

/// A parent-relative orbit of zero radius follows its parent exactly:
/// whatever the time, phase or angular speed, the updated entity's
/// translation equals the parent's translation as read in the pass.
pub proof fn lemma_zero_radius_orbit_follows_parent(
    state: Seq<Entity>,
    e: Entity,
    time: int,
    pi: int,
)
    requires
        e.motion matches Motion::OrbitAround { parent, radius, .. } && radius == 0
            && find_name_spec(state, parent@) == Some(pi),
        0 <= pi < state.len(),
        state[pi].translation.ok(),
    ensures
        pass2_step_spec(state, e, time).translation == state[pi].translation,
{
}

} // verus!
