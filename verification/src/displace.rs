//! The vertex displacement stage: an optional per-entity push of each
//! object-space vertex by fractal noise, before the matrix stage.
//!
//! Spherical displacement moves a vertex along its radial direction
//! (meshes centered at the origin); planar displacement moves it
//! along `y` from noise sampled in the `x`/`z` plane. Both animate by
//! offsetting the sample point along `z` with scaled time. The stored
//! mesh is never touched: the stage returns a displaced copy.

use vstd::prelude::*;
use crate::fixed::{
    fx_div_spec, fx_mul, fx_mul_spec, fx_sqrt_spec, lemma_tdiv_abs_le, FX_ONE,
};
use crate::noise::{fbm3, fbm3_spec};
use crate::vec3::Vec3;

verus! {

/// A displacement amplitude, frequency or time scale: small enough
/// that every product in the stage stays in range.
pub open spec fn knob_ok(v: int) -> bool {
    -0x10_0000 <= v <= 0x10_0000
}

/// A vertex-displacement descriptor, fixed per entity.
#[derive(Clone, Debug)]
pub enum VertexShader {
    Identity,
    DisplaceSpherical { amp: i64, freq: i64, octaves: u32, lacunarity: i64, gain: i64, time_amp: i64 },
    DisplacePlanarY { amp: i64, freq: i64, octaves: u32, lacunarity: i64, gain: i64, time_amp: i64 },
}

impl VertexShader {
    /// The descriptor's parameters lie in the stage's ranges.
    pub open spec fn ok(self) -> bool {
        match self {
            VertexShader::Identity => true,
            VertexShader::DisplaceSpherical { amp, freq, octaves, lacunarity, gain, time_amp } => {
                knob_ok(amp as int) && knob_ok(freq as int) && knob_ok(time_amp as int) && 1
                    <= octaves <= 8 && 0 < gain <= FX_ONE && 0 <= lacunarity <= 4 * FX_ONE
            },
            VertexShader::DisplacePlanarY { amp, freq, octaves, lacunarity, gain, time_amp } => {
                knob_ok(amp as int) && knob_ok(freq as int) && knob_ok(time_amp as int) && 1
                    <= octaves <= 8 && 0 < gain <= FX_ONE && 0 <= lacunarity <= 4 * FX_ONE
            },
        }
    }
}

/// A vertex the stage accepts: object-space coordinates of moderate
/// size.
pub open spec fn vertex_ok(v: Vec3) -> bool {
    -0x4000_0000 <= v.x <= 0x4000_0000 && -0x4000_0000 <= v.y <= 0x4000_0000 && -0x4000_0000
        <= v.z <= 0x4000_0000
}

/// The radial direction of a vertex: the vertex over its length, or
/// nothing when the vertex is too close to the origin (or the
/// quotient too large) for a meaningful direction.
pub open spec fn radial_spec(v: Vec3) -> Option<Vec3> {
    let len = fx_sqrt_spec(v.dot_spec(v));
    let nx = fx_div_spec(v.x as int, len);
    let ny = fx_div_spec(v.y as int, len);
    let nz = fx_div_spec(v.z as int, len);
    if len > 0 && -2 * (FX_ONE as int) <= nx <= 2 * (FX_ONE as int) && -2 * (FX_ONE as int) <= ny
        <= 2 * (FX_ONE as int) && -2 * (FX_ONE as int) <= nz <= 2 * (FX_ONE as int) {
        Some(Vec3 { x: nx as i64, y: ny as i64, z: nz as i64 })
    } else {
        None
    }
}

/// The fractal-noise sample height for a displaced vertex: noise at
/// the scaled position, pushed along `z` by scaled time.
pub open spec fn sample_spec(px: int, py: int, pz: int, time: int, s: VertexShader) -> int {
    match s {
        VertexShader::Identity => 0,
        VertexShader::DisplaceSpherical { amp, freq, octaves, lacunarity, gain, time_amp } => fbm3_spec(
            Vec3 {
                x: fx_mul_spec(px, freq as int) as i64,
                y: fx_mul_spec(py, freq as int) as i64,
                z: (fx_mul_spec(pz, freq as int) + fx_mul_spec(time, time_amp as int)) as i64,
            },
            octaves,
            lacunarity as int,
            gain as int,
        ),
        VertexShader::DisplacePlanarY { amp, freq, octaves, lacunarity, gain, time_amp } => fbm3_spec(
            Vec3 {
                x: fx_mul_spec(px, freq as int) as i64,
                y: 0,
                z: (fx_mul_spec(pz, freq as int) + fx_mul_spec(time, time_amp as int)) as i64,
            },
            octaves,
            lacunarity as int,
            gain as int,
        ),
    }
}

/// The displaced vertex: unchanged for `Identity`; pushed along its
/// radial direction by `amp * noise` for spherical displacement (a
/// vertex with no radial direction passes through unchanged); pushed
/// along `y` by `amp * noise` for planar displacement.
pub open spec fn apply_vshader_spec(v: Vec3, s: VertexShader, time: int) -> Vec3 {
    match s {
        VertexShader::Identity => v,
        VertexShader::DisplaceSpherical { amp, freq, octaves, lacunarity, gain, time_amp } => {
            match radial_spec(v) {
                Some(n) => {
                    let h = sample_spec(v.x as int, v.y as int, v.z as int, time, s);
                    let d = fx_mul_spec(amp as int, h);
                    Vec3 {
                        x: (v.x + fx_mul_spec(n.x as int, d)) as i64,
                        y: (v.y + fx_mul_spec(n.y as int, d)) as i64,
                        z: (v.z + fx_mul_spec(n.z as int, d)) as i64,
                    }
                },
                None => v,
            }
        },
        VertexShader::DisplacePlanarY { amp, freq, octaves, lacunarity, gain, time_amp } => {
            let h = sample_spec(v.x as int, v.y as int, v.z as int, time, s);
            let d = fx_mul_spec(amp as int, h);
            Vec3 { x: v.x, y: (v.y + d) as i64, z: v.z }
        },
    }
}

/// Run the displacement stage on one vertex. The stored mesh is not
/// touched; the result is a fresh, still moderate, vertex.
pub fn apply_vertex_shader(v: Vec3, shader: &VertexShader, time: i64) -> (r: Vec3)
    requires
        vertex_ok(v),
        shader.ok(),
        -0x4000_0000 <= time <= 0x4000_0000,
    ensures
        r == apply_vshader_spec(v, *shader, time as int),
        -0x10_0000_0000 <= r.x <= 0x10_0000_0000,
        -0x10_0000_0000 <= r.y <= 0x10_0000_0000,
        -0x10_0000_0000 <= r.z <= 0x10_0000_0000,
{
    match shader {
        VertexShader::Identity => v,
        VertexShader::DisplaceSpherical { amp, freq, octaves, lacunarity, gain, time_amp } => {
            let len = v.length();
            if len <= 0 {
                return v;
            }
            let nx = match crate::fixed::fx_div_checked(v.x, len) {
                Some(q) => q,
                None => {
                    return v;
                },
            };
            let ny = match crate::fixed::fx_div_checked(v.y, len) {
                Some(q) => q,
                None => {
                    return v;
                },
            };
            let nz = match crate::fixed::fx_div_checked(v.z, len) {
                Some(q) => q,
                None => {
                    return v;
                },
            };
            if nx < -2 * 65536 || nx > 2 * 65536 || ny < -2 * 65536 || ny > 2 * 65536 || nz < -2
                * 65536 || nz > 2 * 65536 {
                return v;
            }
            proof {
                mul_knob_bound(v.x as int, *freq as int);
                mul_knob_bound(v.y as int, *freq as int);
                mul_knob_bound(v.z as int, *freq as int);
                mul_knob_bound(time as int, *time_amp as int);
            }
            let px = fx_mul(v.x, *freq);
            let py = fx_mul(v.y, *freq);
            let pz = fx_mul(v.z, *freq) + fx_mul(time, *time_amp);
            let h = fbm3(Vec3 { x: px, y: py, z: pz }, *octaves, *lacunarity, *gain);
            proof {
                mul_knob_bound(h as int, *amp as int);
            }
            let d = fx_mul(*amp, h);
            proof {
                mul_dir_bound(nx as int, d as int);
                mul_dir_bound(ny as int, d as int);
                mul_dir_bound(nz as int, d as int);
            }
            Vec3 {
                x: v.x + fx_mul(nx, d),
                y: v.y + fx_mul(ny, d),
                z: v.z + fx_mul(nz, d),
            }
        },
        VertexShader::DisplacePlanarY { amp, freq, octaves, lacunarity, gain, time_amp } => {
            proof {
                mul_knob_bound(v.x as int, *freq as int);
                mul_knob_bound(v.z as int, *freq as int);
                mul_knob_bound(time as int, *time_amp as int);
            }
            let px = fx_mul(v.x, *freq);
            let pz = fx_mul(v.z, *freq) + fx_mul(time, *time_amp);
            let h = fbm3(Vec3 { x: px, y: 0, z: pz }, *octaves, *lacunarity, *gain);
            proof {
                mul_knob_bound(h as int, *amp as int);
            }
            let d = fx_mul(*amp, h);
            Vec3 { x: v.x, y: v.y + d, z: v.z }
        },
    }
}

/// A moderate value times a displacement knob stays small.
proof fn mul_knob_bound(a: int, k: int)
    requires
        -0x4000_0000 <= a <= 0x4000_0000,
        knob_ok(k),
    ensures
        -0x4_0000_0000 <= fx_mul_spec(a, k) <= 0x4_0000_0000,
        -0x4_0000_0000 <= fx_mul_spec(k, a) <= 0x4_0000_0000,
{
    assert(-(0x4_0000_0000int * (FX_ONE as int)) <= a * k && a * k <= 0x4_0000_0000int * (
    FX_ONE as int)) by (nonlinear_arith)
        requires
            -0x4000_0000 <= a <= 0x4000_0000,
            -0x10_0000 <= k <= 0x10_0000,
    ;
    assert(k * a == a * k) by (nonlinear_arith);
    lemma_tdiv_abs_le(a * k, FX_ONE as int, 0x4_0000_0000);
}

/// A near-unit direction component times a small displacement stays
/// small.
proof fn mul_dir_bound(n: int, d: int)
    requires
        -0x2_0000 <= n <= 0x2_0000,
        -0x4_0000_0000 <= d <= 0x4_0000_0000,
    ensures
        -0x8_0000_0000 <= fx_mul_spec(n, d) <= 0x8_0000_0000,
{
    assert(-(0x8_0000_0000int * (FX_ONE as int)) <= n * d && n * d <= 0x8_0000_0000int * (
    FX_ONE as int)) by (nonlinear_arith)
        requires
            -0x2_0000 <= n <= 0x2_0000,
            -0x4_0000_0000 <= d <= 0x4_0000_0000,
    ;
    lemma_tdiv_abs_le(n * d, FX_ONE as int, 0x8_0000_0000);
}

} // verus!
