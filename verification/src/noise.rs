//! Deterministic fractal value noise over three dimensions.
//!
//! A hash of the integer lattice cell gives each corner a value in
//! `[-FX_ONE, FX_ONE]`; trilinear interpolation with a smoothstep
//! fade blends the eight corners; the fractal sum accumulates octaves
//! at rising frequency and falling amplitude and normalizes by the
//! accumulated amplitude, so the result stays in `[-FX_ONE, FX_ONE]`.
//! Everything is a pure function of its arguments: two calls with the
//! same inputs return identical values.

use vstd::prelude::*;
use crate::fixed::{
    fx_div, fx_div_spec, fx_floor, fx_fract, fx_min, fx_mul, fx_mul_spec, fx_ok,
    lemma_fx_mul_ok, lemma_tdiv_abs_le, lemma_tdiv_nonneg_le, tdiv, FX_ONE,
};
use crate::vec3::Vec3;

verus! {

/// One 64-bit product, kept modulo the word size.
pub open spec fn wmix_spec(a: u64, k: u64) -> u64 {
    (((a as int) * (k as int)) % 0x1_0000_0000_0000_0000) as u64
}

fn wmix(a: u64, k: u64) -> (r: u64)
    ensures
        r == wmix_spec(a, k),
{
    proof {
        let am = a as int;
        let km = k as int;
        assert(0 <= am * km <= 0xffff_ffff_ffff_ffffint * 0xffff_ffff_ffff_ffffint)
            by (nonlinear_arith)
            requires
                0 <= am <= 0xffff_ffff_ffff_ffffint,
                0 <= km <= 0xffff_ffff_ffff_ffffint,
        ;
    }
    let p: u128 = (a as u128) * (k as u128);
    (p % 0x1_0000_0000_0000_0000u128) as u64
}

/// The corner hash: three keyed products folded together and stirred.
pub open spec fn hash3_spec(ix: i64, iy: i64, iz: i64) -> u64 {
    let h = wmix_spec(ix as u64, 0x9E3779B185EBCA87) ^ wmix_spec(iy as u64, 0xC2B2AE3D27D4EB4F)
        ^ wmix_spec(iz as u64, 0x165667B19E3779F9);
    let g = wmix_spec(h ^ (h >> 33), 0xFF51AFD7ED558CCD);
    g ^ (g >> 31)
}

/// The lattice-corner value: the hash mapped into
/// `[-FX_ONE, FX_ONE]`.
pub open spec fn lattice_spec(ix: i64, iy: i64, iz: i64) -> int {
    (hash3_spec(ix, iy, iz) as int) % 131073 - 65536
}

fn lattice(ix: i64, iy: i64, iz: i64) -> (r: i64)
    ensures
        r == lattice_spec(ix, iy, iz),
        -FX_ONE <= r <= FX_ONE,
{
    let h = wmix(ix as u64, 0x9E3779B185EBCA87) ^ wmix(iy as u64, 0xC2B2AE3D27D4EB4F) ^ wmix(
        iz as u64,
        0x165667B19E3779F9,
    );
    let g = wmix(h ^ (h >> 33), 0xFF51AFD7ED558CCD);
    let out = g ^ (g >> 31);
    ((out % 131073) as i64) - 65536
}

/// The fade curve `t * t * (3 - 2 * t)`, clamped into `[0, FX_ONE]`
/// against rounding.
pub open spec fn smooth_spec(t: int) -> int {
    let raw = fx_mul_spec(fx_mul_spec(t, t), 3 * (FX_ONE as int) - 2 * t);
    if raw > FX_ONE {
        FX_ONE as int
    } else {
        raw
    }
}

fn smooth(t: i64) -> (r: i64)
    requires
        0 <= t < FX_ONE,
    ensures
        r == smooth_spec(t as int),
        0 <= r <= FX_ONE,
{
    proof {
        assert((t as int) * (t as int) <= (t as int) * (FX_ONE as int)) by (nonlinear_arith)
            requires
                0 <= t,
                (t as int) < FX_ONE as int,
        ;
        lemma_tdiv_nonneg_le((t as int) * (t as int), FX_ONE as int, t as int);
    }
    let t2 = fx_mul(t, t);
    proof {
        let w = 3 * (FX_ONE as int) - 2 * (t as int);
        assert((t2 as int) * w <= (3 * (FX_ONE as int)) * (FX_ONE as int)) by (nonlinear_arith)
            requires
                0 <= t2,
                (t2 as int) <= FX_ONE as int,
                (FX_ONE as int) < w,
                w <= 3 * (FX_ONE as int),
        ;
        lemma_tdiv_nonneg_le((t2 as int) * w, FX_ONE as int, 3 * (FX_ONE as int));
    }
    let raw = fx_mul(t2, 3 * 65536 - 2 * t);
    fx_min(raw, FX_ONE)
}

/// Linear interpolation `a + (b - a) * u` for a fade `u` in
/// `[0, FX_ONE]`; the result stays between `a` and `b`.
pub open spec fn lerp_spec(a: int, b: int, u: int) -> int {
    a + fx_mul_spec(b - a, u)
}

fn fx_lerp(a: i64, b: i64, u: i64) -> (r: i64)
    requires
        -FX_ONE <= a <= FX_ONE,
        -FX_ONE <= b <= FX_ONE,
        0 <= u <= FX_ONE,
    ensures
        r == lerp_spec(a as int, b as int, u as int),
        -FX_ONE <= r <= FX_ONE,
{
    proof {
        let d = (b - a) as int;
        if d >= 0 {
            assert(d * (u as int) <= d * (FX_ONE as int)) by (nonlinear_arith)
                requires
                    0 <= d && 0 <= u as int <= FX_ONE as int,
            ;
            lemma_tdiv_nonneg_le(d * (u as int), FX_ONE as int, d);
        } else {
            assert((-d) * (u as int) <= (-d) * (FX_ONE as int)) by (nonlinear_arith)
                requires
                    0 <= -d && 0 <= u as int <= FX_ONE as int,
            ;
            lemma_tdiv_nonneg_le((-d) * (u as int), FX_ONE as int, -d);
            assert(-(d * (u as int)) == (-d) * (u as int)) by (nonlinear_arith);
        }
    }
    a + fx_mul(b - a, u)
}

/// Single-octave value noise at a point: the fade-blended corner
/// values of the lattice cell the point falls in.
#[verifier::opaque]
pub open spec fn value_noise3_spec(p: Vec3) -> int {
    let ix = (p.x as int) / (FX_ONE as int);
    let iy = (p.y as int) / (FX_ONE as int);
    let iz = (p.z as int) / (FX_ONE as int);
    let sx = smooth_spec((p.x as int) % (FX_ONE as int));
    let sy = smooth_spec((p.y as int) % (FX_ONE as int));
    let sz = smooth_spec((p.z as int) % (FX_ONE as int));
    let x00 = lerp_spec(
        lattice_spec(ix as i64, iy as i64, iz as i64),
        lattice_spec((ix + 1) as i64, iy as i64, iz as i64),
        sx,
    );
    let x10 = lerp_spec(
        lattice_spec(ix as i64, (iy + 1) as i64, iz as i64),
        lattice_spec((ix + 1) as i64, (iy + 1) as i64, iz as i64),
        sx,
    );
    let x01 = lerp_spec(
        lattice_spec(ix as i64, iy as i64, (iz + 1) as i64),
        lattice_spec((ix + 1) as i64, iy as i64, (iz + 1) as i64),
        sx,
    );
    let x11 = lerp_spec(
        lattice_spec(ix as i64, (iy + 1) as i64, (iz + 1) as i64),
        lattice_spec((ix + 1) as i64, (iy + 1) as i64, (iz + 1) as i64),
        sx,
    );
    lerp_spec(lerp_spec(x00, x10, sy), lerp_spec(x01, x11, sy), sz)
}

/// Single-octave value noise; a pure function of the point alone.
pub fn value_noise3(p: Vec3) -> (r: i64)
    requires
        -0x7fff_0000_0000_0000 <= p.x <= 0x7fff_0000_0000_0000,
        -0x7fff_0000_0000_0000 <= p.y <= 0x7fff_0000_0000_0000,
        -0x7fff_0000_0000_0000 <= p.z <= 0x7fff_0000_0000_0000,
    ensures
        r == value_noise3_spec(p),
        -FX_ONE <= r <= FX_ONE,
{
    proof {
        reveal(value_noise3_spec);
    }
    let ix = fx_floor(p.x);
    let iy = fx_floor(p.y);
    let iz = fx_floor(p.z);
    let sx = smooth(fx_fract(p.x));
    let sy = smooth(fx_fract(p.y));
    let sz = smooth(fx_fract(p.z));
    let x00 = fx_lerp(lattice(ix, iy, iz), lattice(ix + 1, iy, iz), sx);
    let x10 = fx_lerp(lattice(ix, iy + 1, iz), lattice(ix + 1, iy + 1, iz), sx);
    let x01 = fx_lerp(lattice(ix, iy, iz + 1), lattice(ix + 1, iy, iz + 1), sx);
    let x11 = fx_lerp(lattice(ix, iy + 1, iz + 1), lattice(ix + 1, iy + 1, iz + 1), sx);
    let y0 = fx_lerp(x00, x10, sy);
    let y1 = fx_lerp(x01, x11, sy);
    fx_lerp(y0, y1, sz)
}

/// Powers of four, for bounding the octave frequency.
pub open spec fn pow4(k: nat) -> int
    decreases k,
{
    if k == 0 {
        1
    } else {
        4 * pow4((k - 1) as nat)
    }
}

proof fn lemma_pow4_mono(a: nat, b: nat)
    requires
        a <= b,
    ensures
        1 <= pow4(a) <= pow4(b),
    decreases b,
{
    if b > 0 {
        if a == b {
            lemma_pow4_mono((b - 1) as nat, (b - 1) as nat);
        } else {
            lemma_pow4_mono(a, (b - 1) as nat);
        }
    }
}

/// The running state of the fractal sum after `k` octaves: the
/// weighted sum of octave samples, the accumulated amplitude, and the
/// next octave's frequency and amplitude.
pub open spec fn fbm_parts_spec(p: Vec3, k: nat, lacunarity: int, gain: int) -> (int, int, int, int)
    decreases k,
{
    if k == 0 {
        (0, 0, FX_ONE as int, FX_ONE as int)
    } else {
        let prev = fbm_parts_spec(p, (k - 1) as nat, lacunarity, gain);
        let q = Vec3 {
            x: fx_mul_spec(p.x as int, prev.2) as i64,
            y: fx_mul_spec(p.y as int, prev.2) as i64,
            z: fx_mul_spec(p.z as int, prev.2) as i64,
        };
        let n = value_noise3_spec(q);
        (
            prev.0 + fx_mul_spec(prev.3, n),
            prev.1 + prev.3,
            fx_mul_spec(prev.2, lacunarity),
            fx_mul_spec(prev.3, gain),
        )
    }
}

/// The fractal sum of `octaves` octaves, normalized by the
/// accumulated amplitude.
pub open spec fn fbm3_spec(p: Vec3, octaves: u32, lacunarity: int, gain: int) -> int {
    let parts = fbm_parts_spec(p, octaves as nat, lacunarity, gain);
    fx_div_spec(parts.0, parts.1)
}

/// Multi-octave fractal value noise in `[-FX_ONE, FX_ONE]`. With a
/// single octave it equals the base noise at the point itself, at
/// full amplitude.
#[verifier::rlimit(100)]
pub fn fbm3(p: Vec3, octaves: u32, lacunarity: i64, gain: i64) -> (r: i64)
    requires
        p.ok(),
        1 <= octaves <= 8,
        0 < gain <= FX_ONE,
        0 <= lacunarity <= 4 * FX_ONE,
    ensures
        r == fbm3_spec(p, octaves, lacunarity as int, gain as int),
        -FX_ONE <= r <= FX_ONE,
        octaves == 1 ==> r == value_noise3_spec(p),
{
    let mut sum: i64 = 0;
    let mut wsum: i64 = 0;
    let mut freq: i64 = FX_ONE;
    let mut amp: i64 = FX_ONE;
    let mut i: u32 = 0;
    while i < octaves
        invariant
            0 <= i <= octaves,
            1 <= octaves <= 8,
            p.ok(),
            0 < gain <= FX_ONE,
            0 <= lacunarity <= 4 * FX_ONE,
            fbm_parts_spec(p, i as nat, lacunarity as int, gain as int) == (
                sum as int,
                wsum as int,
                freq as int,
                amp as int,
            ),
            0 <= amp <= FX_ONE,
            0 <= wsum <= i * (FX_ONE as int),
            -wsum <= sum <= wsum,
            0 <= freq <= pow4(i as nat) * (FX_ONE as int),
            i >= 1 ==> wsum >= FX_ONE,
        decreases octaves - i,
    {
        proof {
            lemma_pow4_mono(i as nat, 7);
            assert(pow4(7) == 16384) by {
                reveal_with_fuel(pow4, 9);
            };
            crate::fixed::lemma_fx_mul_ok(p.x as int, freq as int);
            crate::fixed::lemma_fx_mul_ok(p.y as int, freq as int);
            crate::fixed::lemma_fx_mul_ok(p.z as int, freq as int);
        }
        let q = p.scale(freq);
        let n = value_noise3(q);
        proof {
            assert(-((amp as int) * (FX_ONE as int)) <= (amp as int) * (n as int) <= (amp as int)
                * (FX_ONE as int)) by (nonlinear_arith)
                requires
                    0 <= amp,
                    -(FX_ONE as int) <= n as int <= FX_ONE as int,
            ;
            lemma_tdiv_abs_le((amp as int) * (n as int), FX_ONE as int, amp as int);
        }
        let term = fx_mul(amp, n);
        proof {
            assert((freq as int) * (lacunarity as int) <= (4 * (freq as int)) * (FX_ONE as int))
                by (nonlinear_arith)
                requires
                    0 <= freq,
                    0 <= lacunarity <= 4 * (FX_ONE as int),
            ;
            lemma_tdiv_nonneg_le((freq as int) * (lacunarity as int), FX_ONE as int, 4 * (
            freq as int));
            assert((amp as int) * (gain as int) <= (amp as int) * (FX_ONE as int))
                by (nonlinear_arith)
                requires
                    0 <= amp,
                    0 < gain <= FX_ONE as int,
            ;
            lemma_tdiv_nonneg_le((amp as int) * (gain as int), FX_ONE as int, amp as int);
            lemma_pow4_mono((i + 1) as nat, 8);
        }
        sum = sum + term;
        wsum = wsum + amp;
        let new_freq = fx_mul(freq, lacunarity);
        let new_amp = fx_mul(amp, gain);
        freq = new_freq;
        amp = new_amp;
        i = i + 1;
    }
    proof {
        if octaves == 1 {
            crate::fixed::lemma_fx_one(p.x as int);
            crate::fixed::lemma_fx_one(p.y as int);
            crate::fixed::lemma_fx_one(p.z as int);
            assert(fbm_parts_spec(p, 0nat, lacunarity as int, gain as int) == (
                0int,
                0int,
                FX_ONE as int,
                FX_ONE as int,
            ));
            assert(Vec3 {
                x: fx_mul_spec(p.x as int, FX_ONE as int) as i64,
                y: fx_mul_spec(p.y as int, FX_ONE as int) as i64,
                z: fx_mul_spec(p.z as int, FX_ONE as int) as i64,
            } == p);
            crate::fixed::lemma_fx_one(value_noise3_spec(p));
            assert(sum as int == value_noise3_spec(p));
        }
        lemma_tdiv_abs_le((sum as int) * (FX_ONE as int), wsum as int, FX_ONE as int);
    }
    fx_div(sum, wsum)
}

} // verus!
