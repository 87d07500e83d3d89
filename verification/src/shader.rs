//! The fragment shader: four independently toggleable layers over a
//! per-entity material, the frame's time and the viewport resolution.
//!
//! The pixel position becomes a centered coordinate in
//! `[-1/2, 1/2]`; the base color, defensively rescaled and clamped
//! into the unit range when a byte-scale color leaks through, passes
//! through the palette, banding, noise and scanline/bloom layers that
//! are switched on; the result is clamped per channel and
//! gamma-corrected with exponent `5/6` (one over `1.2`), computed
//! exactly as the square root times the cube root. The function has
//! no side effects: it is a pure function of its arguments.

use vstd::prelude::*;
use crate::fixed::{
    fx_atan2, fx_atan2_spec, fx_cbrt, fx_cbrt_spec, fx_clamp, fx_cos, fx_cos_spec, fx_div,
    fx_div_spec, fx_emod, fx_max, fx_mul, fx_mul_spec, fx_sin, fx_sin_spec, fx_sqrt,
    fx_sqrt_spec, lemma_fx_mul_le, lemma_tdiv_abs_le, tdiv, FX_ONE, FX_TAU,
};
use crate::noise::{fbm3, fbm3_spec};
use crate::raster::Fragment;
use crate::vec3::Vec3;

verus! {

/// Degrees to radians in Q16.16.
pub const FX_DEG: i64 = 1144;

/// The frame's global inputs: time and the viewport resolution, all
/// in Q16.16.
#[derive(Clone, Copy, PartialEq, Eq, Structural, Debug)]
pub struct Uniforms {
    pub time: i64,
    pub res_x: i64,
    pub res_y: i64,
}

impl Uniforms {
    /// Resolution is at least one pixel and moderate; time moderate.
    pub open spec fn ok(self) -> bool {
        FX_ONE <= self.res_x <= 0x10_0000_0000 && FX_ONE <= self.res_y <= 0x10_0000_0000
            && -0x4000_0000 <= self.time <= 0x4000_0000
    }
}

/// A per-entity material: two cosine palettes with a mix radius,
/// banding patterns with weights and an accent, noise modulation, and
/// scanline/bloom strengths.
#[derive(Clone, Debug)]
pub struct Material {
    pub pal1_a: Vec3,
    pub pal1_b: Vec3,
    pub pal1_c: Vec3,
    pub pal1_d: Vec3,
    pub pal2_a: Vec3,
    pub pal2_b: Vec3,
    pub pal2_c: Vec3,
    pub pal2_d: Vec3,
    pub pal_mix_radius: i64,
    pub rings_freq: i64,
    pub rings_speed: i64,
    pub stripes_angle_deg: i64,
    pub stripes_freq: i64,
    pub stripes_speed: i64,
    pub checker_scale: i64,
    pub rings_weight: i64,
    pub stripes_weight: i64,
    pub checker_weight: i64,
    pub accent: Vec3,
    pub accent_strength: i64,
    pub fbm_freq: i64,
    pub fbm_octaves: u32,
    pub fbm_lacunarity: i64,
    pub fbm_gain: i64,
    pub fbm_time: i64,
    pub sat_base: i64,
    pub sat_amp: i64,
    pub bri_base: i64,
    pub bri_amp: i64,
    pub scan_intensity: i64,
    pub bloom_strength: i64,
}

/// A palette coefficient vector: each channel within a few units.
pub open spec fn pal_ok(v: Vec3) -> bool {
    -4 * (FX_ONE as int) <= v.x <= 4 * (FX_ONE as int) && -4 * (FX_ONE as int) <= v.y <= 4 * (
    FX_ONE as int) && -4 * (FX_ONE as int) <= v.z <= 4 * (FX_ONE as int)
}

impl Material {
    /// Every knob lies in the shader's working ranges.
    pub open spec fn ok(self) -> bool {
        pal_ok(self.pal1_a) && pal_ok(self.pal1_b) && pal_ok(self.pal1_c) && pal_ok(self.pal1_d)
            && pal_ok(self.pal2_a) && pal_ok(self.pal2_b) && pal_ok(self.pal2_c) && pal_ok(
            self.pal2_d,
        ) && 1 <= self.pal_mix_radius <= 4 * FX_ONE && 0 <= self.rings_freq <= 0x100_0000 && 0
            <= self.rings_speed <= 0x100_0000 && -0x100_0000 <= self.stripes_angle_deg
            <= 0x100_0000 && 0 <= self.stripes_freq <= 0x100_0000 && 0 <= self.stripes_speed
            <= 0x100_0000 && 0 <= self.checker_scale <= 0x100_0000 && 0 <= self.rings_weight
            <= FX_ONE && 0 <= self.stripes_weight <= FX_ONE && 0 <= self.checker_weight <= FX_ONE
            && 0 <= self.accent.x <= 4 * FX_ONE && 0 <= self.accent.y <= 4 * FX_ONE && 0
            <= self.accent.z <= 4 * FX_ONE && 0 <= self.accent_strength <= FX_ONE && 0
            <= self.fbm_freq <= 0x100_0000 && 1 <= self.fbm_octaves <= 8 && 0 < self.fbm_gain
            <= FX_ONE && 0 <= self.fbm_lacunarity <= 4 * FX_ONE && 0 <= self.fbm_time <= 0x100_0000
            && 0 <= self.sat_base <= 4 * FX_ONE && 0 <= self.sat_amp <= 4 * FX_ONE && 0
            <= self.bri_base <= 4 * FX_ONE && 0 <= self.bri_amp <= 4 * FX_ONE && 0
            <= self.scan_intensity <= FX_ONE && 0 <= self.bloom_strength <= FX_ONE
    }
}

/// One centered texture coordinate: the pixel position over the
/// resolution, shifted by half and clamped into the unit range (an
/// off-screen fragment saturates; on-screen ones are untouched).
pub open spec fn uv_coord_spec(p: int, res: int) -> int {
    let raw = fx_div_spec(p * (FX_ONE as int), res) - 32768;
    if raw < -(FX_ONE as int) {
        -(FX_ONE as int)
    } else if raw > FX_ONE as int {
        FX_ONE as int
    } else {
        raw
    }
}

fn uv_coord(p: i64, res: i64) -> (r: i64)
    requires
        -0x80_0000 <= p <= 0x80_0000,
        FX_ONE <= res <= 0x10_0000_0000,
    ensures
        r == uv_coord_spec(p as int, res as int),
        -FX_ONE <= r <= FX_ONE,
{
    proof {
        lemma_tdiv_abs_le(
            (p as int) * (FX_ONE as int) * (FX_ONE as int),
            res as int,
            0x80_0000_0000_0000,
        );
        assert((0x80_0000_0000_0000int) * (res as int) >= 0x80_0000_0000_0000int * (FX_ONE as int))
            by (nonlinear_arith)
            requires
                res as int >= FX_ONE as int,
        ;
    }
    let raw = fx_div(p * 65536, res) - 32768;
    fx_clamp(raw, -FX_ONE, FX_ONE)
}

/// The cosine palette: per channel, `a + b * cos(tau * (c * t + d))`.
pub open spec fn pal_cos_chan_spec(t: int, a: int, b: int, c: int, d: int) -> int {
    a + fx_mul_spec(b, fx_cos_spec(fx_mul_spec(FX_TAU as int, fx_mul_spec(c, t) + d)))
}

pub open spec fn palette_cosine_spec(t: int, a: Vec3, b: Vec3, c: Vec3, d: Vec3) -> Vec3 {
    Vec3 {
        x: pal_cos_chan_spec(t, a.x as int, b.x as int, c.x as int, d.x as int) as i64,
        y: pal_cos_chan_spec(t, a.y as int, b.y as int, c.y as int, d.y as int) as i64,
        z: pal_cos_chan_spec(t, a.z as int, b.z as int, c.z as int, d.z as int) as i64,
    }
}

fn pal_cos_chan(t: i64, a: i64, b: i64, c: i64, d: i64) -> (r: i64)
    requires
        0 <= t <= FX_ONE,
        -4 * FX_ONE <= a <= 4 * FX_ONE,
        -4 * FX_ONE <= b <= 4 * FX_ONE,
        -4 * FX_ONE <= c <= 4 * FX_ONE,
        -4 * FX_ONE <= d <= 4 * FX_ONE,
    ensures
        r == pal_cos_chan_spec(t as int, a as int, b as int, c as int, d as int),
        -8 * FX_ONE <= r <= 8 * FX_ONE,
{
    proof {
        lemma_fx_mul_le(c as int, t as int, 4 * FX_ONE as int, FX_ONE as int, 4 * FX_ONE as int);
        lemma_fx_mul_le(
            FX_TAU as int,
            fx_mul_spec(c as int, t as int) + d as int,
            FX_TAU as int,
            8 * FX_ONE as int,
            8 * FX_TAU as int,
        );
    }
    let arg = fx_mul(FX_TAU, fx_mul(c, t) + d);
    let co = fx_cos(arg);
    proof {
        lemma_fx_mul_le(b as int, co as int, 4 * FX_ONE as int, FX_ONE as int, 4 * FX_ONE as int);
    }
    a + fx_mul(b, co)
}

fn palette_cosine(t: i64, a: Vec3, b: Vec3, c: Vec3, d: Vec3) -> (r: Vec3)
    requires
        0 <= t <= FX_ONE,
        pal_ok(a),
        pal_ok(b),
        pal_ok(c),
        pal_ok(d),
    ensures
        r == palette_cosine_spec(t as int, a, b, c, d),
        -8 * FX_ONE <= r.x <= 8 * FX_ONE,
        -8 * FX_ONE <= r.y <= 8 * FX_ONE,
        -8 * FX_ONE <= r.z <= 8 * FX_ONE,
    {
    Vec3 {
        x: pal_cos_chan(t, a.x, b.x, c.x, d.x),
        y: pal_cos_chan(t, a.y, b.y, c.y, d.y),
        z: pal_cos_chan(t, a.z, b.z, c.z, d.z),
    }
}

/// The concentric-ring pattern in `[0, FX_ONE]`.
pub open spec fn rings_spec(uvx: int, uvy: int, freq: int, speed: int, time: int) -> int {
    let r = fx_sqrt_spec(fx_mul_spec(uvx, uvx) + fx_mul_spec(uvy, uvy));
    let phase = fx_mul_spec(r, freq) - fx_mul_spec(time, speed);
    tdiv(fx_sin_spec(fx_mul_spec(phase, FX_TAU as int)), 2) + 32768
}

fn pattern_rings(uvx: i64, uvy: i64, freq: i64, speed: i64, time: i64) -> (r: i64)
    requires
        -FX_ONE <= uvx <= FX_ONE,
        -FX_ONE <= uvy <= FX_ONE,
        0 <= freq <= 0x100_0000,
        0 <= speed <= 0x100_0000,
        -0x4000_0000 <= time <= 0x4000_0000,
    ensures
        r == rings_spec(uvx as int, uvy as int, freq as int, speed as int, time as int),
        0 <= r <= FX_ONE,
{
    proof {
        lemma_fx_mul_le(uvx as int, uvx as int, FX_ONE as int, FX_ONE as int, FX_ONE as int);
        lemma_fx_mul_le(uvy as int, uvy as int, FX_ONE as int, FX_ONE as int, FX_ONE as int);
        crate::fixed::lemma_fx_square_nonneg(uvx as int);
        crate::fixed::lemma_fx_square_nonneg(uvy as int);
    }
    let rr = fx_sqrt(fx_mul(uvx, uvx) + fx_mul(uvy, uvy));
    proof {
        crate::fixed::lemma_isqrt_bounds(
            (fx_mul_spec(uvx as int, uvx as int) + fx_mul_spec(uvy as int, uvy as int)) * (
            FX_ONE as int),
        );
        assert(fx_sqrt_spec(
            fx_mul_spec(uvx as int, uvx as int) + fx_mul_spec(uvy as int, uvy as int),
        ) <= 2 * FX_ONE) by {
            let v = (fx_mul_spec(uvx as int, uvx as int) + fx_mul_spec(uvy as int, uvy as int)) * (
            FX_ONE as int);
            let s = crate::fixed::isqrt_spec(v);
            assert((2 * FX_ONE as int + 1) * (2 * FX_ONE as int + 1) > v);
            if s > 2 * FX_ONE {
                assert(s * s >= (2 * FX_ONE as int + 1) * (2 * FX_ONE as int + 1))
                    by (nonlinear_arith)
                    requires
                        s >= 2 * FX_ONE as int + 1,
                ;
            }
        };
        lemma_fx_mul_le(rr as int, freq as int, 2 * FX_ONE as int, 0x100_0000, 0x200_0000);
        lemma_fx_mul_le(time as int, speed as int, 0x4000_0000, 0x100_0000, 0x40_0000_0000);
        lemma_fx_mul_le(
            fx_mul_spec(rr as int, freq as int) - fx_mul_spec(time as int, speed as int),
            FX_TAU as int,
            0x41_0000_0000,
            FX_TAU as int,
            0x200_0000_0000_0000,
        );
    }
    let phase = fx_mul(rr, freq) - fx_mul(time, speed);
    let s = fx_sin(fx_mul(phase, FX_TAU));
    s / 2 + 32768
}

/// The directional-stripe pattern in `[0, FX_ONE]`.
pub open spec fn stripes_spec(
    uvx: int,
    uvy: int,
    angle_deg: int,
    freq: int,
    speed: int,
    time: int,
) -> int {
    let ang = fx_mul_spec(angle_deg, FX_DEG as int);
    let t = fx_mul_spec(uvx, fx_cos_spec(ang)) + fx_mul_spec(uvy, fx_sin_spec(ang));
    let phase = fx_mul_spec(t, freq) - fx_mul_spec(time, speed);
    tdiv(fx_sin_spec(phase), 2) + 32768
}

fn pattern_stripes(uvx: i64, uvy: i64, angle_deg: i64, freq: i64, speed: i64, time: i64) -> (r:
    i64)
    requires
        -FX_ONE <= uvx <= FX_ONE,
        -FX_ONE <= uvy <= FX_ONE,
        -0x100_0000 <= angle_deg <= 0x100_0000,
        0 <= freq <= 0x100_0000,
        0 <= speed <= 0x100_0000,
        -0x4000_0000 <= time <= 0x4000_0000,
    ensures
        r == stripes_spec(
            uvx as int,
            uvy as int,
            angle_deg as int,
            freq as int,
            speed as int,
            time as int,
        ),
        0 <= r <= FX_ONE,
{
    proof {
        lemma_fx_mul_le(angle_deg as int, FX_DEG as int, 0x100_0000, FX_DEG as int, 0x100_0000);
    }
    let ang = fx_mul(angle_deg, FX_DEG);
    let co = fx_cos(ang);
    let si = fx_sin(ang);
    proof {
        lemma_fx_mul_le(uvx as int, co as int, FX_ONE as int, FX_ONE as int, FX_ONE as int);
        lemma_fx_mul_le(uvy as int, si as int, FX_ONE as int, FX_ONE as int, FX_ONE as int);
    }
    let t = fx_mul(uvx, co) + fx_mul(uvy, si);
    proof {
        lemma_fx_mul_le(t as int, freq as int, 2 * FX_ONE as int, 0x100_0000, 0x200_0000);
        lemma_fx_mul_le(time as int, speed as int, 0x4000_0000, 0x100_0000, 0x40_0000_0000);
    }
    let phase = fx_mul(t, freq) - fx_mul(time, speed);
    let s = fx_sin(phase);
    s / 2 + 32768
}

/// The checker pattern: the parity of the rotated, scaled cell.
pub open spec fn checker_spec(uvx: int, uvy: int, scale: int, angle: int) -> int {
    let sx = fx_mul_spec(uvx, scale);
    let sy = fx_mul_spec(uvy, scale);
    let rx = fx_mul_spec(fx_cos_spec(angle), sx) - fx_mul_spec(fx_sin_spec(angle), sy);
    let ry = fx_mul_spec(fx_sin_spec(angle), sx) + fx_mul_spec(fx_cos_spec(angle), sy);
    let cell = rx / (FX_ONE as int) + ry / (FX_ONE as int);
    if cell % 2 == 1 {
        FX_ONE as int
    } else {
        0
    }
}

fn pattern_checker(uvx: i64, uvy: i64, scale: i64, angle: i64) -> (r: i64)
    requires
        -FX_ONE <= uvx <= FX_ONE,
        -FX_ONE <= uvy <= FX_ONE,
        0 <= scale <= 0x100_0000,
    ensures
        r == checker_spec(uvx as int, uvy as int, scale as int, angle as int),
        0 <= r <= FX_ONE,
{
    proof {
        lemma_fx_mul_le(uvx as int, scale as int, FX_ONE as int, 0x100_0000, 0x100_0000);
        lemma_fx_mul_le(uvy as int, scale as int, FX_ONE as int, 0x100_0000, 0x100_0000);
    }
    let sx = fx_mul(uvx, scale);
    let sy = fx_mul(uvy, scale);
    let co = fx_cos(angle);
    let si = fx_sin(angle);
    proof {
        lemma_fx_mul_le(co as int, sx as int, FX_ONE as int, 0x100_0000, 0x100_0000);
        lemma_fx_mul_le(si as int, sy as int, FX_ONE as int, 0x100_0000, 0x100_0000);
        lemma_fx_mul_le(si as int, sx as int, FX_ONE as int, 0x100_0000, 0x100_0000);
        lemma_fx_mul_le(co as int, sy as int, FX_ONE as int, 0x100_0000, 0x100_0000);
    }
    let rx = fx_mul(co, sx) - fx_mul(si, sy);
    let ry = fx_mul(si, sx) + fx_mul(co, sy);
    let cell = crate::fixed::fx_floor(rx) + crate::fixed::fx_floor(ry);
    let par = fx_emod(cell, 2);
    if par == 1 {
        FX_ONE
    } else {
        0
    }
}

/// The scanline factor for a pixel row: the sinusoid
/// `sin(y * pi / 2)` is exact at whole rows, so the factor cycles
/// through half, full, half and zero brightness and is dimmed by the
/// intensity.
pub open spec fn scan_spec(py: int, intensity: int) -> int {
    let m = py % 4;
    let s: int = if m == 0 {
        32768
    } else if m == 1 {
        65536
    } else if m == 2 {
        32768
    } else {
        0
    };
    (FX_ONE as int) - fx_mul_spec(intensity, (FX_ONE as int) - s)
}

fn overlay_scanlines(py: i64, intensity: i64) -> (r: i64)
    requires
        0 <= intensity <= FX_ONE,
    ensures
        r == scan_spec(py as int, intensity as int),
        0 <= r <= FX_ONE,
{
    let m = fx_emod(py, 4);
    let s: i64 = if m == 0 {
        32768
    } else if m == 1 {
        65536
    } else if m == 2 {
        32768
    } else {
        0
    };
    proof {
        lemma_fx_mul_le(
            intensity as int,
            (FX_ONE as int) - s as int,
            FX_ONE as int,
            FX_ONE as int,
            FX_ONE as int,
        );
        assert(0 <= (intensity as int) * ((FX_ONE as int) - s as int)) by (nonlinear_arith)
            requires
                0 <= intensity,
                s as int <= FX_ONE as int,
        ;
        vstd::arithmetic::div_mod::lemma_div_pos_is_pos(
            (intensity as int) * ((FX_ONE as int) - s as int),
            FX_ONE as int,
        );
    }
    FX_ONE - fx_mul(intensity, FX_ONE - s)
}

/// The gamma correction with exponent five sixths: the square root
/// times the cube root of a unit-range channel.
pub open spec fn gamma_spec(c: int) -> int {
    fx_mul_spec(fx_sqrt_spec(c), fx_cbrt_spec(c))
}

fn gamma_chan(c: i64) -> (r: i64)
    requires
        0 <= c <= FX_ONE,
    ensures
        r == gamma_spec(c as int),
        0 <= r <= FX_ONE,
{
    let s = fx_sqrt(c);
    let q = fx_cbrt(c);
    proof {
        crate::fixed::lemma_isqrt_bounds((c as int) * (FX_ONE as int));
        crate::fixed::lemma_icbrt_bounds((c as int) * (FX_ONE as int) * (FX_ONE as int));
        assert(s as int <= FX_ONE as int) by {
            let v = (c as int) * (FX_ONE as int);
            let ss = crate::fixed::isqrt_spec(v);
            if ss > FX_ONE {
                assert(ss * ss >= (FX_ONE as int + 1) * (FX_ONE as int + 1)) by (nonlinear_arith)
                    requires
                        ss >= FX_ONE as int + 1,
                ;
            }
        };
        assert(q as int <= FX_ONE as int) by {
            let v = (c as int) * (FX_ONE as int) * (FX_ONE as int);
            let qq = crate::fixed::icbrt_spec(v);
            if qq > FX_ONE {
                assert(qq * qq * qq >= (FX_ONE as int + 1) * (FX_ONE as int + 1) * (
                FX_ONE as int + 1)) by (nonlinear_arith)
                    requires
                        qq >= FX_ONE as int + 1,
                ;
            }
        };
        lemma_fx_mul_le(s as int, q as int, FX_ONE as int, FX_ONE as int, FX_ONE as int);
    }
    fx_mul(s, q)
}

/// The defensive base-color normalization: a channel above one means
/// a byte-scale color leaked in, so all channels are rescaled by
/// 255; then each channel is clamped into the unit range.
pub open spec fn norm_chan_spec(c: int, rescale: bool) -> int {
    let v = if rescale {
        tdiv(c, 255)
    } else {
        c
    };
    if v < 0 {
        0
    } else if v > FX_ONE {
        FX_ONE as int
    } else {
        v
    }
}

pub open spec fn norm_base_spec(c: Vec3) -> Vec3 {
    let rescale = c.x > FX_ONE || c.y > FX_ONE || c.z > FX_ONE;
    Vec3 {
        x: norm_chan_spec(c.x as int, rescale) as i64,
        y: norm_chan_spec(c.y as int, rescale) as i64,
        z: norm_chan_spec(c.z as int, rescale) as i64,
    }
}

fn norm_chan(c: i64, rescale: bool) -> (r: i64)
    ensures
        r == norm_chan_spec(c as int, rescale),
        0 <= r <= FX_ONE,
{
    let v = if rescale {
        c / 255
    } else {
        c
    };
    fx_clamp(v, 0, FX_ONE)
}

fn norm_base(c: Vec3) -> (r: Vec3)
    ensures
        r == norm_base_spec(c),
        0 <= r.x <= FX_ONE,
        0 <= r.y <= FX_ONE,
        0 <= r.z <= FX_ONE,
{
    let rescale = c.x > FX_ONE || c.y > FX_ONE || c.z > FX_ONE;
    Vec3 {
        x: norm_chan(c.x, rescale),
        y: norm_chan(c.y, rescale),
        z: norm_chan(c.z, rescale),
    }
}

/// Blend factor constants: `0.4`, `0.6`, `0.2` and `0.15` in Q16.16.
pub const K04: i64 = 26214;

pub const K06: i64 = 39322;

pub const K02: i64 = 13107;

pub const K015: i64 = 9830;

/// The palette layer: the angular coordinate picks a position along
/// two cosine palettes, blended by radial distance against the mix
/// radius, and the result mixes two-fifths base to three-fifths
/// palette.
pub open spec fn layer1_spec(col: Vec3, uvx: int, uvy: int, time: int, mat: Material) -> Vec3 {
    let ang = fx_atan2_spec(uvy, uvx);
    let t = (fx_div_spec(ang + fx_mul_spec(time, K02 as int), FX_TAU as int) + 32768) % (
    FX_ONE as int);
    let pal1 = palette_cosine_spec(t, mat.pal1_a, mat.pal1_b, mat.pal1_c, mat.pal1_d);
    let pal2 = palette_cosine_spec(t, mat.pal2_a, mat.pal2_b, mat.pal2_c, mat.pal2_d);
    let rr = fx_sqrt_spec(fx_mul_spec(uvx, uvx) + fx_mul_spec(uvy, uvy));
    let raw_mix = fx_div_spec(rr, mat.pal_mix_radius as int);
    let mix = if raw_mix < 0 {
        0
    } else if raw_mix > FX_ONE as int {
        FX_ONE as int
    } else {
        raw_mix
    };
    Vec3 {
        x: (fx_mul_spec(col.x as int, K04 as int) + fx_mul_spec(
            fx_mul_spec(pal1.x as int, (FX_ONE as int) - mix) + fx_mul_spec(pal2.x as int, mix),
            K06 as int,
        )) as i64,
        y: (fx_mul_spec(col.y as int, K04 as int) + fx_mul_spec(
            fx_mul_spec(pal1.y as int, (FX_ONE as int) - mix) + fx_mul_spec(pal2.y as int, mix),
            K06 as int,
        )) as i64,
        z: (fx_mul_spec(col.z as int, K04 as int) + fx_mul_spec(
            fx_mul_spec(pal1.z as int, (FX_ONE as int) - mix) + fx_mul_spec(pal2.z as int, mix),
            K06 as int,
        )) as i64,
    }
}

/// The banding layer: rings, stripes and checker, each weighted,
/// clamp to one band value, and the accent blends in by strength
/// times that value.
pub open spec fn layer2_spec(col: Vec3, uvx: int, uvy: int, time: int, mat: Material) -> Vec3 {
    let rings = if mat.rings_weight > 0 {
        rings_spec(uvx, uvy, mat.rings_freq as int, mat.rings_speed as int, time)
    } else {
        0
    };
    let stripes = if mat.stripes_weight > 0 {
        stripes_spec(
            uvx,
            uvy,
            mat.stripes_angle_deg as int,
            mat.stripes_freq as int,
            mat.stripes_speed as int,
            time,
        )
    } else {
        0
    };
    let checker = if mat.checker_weight > 0 {
        checker_spec(uvx, uvy, mat.checker_scale as int, fx_mul_spec(time, K015 as int))
    } else {
        0
    };
    let sum = fx_mul_spec(mat.rings_weight as int, rings) + fx_mul_spec(
        mat.stripes_weight as int,
        stripes,
    ) + fx_mul_spec(mat.checker_weight as int, checker);
    let bands = if sum < 0 {
        0
    } else if sum > FX_ONE as int {
        FX_ONE as int
    } else {
        sum
    };
    let x = fx_mul_spec(mat.accent_strength as int, bands);
    Vec3 {
        x: (fx_mul_spec(col.x as int, (FX_ONE as int) - x) + fx_mul_spec(mat.accent.x as int, x)) as i64,
        y: (fx_mul_spec(col.y as int, (FX_ONE as int) - x) + fx_mul_spec(mat.accent.y as int, x)) as i64,
        z: (fx_mul_spec(col.z as int, (FX_ONE as int) - x) + fx_mul_spec(mat.accent.z as int, x)) as i64,
    }
}

/// The noise layer: fractal noise at the scaled coordinate, mapped to
/// the unit range, modulates a saturation and a brightness factor,
/// both applied multiplicatively.
pub open spec fn layer3_spec(col: Vec3, uvx: int, uvy: int, time: int, mat: Material) -> Vec3 {
    let f = fbm3_spec(
        Vec3 {
            x: fx_mul_spec(uvx, mat.fbm_freq as int) as i64,
            y: fx_mul_spec(uvy, mat.fbm_freq as int) as i64,
            z: fx_mul_spec(time, mat.fbm_time as int) as i64,
        },
        mat.fbm_octaves,
        mat.fbm_lacunarity as int,
        mat.fbm_gain as int,
    );
    let f01 = tdiv(f, 2) + 32768;
    let sat = mat.sat_base as int + fx_mul_spec(mat.sat_amp as int, f01);
    let bri = mat.bri_base as int + fx_mul_spec(mat.bri_amp as int, f01);
    Vec3 {
        x: fx_mul_spec(fx_mul_spec(col.x as int, sat), bri) as i64,
        y: fx_mul_spec(fx_mul_spec(col.y as int, sat), bri) as i64,
        z: fx_mul_spec(fx_mul_spec(col.z as int, sat), bri) as i64,
    }
}

/// The scanline/bloom layer: a per-row attenuation, plus an additive
/// bloom of the squared brightest channel times the bloom strength.
pub open spec fn layer4_spec(col: Vec3, py: int, mat: Material) -> Vec3 {
    let scan = scan_spec(py, mat.scan_intensity as int);
    let mx = if col.x >= col.y && col.x >= col.z {
        col.x as int
    } else if col.y >= col.z {
        col.y as int
    } else {
        col.z as int
    };
    let boost = fx_mul_spec(fx_mul_spec(mx, mx), mat.bloom_strength as int);
    Vec3 {
        x: (fx_mul_spec(col.x as int, scan) + boost) as i64,
        y: (fx_mul_spec(col.y as int, scan) + boost) as i64,
        z: (fx_mul_spec(col.z as int, scan) + boost) as i64,
    }
}

/// One channel clamped to the unit range and gamma-corrected.
pub open spec fn finish_chan_spec(c: int) -> int {
    let cl = if c < 0 {
        0
    } else if c > FX_ONE as int {
        FX_ONE as int
    } else {
        c
    };
    gamma_spec(cl)
}

/// The whole shader: normalize the base color, run the switched-on
/// layers in order, clamp, gamma-correct.
pub open spec fn shade_spec(
    frag: Fragment,
    u: Uniforms,
    l1: bool,
    l2: bool,
    l3: bool,
    l4: bool,
    mat: Material,
) -> Vec3 {
    let uvx = uv_coord_spec(frag.x as int, u.res_x as int);
    let uvy = uv_coord_spec(frag.y as int, u.res_y as int);
    let c0 = norm_base_spec(frag.color);
    let c1 = if l1 {
        layer1_spec(c0, uvx, uvy, u.time as int, mat)
    } else {
        c0
    };
    let c2 = if l2 {
        layer2_spec(c1, uvx, uvy, u.time as int, mat)
    } else {
        c1
    };
    let c3 = if l3 {
        layer3_spec(c2, uvx, uvy, u.time as int, mat)
    } else {
        c2
    };
    let c4 = if l4 {
        layer4_spec(c3, frag.y as int, mat)
    } else {
        c3
    };
    Vec3 {
        x: finish_chan_spec(c4.x as int) as i64,
        y: finish_chan_spec(c4.y as int) as i64,
        z: finish_chan_spec(c4.z as int) as i64,
    }
}

fn layer1(col: Vec3, uvx: i64, uvy: i64, time: i64, mat: &Material) -> (r: Vec3)
    requires
        mat.ok(),
        -FX_ONE <= uvx <= FX_ONE,
        -FX_ONE <= uvy <= FX_ONE,
        -0x4000_0000 <= time <= 0x4000_0000,
        0 <= col.x <= FX_ONE,
        0 <= col.y <= FX_ONE,
        0 <= col.z <= FX_ONE,
    ensures
        r == layer1_spec(col, uvx as int, uvy as int, time as int, *mat),
        -0xb_0000 <= r.x <= 0xb_0000,
        -0xb_0000 <= r.y <= 0xb_0000,
        -0xb_0000 <= r.z <= 0xb_0000,
{
    let ang = fx_atan2(uvy, uvx);
    proof {
        lemma_fx_mul_le(time as int, K02 as int, 0x4000_0000, K02 as int, 0x4000_0000);
        lemma_tdiv_abs_le(
            (ang as int + fx_mul_spec(time as int, K02 as int)) * (FX_ONE as int),
            FX_TAU as int,
            0x8000_0000_0000,
        );
        assert(0x8000_0000_0000int * (FX_TAU as int) >= 0x8000_0000_0000int) by (nonlinear_arith)
            requires
                FX_TAU as int >= 1,
        ;
    }
    let t = fx_emod(fx_div(ang + fx_mul(time, K02), FX_TAU) + 32768, FX_ONE);
    let pal1 = palette_cosine(t, mat.pal1_a, mat.pal1_b, mat.pal1_c, mat.pal1_d);
    let pal2 = palette_cosine(t, mat.pal2_a, mat.pal2_b, mat.pal2_c, mat.pal2_d);
    proof {
        lemma_fx_mul_le(uvx as int, uvx as int, FX_ONE as int, FX_ONE as int, FX_ONE as int);
        lemma_fx_mul_le(uvy as int, uvy as int, FX_ONE as int, FX_ONE as int, FX_ONE as int);
        crate::fixed::lemma_fx_square_nonneg(uvx as int);
        crate::fixed::lemma_fx_square_nonneg(uvy as int);
    }
    let rr = fx_sqrt(fx_mul(uvx, uvx) + fx_mul(uvy, uvy));
    proof {
        crate::fixed::lemma_isqrt_bounds(
            (fx_mul_spec(uvx as int, uvx as int) + fx_mul_spec(uvy as int, uvy as int)) * (
            FX_ONE as int),
        );
        assert(rr as int <= 2 * FX_ONE) by {
            let v = (fx_mul_spec(uvx as int, uvx as int) + fx_mul_spec(uvy as int, uvy as int)) * (
            FX_ONE as int);
            let ss = crate::fixed::isqrt_spec(v);
            assert((2 * FX_ONE as int + 1) * (2 * FX_ONE as int + 1) > v);
            if ss > 2 * FX_ONE {
                assert(ss * ss >= (2 * FX_ONE as int + 1) * (2 * FX_ONE as int + 1))
                    by (nonlinear_arith)
                    requires
                        ss >= 2 * FX_ONE as int + 1,
                ;
            }
        };
        assert(((2 * FX_ONE as int) * (FX_ONE as int)) * (mat.pal_mix_radius as int) >= (
        2 * FX_ONE as int) * (FX_ONE as int)) by (nonlinear_arith)
            requires
                mat.pal_mix_radius as int >= 1,
        ;
        lemma_tdiv_abs_le(
            (rr as int) * (FX_ONE as int),
            mat.pal_mix_radius as int,
            (2 * FX_ONE as int) * (FX_ONE as int),
        );
    }
    let mix = fx_clamp(fx_div(rr, mat.pal_mix_radius), 0, FX_ONE);
    let blend_x = blend_pal(pal1.x, pal2.x, mix);
    let blend_y = blend_pal(pal1.y, pal2.y, mix);
    let blend_z = blend_pal(pal1.z, pal2.z, mix);
    proof {
        lemma_fx_mul_le(col.x as int, K04 as int, FX_ONE as int, K04 as int, K04 as int);
        lemma_fx_mul_le(col.y as int, K04 as int, FX_ONE as int, K04 as int, K04 as int);
        lemma_fx_mul_le(col.z as int, K04 as int, FX_ONE as int, K04 as int, K04 as int);
        lemma_fx_mul_le(blend_x as int, K06 as int, 0x10_0000, K06 as int, 0xa_0000);
        lemma_fx_mul_le(blend_y as int, K06 as int, 0x10_0000, K06 as int, 0xa_0000);
        lemma_fx_mul_le(blend_z as int, K06 as int, 0x10_0000, K06 as int, 0xa_0000);
    }
    Vec3 {
        x: fx_mul(col.x, K04) + fx_mul(blend_x, K06),
        y: fx_mul(col.y, K04) + fx_mul(blend_y, K06),
        z: fx_mul(col.z, K04) + fx_mul(blend_z, K06),
    }
}

fn blend_pal(p1: i64, p2: i64, mix: i64) -> (r: i64)
    requires
        -8 * FX_ONE <= p1 <= 8 * FX_ONE,
        -8 * FX_ONE <= p2 <= 8 * FX_ONE,
        0 <= mix <= FX_ONE,
    ensures
        r == fx_mul_spec(p1 as int, (FX_ONE as int) - mix as int) + fx_mul_spec(
            p2 as int,
            mix as int,
        ),
        -0x10_0000 <= r <= 0x10_0000,
{
    proof {
        lemma_fx_mul_le(
            p1 as int,
            (FX_ONE as int) - mix as int,
            8 * FX_ONE as int,
            FX_ONE as int,
            8 * FX_ONE as int,
        );
        lemma_fx_mul_le(p2 as int, mix as int, 8 * FX_ONE as int, FX_ONE as int, 8 * FX_ONE as int);
    }
    fx_mul(p1, 65536 - mix) + fx_mul(p2, mix)
}

fn layer2(col: Vec3, uvx: i64, uvy: i64, time: i64, mat: &Material) -> (r: Vec3)
    requires
        mat.ok(),
        -FX_ONE <= uvx <= FX_ONE,
        -FX_ONE <= uvy <= FX_ONE,
        -0x4000_0000 <= time <= 0x4000_0000,
        -0xb_0000 <= col.x <= 0xb_0000,
        -0xb_0000 <= col.y <= 0xb_0000,
        -0xb_0000 <= col.z <= 0xb_0000,
    ensures
        r == layer2_spec(col, uvx as int, uvy as int, time as int, *mat),
        -0xf_0000 <= r.x <= 0xf_0000,
        -0xf_0000 <= r.y <= 0xf_0000,
        -0xf_0000 <= r.z <= 0xf_0000,
{
    let rings = if mat.rings_weight > 0 {
        pattern_rings(uvx, uvy, mat.rings_freq, mat.rings_speed, time)
    } else {
        0
    };
    let stripes = if mat.stripes_weight > 0 {
        pattern_stripes(uvx, uvy, mat.stripes_angle_deg, mat.stripes_freq, mat.stripes_speed, time)
    } else {
        0
    };
    proof {
        lemma_fx_mul_le(time as int, K015 as int, 0x4000_0000, K015 as int, 0x4000_0000);
    }
    let checker = if mat.checker_weight > 0 {
        pattern_checker(uvx, uvy, mat.checker_scale, fx_mul(time, K015))
    } else {
        0
    };
    proof {
        lemma_fx_mul_le(
            mat.rings_weight as int,
            rings as int,
            FX_ONE as int,
            FX_ONE as int,
            FX_ONE as int,
        );
        lemma_fx_mul_le(
            mat.stripes_weight as int,
            stripes as int,
            FX_ONE as int,
            FX_ONE as int,
            FX_ONE as int,
        );
        lemma_fx_mul_le(
            mat.checker_weight as int,
            checker as int,
            FX_ONE as int,
            FX_ONE as int,
            FX_ONE as int,
        );
    }
    let sum = fx_mul(mat.rings_weight, rings) + fx_mul(mat.stripes_weight, stripes) + fx_mul(
        mat.checker_weight,
        checker,
    );
    let bands = fx_clamp(sum, 0, FX_ONE);
    proof {
        lemma_fx_mul_le(
            mat.accent_strength as int,
            bands as int,
            FX_ONE as int,
            FX_ONE as int,
            FX_ONE as int,
        );
    }
    let x = fx_mul(mat.accent_strength, bands);
    proof {
        lemma_fx_mul_le(
            col.x as int,
            (FX_ONE as int) - x as int,
            0xb_0000,
            FX_ONE as int,
            0xb_0000,
        );
        lemma_fx_mul_le(
            col.y as int,
            (FX_ONE as int) - x as int,
            0xb_0000,
            FX_ONE as int,
            0xb_0000,
        );
        lemma_fx_mul_le(
            col.z as int,
            (FX_ONE as int) - x as int,
            0xb_0000,
            FX_ONE as int,
            0xb_0000,
        );
        lemma_fx_mul_le(mat.accent.x as int, x as int, 4 * FX_ONE as int, FX_ONE as int, 4 * (
        FX_ONE as int));
        lemma_fx_mul_le(mat.accent.y as int, x as int, 4 * FX_ONE as int, FX_ONE as int, 4 * (
        FX_ONE as int));
        lemma_fx_mul_le(mat.accent.z as int, x as int, 4 * FX_ONE as int, FX_ONE as int, 4 * (
        FX_ONE as int));
    }
    Vec3 {
        x: fx_mul(col.x, 65536 - x) + fx_mul(mat.accent.x, x),
        y: fx_mul(col.y, 65536 - x) + fx_mul(mat.accent.y, x),
        z: fx_mul(col.z, 65536 - x) + fx_mul(mat.accent.z, x),
    }
}

fn layer3(col: Vec3, uvx: i64, uvy: i64, time: i64, mat: &Material) -> (r: Vec3)
    requires
        mat.ok(),
        -FX_ONE <= uvx <= FX_ONE,
        -FX_ONE <= uvy <= FX_ONE,
        -0x4000_0000 <= time <= 0x4000_0000,
        -0xf_0000 <= col.x <= 0xf_0000,
        -0xf_0000 <= col.y <= 0xf_0000,
        -0xf_0000 <= col.z <= 0xf_0000,
    ensures
        r == layer3_spec(col, uvx as int, uvy as int, time as int, *mat),
        -0x3c0_0000 <= r.x <= 0x3c0_0000,
        -0x3c0_0000 <= r.y <= 0x3c0_0000,
        -0x3c0_0000 <= r.z <= 0x3c0_0000,
{
    proof {
        lemma_fx_mul_le(uvx as int, mat.fbm_freq as int, FX_ONE as int, 0x100_0000, 0x100_0000);
        lemma_fx_mul_le(uvy as int, mat.fbm_freq as int, FX_ONE as int, 0x100_0000, 0x100_0000);
        lemma_fx_mul_le(time as int, mat.fbm_time as int, 0x4000_0000, 0x100_0000, 0x40_0000_0000);
    }
    let f = fbm3(
        Vec3 { x: fx_mul(uvx, mat.fbm_freq), y: fx_mul(uvy, mat.fbm_freq), z: fx_mul(time, mat.fbm_time) },
        mat.fbm_octaves,
        mat.fbm_lacunarity,
        mat.fbm_gain,
    );
    let f01 = f / 2 + 32768;
    proof {
        lemma_fx_mul_le(mat.sat_amp as int, f01 as int, 4 * FX_ONE as int, FX_ONE as int, 4 * (
        FX_ONE as int));
        lemma_fx_mul_le(mat.bri_amp as int, f01 as int, 4 * FX_ONE as int, FX_ONE as int, 4 * (
        FX_ONE as int));
    }
    let sat = mat.sat_base + fx_mul(mat.sat_amp, f01);
    let bri = mat.bri_base + fx_mul(mat.bri_amp, f01);
    proof {
        lemma_fx_mul_le(col.x as int, sat as int, 0xf_0000, 8 * FX_ONE as int, 0x78_0000);
        lemma_fx_mul_le(col.y as int, sat as int, 0xf_0000, 8 * FX_ONE as int, 0x78_0000);
        lemma_fx_mul_le(col.z as int, sat as int, 0xf_0000, 8 * FX_ONE as int, 0x78_0000);
        lemma_fx_mul_le(
            fx_mul_spec(col.x as int, sat as int),
            bri as int,
            0x78_0000,
            8 * FX_ONE as int,
            0x3c0_0000,
        );
        lemma_fx_mul_le(
            fx_mul_spec(col.y as int, sat as int),
            bri as int,
            0x78_0000,
            8 * FX_ONE as int,
            0x3c0_0000,
        );
        lemma_fx_mul_le(
            fx_mul_spec(col.z as int, sat as int),
            bri as int,
            0x78_0000,
            8 * FX_ONE as int,
            0x3c0_0000,
        );
    }
    Vec3 {
        x: fx_mul(fx_mul(col.x, sat), bri),
        y: fx_mul(fx_mul(col.y, sat), bri),
        z: fx_mul(fx_mul(col.z, sat), bri),
    }
}

fn layer4(col: Vec3, py: i64, mat: &Material) -> (r: Vec3)
    requires
        mat.ok(),
        -0x3c0_0000 <= col.x <= 0x3c0_0000,
        -0x3c0_0000 <= col.y <= 0x3c0_0000,
        -0x3c0_0000 <= col.z <= 0x3c0_0000,
    ensures
        r == layer4_spec(col, py as int, *mat),
        -0x20_0000_0000 <= r.x <= 0x20_0000_0000,
        -0x20_0000_0000 <= r.y <= 0x20_0000_0000,
        -0x20_0000_0000 <= r.z <= 0x20_0000_0000,
{
    let scan = overlay_scanlines(py, mat.scan_intensity);
    let mx = if col.x >= col.y && col.x >= col.z {
        col.x
    } else if col.y >= col.z {
        col.y
    } else {
        col.z
    };
    proof {
        lemma_fx_mul_le(mx as int, mx as int, 0x3c0_0000, 0x3c0_0000, 0x10_0000_0000);
        lemma_fx_mul_le(
            fx_mul_spec(mx as int, mx as int),
            mat.bloom_strength as int,
            0x10_0000_0000,
            FX_ONE as int,
            0x10_0000_0000,
        );
        lemma_fx_mul_le(col.x as int, scan as int, 0x3c0_0000, FX_ONE as int, 0x3c0_0000);
        lemma_fx_mul_le(col.y as int, scan as int, 0x3c0_0000, FX_ONE as int, 0x3c0_0000);
        lemma_fx_mul_le(col.z as int, scan as int, 0x3c0_0000, FX_ONE as int, 0x3c0_0000);
    }
    let boost = fx_mul(fx_mul(mx, mx), mat.bloom_strength);
    Vec3 {
        x: fx_mul(col.x, scan) + boost,
        y: fx_mul(col.y, scan) + boost,
        z: fx_mul(col.z, scan) + boost,
    }
}

fn finish_chan(c: i64) -> (r: i64)
    ensures
        r == finish_chan_spec(c as int),
        0 <= r <= FX_ONE,
{
    let cl = fx_clamp(c, 0, FX_ONE);
    gamma_chan(cl)
}

/// Shade one fragment: a pure function of the fragment, the frame
/// uniforms, the layer switches and the material. With every layer
/// switched off, the result is exactly the normalized, clamped,
/// gamma-corrected base color.
pub fn fragment_shader(
    fragment: &Fragment,
    u: &Uniforms,
    layers: (bool, bool, bool, bool),
    mat: &Material,
) -> (r: Vec3)
    requires
        u.ok(),
        mat.ok(),
        -0x80_0000 <= fragment.x <= 0x80_0000,
        -0x80_0000 <= fragment.y <= 0x80_0000,
    ensures
        r == shade_spec(*fragment, *u, layers.0, layers.1, layers.2, layers.3, *mat),
        !layers.0 && !layers.1 && !layers.2 && !layers.3 ==> r == (Vec3 {
            x: finish_chan_spec(norm_base_spec(fragment.color).x as int) as i64,
            y: finish_chan_spec(norm_base_spec(fragment.color).y as int) as i64,
            z: finish_chan_spec(norm_base_spec(fragment.color).z as int) as i64,
        }),
{
    let (l1, l2, l3, l4) = layers;
    let uvx = uv_coord(fragment.x, u.res_x);
    let uvy = uv_coord(fragment.y, u.res_y);
    let c0 = norm_base(fragment.color);
    let c1 = if l1 {
        layer1(c0, uvx, uvy, u.time, mat)
    } else {
        c0
    };
    let c2 = if l2 {
        layer2(c1, uvx, uvy, u.time, mat)
    } else {
        c1
    };
    let c3 = if l3 {
        layer3(c2, uvx, uvy, u.time, mat)
    } else {
        c2
    };
    let c4 = if l4 {
        layer4(c3, fragment.y, mat)
    } else {
        c3
    };
    Vec3 { x: finish_chan(c4.x), y: finish_chan(c4.y), z: finish_chan(c4.z) }
}

/// The exact values of the rocky preset.
pub open spec fn rocky_spec() -> Material {
    Material {
        pal1_a: Vec3 { x: 36045, y: 29491, z: 26214 },
        pal1_b: Vec3 { x: 19661, y: 16384, z: 13107 },
        pal1_c: Vec3 { x: 65536, y: 65536, z: 65536 },
        pal1_d: Vec3 { x: 0, y: 9830, z: 13107 },
        pal2_a: Vec3 { x: 29491, y: 22938, z: 19661 },
        pal2_b: Vec3 { x: 16384, y: 13107, z: 9830 },
        pal2_c: Vec3 { x: 65536, y: 65536, z: 65536 },
        pal2_d: Vec3 { x: 22938, y: 6554, z: 13107 },
        pal_mix_radius: 39322,
        rings_freq: 786432,
        rings_speed: 13107,
        stripes_angle_deg: 1638400,
        stripes_freq: 1179648,
        stripes_speed: 13107,
        checker_scale: 393216,
        rings_weight: 9830,
        stripes_weight: 6554,
        checker_weight: 3277,
        accent: Vec3 { x: 13107, y: 10486, z: 7864 },
        accent_strength: 16384,
        fbm_freq: 327680,
        fbm_octaves: 5,
        fbm_lacunarity: 131072,
        fbm_gain: 32768,
        fbm_time: 16384,
        sat_base: 45875,
        sat_amp: 22938,
        bri_base: 58982,
        bri_amp: 16384,
        scan_intensity: 3932,
        bloom_strength: 5243,
    }
}

/// The exact values of the gaseous preset.
pub open spec fn gaseous_spec() -> Material {
    Material {
        pal1_a: Vec3 { x: 9830, y: 22938, z: 39322 },
        pal1_b: Vec3 { x: 13107, y: 22938, z: 26214 },
        pal1_c: Vec3 { x: 65536, y: 65536, z: 65536 },
        pal1_d: Vec3 { x: 3277, y: 6554, z: 13107 },
        pal2_a: Vec3 { x: 49152, y: 39322, z: 19661 },
        pal2_b: Vec3 { x: 19661, y: 19661, z: 13107 },
        pal2_c: Vec3 { x: 65536, y: 65536, z: 65536 },
        pal2_d: Vec3 { x: 13107, y: 9830, z: 6554 },
        pal_mix_radius: 58982,
        rings_freq: 1572864,
        rings_speed: 32768,
        stripes_angle_deg: 786432,
        stripes_freq: 3145728,
        stripes_speed: 58982,
        checker_scale: 655360,
        rings_weight: 29491,
        stripes_weight: 29491,
        checker_weight: 6554,
        accent: Vec3 { x: 5243, y: 42598, z: 62259 },
        accent_strength: 22938,
        fbm_freq: 229376,
        fbm_octaves: 4,
        fbm_lacunarity: 131072,
        fbm_gain: 36045,
        fbm_time: 22938,
        sat_base: 58982,
        sat_amp: 13107,
        bri_base: 62259,
        bri_amp: 19661,
        scan_intensity: 3277,
        bloom_strength: 7864,
    }
}

/// The exact values of the ring preset.
pub open spec fn ring_spec() -> Material {
    Material {
        pal1_a: Vec3 { x: 42598, y: 39322, z: 36045 },
        pal1_b: Vec3 { x: 13107, y: 13107, z: 13107 },
        pal1_c: Vec3 { x: 65536, y: 65536, z: 65536 },
        pal1_d: Vec3 { x: 6554, y: 6554, z: 6554 },
        pal2_a: Vec3 { x: 36045, y: 32768, z: 29491 },
        pal2_b: Vec3 { x: 9830, y: 9830, z: 9830 },
        pal2_c: Vec3 { x: 65536, y: 65536, z: 65536 },
        pal2_d: Vec3 { x: 13107, y: 13107, z: 13107 },
        pal_mix_radius: 52429,
        rings_freq: 5898240,
        rings_speed: 0,
        stripes_angle_deg: 0,
        stripes_freq: 0,
        stripes_speed: 0,
        checker_scale: 917504,
        rings_weight: 55706,
        stripes_weight: 0,
        checker_weight: 3277,
        accent: Vec3 { x: 58982, y: 55706, z: 45875 },
        accent_strength: 7864,
        fbm_freq: 524288,
        fbm_octaves: 3,
        fbm_lacunarity: 131072,
        fbm_gain: 32768,
        fbm_time: 0,
        sat_base: 55706,
        sat_amp: 6554,
        bri_base: 62259,
        bri_amp: 6554,
        scan_intensity: 2621,
        bloom_strength: 5243,
    }
}

/// The exact values of the star preset.
pub open spec fn star_spec() -> Material {
    Material {
        pal1_a: Vec3 { x: 65536, y: 62259, z: 55706 },
        pal1_b: Vec3 { x: 6554, y: 6554, z: 6554 },
        pal1_c: Vec3 { x: 65536, y: 65536, z: 65536 },
        pal1_d: Vec3 { x: 0, y: 21627, z: 43909 },
        pal2_a: Vec3 { x: 65536, y: 58982, z: 45875 },
        pal2_b: Vec3 { x: 13107, y: 6554, z: 0 },
        pal2_c: Vec3 { x: 65536, y: 65536, z: 65536 },
        pal2_d: Vec3 { x: 9830, y: 21627, z: 32768 },
        pal_mix_radius: 65536,
        rings_freq: 0,
        rings_speed: 0,
        stripes_angle_deg: 0,
        stripes_freq: 0,
        stripes_speed: 0,
        checker_scale: 0,
        rings_weight: 0,
        stripes_weight: 0,
        checker_weight: 0,
        accent: Vec3 { x: 65536, y: 62259, z: 55706 },
        accent_strength: 3277,
        fbm_freq: 117965,
        fbm_octaves: 5,
        fbm_lacunarity: 131072,
        fbm_gain: 35389,
        fbm_time: 52429,
        sat_base: 65536,
        sat_amp: 3277,
        bri_base: 72090,
        bri_amp: 22938,
        scan_intensity: 1966,
        bloom_strength: 22938,
    }
}

/// The exact values of the moon preset.
pub open spec fn moon_spec() -> Material {
    Material {
        pal1_a: Vec3 { x: 39322, y: 39322, z: 39322 },
        pal1_b: Vec3 { x: 13107, y: 13107, z: 13107 },
        pal1_c: Vec3 { x: 65536, y: 65536, z: 65536 },
        pal1_d: Vec3 { x: 13107, y: 13107, z: 13107 },
        pal2_a: Vec3 { x: 29491, y: 29491, z: 29491 },
        pal2_b: Vec3 { x: 9830, y: 9830, z: 9830 },
        pal2_c: Vec3 { x: 65536, y: 65536, z: 65536 },
        pal2_d: Vec3 { x: 19661, y: 19661, z: 19661 },
        pal_mix_radius: 39322,
        rings_freq: 0,
        rings_speed: 0,
        stripes_angle_deg: 0,
        stripes_freq: 0,
        stripes_speed: 0,
        checker_scale: 524288,
        rings_weight: 0,
        stripes_weight: 0,
        checker_weight: 3277,
        accent: Vec3 { x: 22938, y: 22938, z: 22938 },
        accent_strength: 9830,
        fbm_freq: 393216,
        fbm_octaves: 5,
        fbm_lacunarity: 131072,
        fbm_gain: 32768,
        fbm_time: 16384,
        sat_base: 32768,
        sat_amp: 13107,
        bri_base: 58982,
        bri_amp: 9830,
        scan_intensity: 1311,
        bloom_strength: 3277,
    }
}

impl Material {
    /// The rocky-planet preset.
    pub fn rocky() -> (r: Material)
        ensures
            r == rocky_spec(),
            r.ok(),
    {
        Material {
            pal1_a: Vec3 { x: 36045, y: 29491, z: 26214 },
            pal1_b: Vec3 { x: 19661, y: 16384, z: 13107 },
            pal1_c: Vec3 { x: 65536, y: 65536, z: 65536 },
            pal1_d: Vec3 { x: 0, y: 9830, z: 13107 },
            pal2_a: Vec3 { x: 29491, y: 22938, z: 19661 },
            pal2_b: Vec3 { x: 16384, y: 13107, z: 9830 },
            pal2_c: Vec3 { x: 65536, y: 65536, z: 65536 },
            pal2_d: Vec3 { x: 22938, y: 6554, z: 13107 },
            pal_mix_radius: 39322,
            rings_freq: 786432,
            rings_speed: 13107,
            stripes_angle_deg: 1638400,
            stripes_freq: 1179648,
            stripes_speed: 13107,
            checker_scale: 393216,
            rings_weight: 9830,
            stripes_weight: 6554,
            checker_weight: 3277,
            accent: Vec3 { x: 13107, y: 10486, z: 7864 },
            accent_strength: 16384,
            fbm_freq: 327680,
            fbm_octaves: 5,
            fbm_lacunarity: 131072,
            fbm_gain: 32768,
            fbm_time: 16384,
            sat_base: 45875,
            sat_amp: 22938,
            bri_base: 58982,
            bri_amp: 16384,
            scan_intensity: 3932,
            bloom_strength: 5243,
        }
    }

    /// The gas-giant preset.
    pub fn gaseous() -> (r: Material)
        ensures
            r == gaseous_spec(),
            r.ok(),
    {
        Material {
            pal1_a: Vec3 { x: 9830, y: 22938, z: 39322 },
            pal1_b: Vec3 { x: 13107, y: 22938, z: 26214 },
            pal1_c: Vec3 { x: 65536, y: 65536, z: 65536 },
            pal1_d: Vec3 { x: 3277, y: 6554, z: 13107 },
            pal2_a: Vec3 { x: 49152, y: 39322, z: 19661 },
            pal2_b: Vec3 { x: 19661, y: 19661, z: 13107 },
            pal2_c: Vec3 { x: 65536, y: 65536, z: 65536 },
            pal2_d: Vec3 { x: 13107, y: 9830, z: 6554 },
            pal_mix_radius: 58982,
            rings_freq: 1572864,
            rings_speed: 32768,
            stripes_angle_deg: 786432,
            stripes_freq: 3145728,
            stripes_speed: 58982,
            checker_scale: 655360,
            rings_weight: 29491,
            stripes_weight: 29491,
            checker_weight: 6554,
            accent: Vec3 { x: 5243, y: 42598, z: 62259 },
            accent_strength: 22938,
            fbm_freq: 229376,
            fbm_octaves: 4,
            fbm_lacunarity: 131072,
            fbm_gain: 36045,
            fbm_time: 22938,
            sat_base: 58982,
            sat_amp: 13107,
            bri_base: 62259,
            bri_amp: 19661,
            scan_intensity: 3277,
            bloom_strength: 7864,
        }
    }

    /// The planetary-ring preset.
    pub fn ring() -> (r: Material)
        ensures
            r == ring_spec(),
            r.ok(),
    {
        Material {
            pal1_a: Vec3 { x: 42598, y: 39322, z: 36045 },
            pal1_b: Vec3 { x: 13107, y: 13107, z: 13107 },
            pal1_c: Vec3 { x: 65536, y: 65536, z: 65536 },
            pal1_d: Vec3 { x: 6554, y: 6554, z: 6554 },
            pal2_a: Vec3 { x: 36045, y: 32768, z: 29491 },
            pal2_b: Vec3 { x: 9830, y: 9830, z: 9830 },
            pal2_c: Vec3 { x: 65536, y: 65536, z: 65536 },
            pal2_d: Vec3 { x: 13107, y: 13107, z: 13107 },
            pal_mix_radius: 52429,
            rings_freq: 5898240,
            rings_speed: 0,
            stripes_angle_deg: 0,
            stripes_freq: 0,
            stripes_speed: 0,
            checker_scale: 917504,
            rings_weight: 55706,
            stripes_weight: 0,
            checker_weight: 3277,
            accent: Vec3 { x: 58982, y: 55706, z: 45875 },
            accent_strength: 7864,
            fbm_freq: 524288,
            fbm_octaves: 3,
            fbm_lacunarity: 131072,
            fbm_gain: 32768,
            fbm_time: 0,
            sat_base: 55706,
            sat_amp: 6554,
            bri_base: 62259,
            bri_amp: 6554,
            scan_intensity: 2621,
            bloom_strength: 5243,
        }
    }

    /// The star preset.
    pub fn star() -> (r: Material)
        ensures
            r == star_spec(),
            r.ok(),
    {
        Material {
            pal1_a: Vec3 { x: 65536, y: 62259, z: 55706 },
            pal1_b: Vec3 { x: 6554, y: 6554, z: 6554 },
            pal1_c: Vec3 { x: 65536, y: 65536, z: 65536 },
            pal1_d: Vec3 { x: 0, y: 21627, z: 43909 },
            pal2_a: Vec3 { x: 65536, y: 58982, z: 45875 },
            pal2_b: Vec3 { x: 13107, y: 6554, z: 0 },
            pal2_c: Vec3 { x: 65536, y: 65536, z: 65536 },
            pal2_d: Vec3 { x: 9830, y: 21627, z: 32768 },
            pal_mix_radius: 65536,
            rings_freq: 0,
            rings_speed: 0,
            stripes_angle_deg: 0,
            stripes_freq: 0,
            stripes_speed: 0,
            checker_scale: 0,
            rings_weight: 0,
            stripes_weight: 0,
            checker_weight: 0,
            accent: Vec3 { x: 65536, y: 62259, z: 55706 },
            accent_strength: 3277,
            fbm_freq: 117965,
            fbm_octaves: 5,
            fbm_lacunarity: 131072,
            fbm_gain: 35389,
            fbm_time: 52429,
            sat_base: 65536,
            sat_amp: 3277,
            bri_base: 72090,
            bri_amp: 22938,
            scan_intensity: 1966,
            bloom_strength: 22938,
        }
    }

    /// The moon preset.
    pub fn moon() -> (r: Material)
        ensures
            r == moon_spec(),
            r.ok(),
    {
        Material {
            pal1_a: Vec3 { x: 39322, y: 39322, z: 39322 },
            pal1_b: Vec3 { x: 13107, y: 13107, z: 13107 },
            pal1_c: Vec3 { x: 65536, y: 65536, z: 65536 },
            pal1_d: Vec3 { x: 13107, y: 13107, z: 13107 },
            pal2_a: Vec3 { x: 29491, y: 29491, z: 29491 },
            pal2_b: Vec3 { x: 9830, y: 9830, z: 9830 },
            pal2_c: Vec3 { x: 65536, y: 65536, z: 65536 },
            pal2_d: Vec3 { x: 19661, y: 19661, z: 19661 },
            pal_mix_radius: 39322,
            rings_freq: 0,
            rings_speed: 0,
            stripes_angle_deg: 0,
            stripes_freq: 0,
            stripes_speed: 0,
            checker_scale: 524288,
            rings_weight: 0,
            stripes_weight: 0,
            checker_weight: 3277,
            accent: Vec3 { x: 22938, y: 22938, z: 22938 },
            accent_strength: 9830,
            fbm_freq: 393216,
            fbm_octaves: 5,
            fbm_lacunarity: 131072,
            fbm_gain: 32768,
            fbm_time: 16384,
            sat_base: 32768,
            sat_amp: 13107,
            bri_base: 58982,
            bri_amp: 9830,
            scan_intensity: 1311,
            bloom_strength: 3277,
        }
    }
}

} // verus!
