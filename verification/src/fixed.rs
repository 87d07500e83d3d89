//! Q16.16 fixed-point scalars.
//!
//! A value `v: i64` stands for the real number `v / 65536`. All
//! arithmetic is exact integer arithmetic; multiplication and division
//! round toward zero, as the contracts state through [`tdiv`]. The
//! library's sine and cosine are a rational approximation (exact at
//! every multiple of a quarter turn), stated verbatim by their spec
//! functions, so every caller knows the precise value computed.

use vstd::prelude::*;

verus! {

/// Number of fractional steps per unit: the fixed-point one.
pub const FX_ONE: i64 = 65536;

/// Half turn (pi) in Q16.16, rounded to an even value so that the
/// quarter turn is exact.
pub const FX_PI: i64 = 205888;

/// Quarter turn (pi / 2) in Q16.16.
pub const FX_HALF_PI: i64 = 102944;

/// Full turn (2 * pi) in Q16.16.
pub const FX_TAU: i64 = 411776;

/// Truncating division (round toward zero) for a positive divisor.
/// Verus's own `/` on `int` rounds toward negative infinity, while
/// executable integer division truncates; the contracts in this
/// library speak through this function.
pub open spec fn tdiv(a: int, b: int) -> int {
    if a >= 0 {
        a / b
    } else {
        -((-a) / b)
    }
}

/// The product of two fixed-point values, rounded toward zero.
pub open spec fn fx_mul_spec(a: int, b: int) -> int {
    tdiv(a * b, FX_ONE as int)
}

/// The quotient of two fixed-point values, rounded toward zero.
pub open spec fn fx_div_spec(a: int, b: int) -> int {
    tdiv(a * (FX_ONE as int), b)
}

/// Fixed-point product; the factors must be small enough for the
/// rounded product to fit the representation.
pub fn fx_mul(a: i64, b: i64) -> (r: i64)
    requires
        i64::MIN <= fx_mul_spec(a as int, b as int) <= i64::MAX,
    ensures
        r == fx_mul_spec(a as int, b as int),
{
    let p: i128 = (a as i128) * (b as i128);
    let q: i128 = p / 65536;
    q as i64
}

/// Fixed-point quotient by a positive divisor.
pub fn fx_div(a: i64, b: i64) -> (r: i64)
    requires
        b > 0,
        i64::MIN <= fx_div_spec(a as int, b as int) <= i64::MAX,
    ensures
        r == fx_div_spec(a as int, b as int),
{
    let p: i128 = (a as i128) * 65536;
    let q: i128 = p / (b as i128);
    q as i64
}

/// Fixed-point quotient by a positive divisor, checked: `None` when
/// the true quotient leaves the representation.
pub fn fx_div_checked(a: i64, b: i64) -> (r: Option<i64>)
    requires
        b > 0,
    ensures
        match r {
            Some(q) => q == fx_div_spec(a as int, b as int),
            None => !(i64::MIN <= fx_div_spec(a as int, b as int) <= i64::MAX),
        },
{
    let p: i128 = (a as i128) * 65536;
    let q: i128 = p / (b as i128);
    if q < -0x8000_0000_0000_0000i128 || q > 0x7fff_ffff_ffff_ffffi128 {
        None
    } else {
        Some(q as i64)
    }
}

/// The whole-number part of a fixed-point value, rounded toward
/// negative infinity (the lattice cell a point falls in).
pub fn fx_floor(a: i64) -> (r: i64)
    ensures
        r == (a as int) / (FX_ONE as int),
{
    let t: i64 = a / 65536;
    if a < 0 && a % 65536 != 0 {
        t - 1
    } else {
        t
    }
}

/// The fractional part of a fixed-point value, in `[0, FX_ONE)`.
pub fn fx_fract(a: i64) -> (r: i64)
    ensures
        r == (a as int) % (FX_ONE as int),
        0 <= r < FX_ONE,
{
    let r: i64 = a % 65536;
    if r < 0 {
        r + 65536
    } else {
        r
    }
}

/// Euclidean remainder by a positive modulus: the result lies in
/// `[0, m)`.
pub fn fx_emod(a: i64, m: i64) -> (r: i64)
    requires
        m > 0,
    ensures
        r == (a as int) % (m as int),
        0 <= r < m,
{
    if a >= 0 {
        a % m
    } else {
        let t: i64 = a % m;
        proof {
            let n = -(a as int);
            let mm = m as int;
            let q = n / mm;
            vstd::arithmetic::div_mod::lemma_fundamental_div_mod(n, mm);
            if t == 0 {
                assert((-q) * mm + 0 == -(mm * q)) by (nonlinear_arith);
                vstd::arithmetic::div_mod::lemma_fundamental_div_mod_converse(
                    a as int,
                    mm,
                    -q,
                    0,
                );
            } else {
                assert((-q - 1) * mm == -(mm * q) - mm) by (nonlinear_arith);
                vstd::arithmetic::div_mod::lemma_fundamental_div_mod_converse(
                    a as int,
                    mm,
                    -q - 1,
                    t + mm,
                );
            }
        }
        if t == 0 {
            0
        } else {
            t + m
        }
    }
}

/// Clamp into an inclusive range.
pub fn fx_clamp(v: i64, lo: i64, hi: i64) -> (r: i64)
    requires
        lo <= hi,
    ensures
        r == if v < lo {
            lo as int
        } else if v > hi {
            hi as int
        } else {
            v as int
        },
{
    if v < lo {
        lo
    } else if v > hi {
        hi
    } else {
        v
    }
}

/// The larger of two values.
pub fn fx_max(a: i64, b: i64) -> (r: i64)
    ensures
        r == if a >= b {
            a as int
        } else {
            b as int
        },
{
    if a >= b {
        a
    } else {
        b
    }
}

/// The smaller of two values.
pub fn fx_min(a: i64, b: i64) -> (r: i64)
    ensures
        r == if a <= b {
            a as int
        } else {
            b as int
        },
{
    if a <= b {
        a
    } else {
        b
    }
}

/// The integer square root, rounded down, defined by counting up.
pub open spec fn isqrt_spec(v: int) -> int
    decreases v,
{
    if v <= 0 {
        0
    } else {
        let p = isqrt_spec(v - 1);
        if (p + 1) * (p + 1) <= v {
            p + 1
        } else {
            p
        }
    }
}

/// For `v >= 0`, `isqrt_spec(v)` is the unique `r >= 0` with
/// `r * r <= v < (r + 1) * (r + 1)`.
pub proof fn lemma_isqrt_bounds(v: int)
    requires
        0 <= v,
    ensures
        0 <= isqrt_spec(v),
        isqrt_spec(v) * isqrt_spec(v) <= v,
        v < (isqrt_spec(v) + 1) * (isqrt_spec(v) + 1),
    decreases v,
{
    if v > 0 {
        lemma_isqrt_bounds(v - 1);
        let p = isqrt_spec(v - 1);
        let s = isqrt_spec(v);
        if (p + 1) * (p + 1) <= v {
            assert(s == p + 1);
            assert((p + 2) * (p + 2) > (p + 1) * (p + 1)) by (nonlinear_arith)
                requires
                    0 <= p,
            ;
        } else {
            assert(s == p);
        }
    } else {
        assert(isqrt_spec(v) == 0);
    }
}

/// Two integers meeting the square-root bounds for `v` are equal.
pub proof fn lemma_isqrt_unique(v: int, r: int)
    requires
        0 <= r,
        r * r <= v,
        v < (r + 1) * (r + 1),
    ensures
        r == isqrt_spec(v),
{
    let s = isqrt_spec(v);
    lemma_isqrt_bounds(v);
    if r < s {
        assert((r + 1) * (r + 1) <= s * s) by (nonlinear_arith)
            requires
                0 <= r && r + 1 <= s,
        ;
    }
    if s < r {
        assert((s + 1) * (s + 1) <= r * r) by (nonlinear_arith)
            requires
                0 <= s && s + 1 <= r,
        ;
    }
}

/// Integer square root by binary search.
pub fn isqrt64(v: u64) -> (r: u64)
    ensures
        r == isqrt_spec(v as int),
{
    let mut lo: u64 = 0;
    let mut hi: u64 = 4294967295;
    while lo < hi
        invariant
            lo <= hi <= 4294967295,
            (lo as int) * (lo as int) <= v as int,
            (v as int) < ((hi as int) + 1) * ((hi as int) + 1),
        decreases hi - lo,
    {
        let mid: u64 = lo + (hi - lo + 1) / 2;
        proof {
            assert((mid as int) * (mid as int) <= 4294967295int * 4294967295int)
                by (nonlinear_arith)
                requires
                    0 <= mid <= 4294967295,
            ;
        }
        let sq: u128 = (mid as u128) * (mid as u128);
        if sq <= v as u128 {
            lo = mid;
        } else {
            hi = mid - 1;
        }
    }
    proof {
        lemma_isqrt_unique(v as int, lo as int);
    }
    lo
}

/// The integer cube root, rounded down, defined by counting up.
pub open spec fn icbrt_spec(v: int) -> int
    decreases v,
{
    if v <= 0 {
        0
    } else {
        let p = icbrt_spec(v - 1);
        if (p + 1) * (p + 1) * (p + 1) <= v {
            p + 1
        } else {
            p
        }
    }
}

/// For `v >= 0`, `icbrt_spec(v)` is the unique `r >= 0` with its cube
/// at most `v` and the next cube above `v`.
pub proof fn lemma_icbrt_bounds(v: int)
    requires
        0 <= v,
    ensures
        0 <= icbrt_spec(v),
        icbrt_spec(v) * icbrt_spec(v) * icbrt_spec(v) <= v,
        v < (icbrt_spec(v) + 1) * (icbrt_spec(v) + 1) * (icbrt_spec(v) + 1),
    decreases v,
{
    if v > 0 {
        lemma_icbrt_bounds(v - 1);
        let p = icbrt_spec(v - 1);
        let s = icbrt_spec(v);
        if (p + 1) * (p + 1) * (p + 1) <= v {
            assert(s == p + 1);
            assert((p + 2) * (p + 2) * (p + 2) > (p + 1) * (p + 1) * (p + 1)) by (nonlinear_arith)
                requires
                    0 <= p,
            ;
        } else {
            assert(s == p);
        }
    } else {
        assert(icbrt_spec(v) == 0);
    }
}

/// Two integers meeting the cube-root bounds for `v` are equal.
pub proof fn lemma_icbrt_unique(v: int, r: int)
    requires
        0 <= r,
        r * r * r <= v,
        v < (r + 1) * (r + 1) * (r + 1),
    ensures
        r == icbrt_spec(v),
{
    let s = icbrt_spec(v);
    lemma_icbrt_bounds(v);
    if r < s {
        assert((r + 1) * (r + 1) * (r + 1) <= s * s * s) by (nonlinear_arith)
            requires
                0 <= r && r + 1 <= s,
        ;
    }
    if s < r {
        assert((s + 1) * (s + 1) * (s + 1) <= r * r * r) by (nonlinear_arith)
            requires
                0 <= s && s + 1 <= r,
        ;
    }
}

/// Integer cube root by binary search.
pub fn icbrt64(v: u64) -> (r: u64)
    ensures
        r == icbrt_spec(v as int),
{
    let mut lo: u64 = 0;
    let mut hi: u64 = 4194304;
    proof {
        assert((4194305int) * 4194305int * 4194305int > u64::MAX) by (nonlinear_arith);
    }
    while lo < hi
        invariant
            lo <= hi <= 4194304,
            (lo as int) * (lo as int) * (lo as int) <= v as int,
            (v as int) < ((hi as int) + 1) * ((hi as int) + 1) * ((hi as int) + 1),
        decreases hi - lo,
    {
        let mid: u64 = lo + (hi - lo + 1) / 2;
        proof {
            assert((mid as int) * (mid as int) <= 4194304int * 4194304int) by (nonlinear_arith)
                requires
                    0 <= mid <= 4194304,
            ;
            assert((mid as int) * (mid as int) * (mid as int) <= 4194304int * 4194304int
                * 4194304int) by (nonlinear_arith)
                requires
                    0 <= mid <= 4194304,
            ;
        }
        let cu: u128 = (mid as u128) * (mid as u128) * (mid as u128);
        if cu <= v as u128 {
            lo = mid;
        } else {
            hi = mid - 1;
        }
    }
    proof {
        lemma_icbrt_unique(v as int, lo as int);
    }
    lo
}

/// The square root of a fixed-point value, rounded down in the last
/// fixed-point place.
pub open spec fn fx_sqrt_spec(x: int) -> int {
    isqrt_spec(x * (FX_ONE as int))
}

/// Fixed-point square root of a non-negative value.
pub fn fx_sqrt(x: i64) -> (r: i64)
    requires
        0 <= x <= 0x7fff_ffff_ffff,
    ensures
        r == fx_sqrt_spec(x as int),
        0 <= r,
{
    let v: u64 = (x as u64) * 65536;
    let r: u64 = isqrt64(v);
    proof {
        lemma_isqrt_bounds(v as int);
        let s = isqrt_spec(v as int);
        if s >= 3037000500 {
            assert((3037000500int) * 3037000500int <= s * s) by (nonlinear_arith)
                requires
                    s >= 3037000500,
            ;
        }
    }
    r as i64
}

/// The cube root of a fixed-point value, rounded down in the last
/// fixed-point place.
pub open spec fn fx_cbrt_spec(x: int) -> int {
    icbrt_spec(x * (FX_ONE as int) * (FX_ONE as int))
}

/// Fixed-point cube root of a non-negative value.
pub fn fx_cbrt(x: i64) -> (r: i64)
    requires
        0 <= x <= 0x7fff_ffff,
    ensures
        r == fx_cbrt_spec(x as int),
        0 <= r,
{
    let v: u64 = (x as u64) * 65536 * 65536;
    let r: u64 = icbrt64(v);
    proof {
        lemma_icbrt_bounds(v as int);
        let s = icbrt_spec(v as int);
        if s >= 2642246 {
            assert((2642246int) * 2642246int * 2642246int <= s * s * s) by (nonlinear_arith)
                requires
                    s >= 2642246,
            ;
        }
        assert((2642246int) * 2642246int * 2642246int > u64::MAX) by (nonlinear_arith);
    }
    r as i64
}

/// The library's sine on one half turn: a rational approximation of
/// `sin` for `x` in `[0, FX_PI]`, exact at `0`, `FX_HALF_PI` and
/// `FX_PI` and within about `0.002` of the true sine elsewhere.
pub open spec fn sin_half_spec(x: int) -> int {
    tdiv(16 * (x * (FX_PI - x)) * (FX_ONE as int), 5 * ((FX_PI as int) * (FX_PI as int)) - 4 * (x
        * (FX_PI - x)))
}

/// The library's sine of any angle: the half-turn approximation,
/// extended by point symmetry over the reduced angle.
pub open spec fn fx_sin_spec(x: int) -> int {
    let m = x % (FX_TAU as int);
    if m <= FX_PI {
        sin_half_spec(m)
    } else {
        -sin_half_spec(m - FX_PI)
    }
}

/// The library's cosine: the sine a quarter turn ahead.
pub open spec fn fx_cos_spec(x: int) -> int {
    fx_sin_spec(x + FX_HALF_PI)
}

fn sin_half(x: i64) -> (r: i64)
    requires
        0 <= x <= FX_PI,
    ensures
        r == sin_half_spec(x as int),
        0 <= r <= FX_ONE,
{
    proof {
        assert(0 <= (x as int) * (FX_PI - x as int) && 4 * ((x as int) * (FX_PI - x as int)) <= (
        FX_PI as int) * (FX_PI as int)) by (nonlinear_arith)
            requires
                0 <= x as int <= FX_PI as int,
        ;
    }
    let q: i128 = (x as i128) * ((FX_PI - x) as i128);
    let num: i128 = 16 * q * 65536;
    let den: i128 = 5 * (205888i128 * 205888i128) - 4 * q;
    let r: i128 = num / den;
    proof {
        let qi = (x as int) * (FX_PI - x as int);
        let deni = 5 * ((FX_PI as int) * (FX_PI as int)) - 4 * qi;
        assert(16 * qi * (FX_ONE as int) <= deni * (FX_ONE as int)) by (nonlinear_arith)
            requires
                0 <= qi && 4 * qi <= (FX_PI as int) * (FX_PI as int) && deni == 5 * ((
                FX_PI as int) * (FX_PI as int)) - 4 * qi,
        ;
        assert(tdiv(16 * qi * (FX_ONE as int), deni) <= FX_ONE as int) by {
            vstd::arithmetic::div_mod::lemma_div_is_ordered(
                16 * qi * (FX_ONE as int),
                deni * (FX_ONE as int),
                deni,
            );
            vstd::arithmetic::div_mod::lemma_div_by_multiple(FX_ONE as int, deni);
        };
    }
    r as i64
}

/// The library's sine. The result is a Q16.16 value in
/// `[-FX_ONE, FX_ONE]`, exact at every multiple of the quarter turn.
pub fn fx_sin(x: i64) -> (r: i64)
    ensures
        r == fx_sin_spec(x as int),
        -FX_ONE <= r <= FX_ONE,
{
    let m = fx_emod(x, FX_TAU);
    if m <= FX_PI {
        sin_half(m)
    } else {
        -sin_half(m - FX_PI)
    }
}

/// The library's cosine, as the sine a quarter turn ahead.
pub fn fx_cos(x: i64) -> (r: i64)
    ensures
        r == fx_cos_spec(x as int),
        -FX_ONE <= r <= FX_ONE,
{
    let m = fx_emod(x, FX_TAU);
    let r = fx_sin(m + FX_HALF_PI);
    proof {
        vstd::arithmetic::div_mod::lemma_add_mod_noop(
            x as int,
            FX_HALF_PI as int,
            FX_TAU as int,
        );
        vstd::arithmetic::div_mod::lemma_small_mod(FX_HALF_PI as nat, FX_TAU as nat);
        vstd::arithmetic::div_mod::lemma_mod_twice(x as int, FX_TAU as int);
        vstd::arithmetic::div_mod::lemma_add_mod_noop(
            (x as int) % (FX_TAU as int),
            FX_HALF_PI as int,
            FX_TAU as int,
        );
    }
    r
}

/// For non-negative `a` with `a <= c * b`, the truncating quotient
/// `a / b` lies in `[0, c]`.
pub proof fn lemma_tdiv_nonneg_le(a: int, b: int, c: int)
    requires
        0 <= a,
        0 < b,
        a <= c * b,
    ensures
        0 <= tdiv(a, b) <= c,
{
    assert(0 <= c) by (nonlinear_arith)
        requires
            0 < b && 0 <= a && a <= c * b,
    ;
    vstd::arithmetic::div_mod::lemma_div_pos_is_pos(a, b);
    vstd::arithmetic::div_mod::lemma_div_is_ordered(a, c * b, b);
    vstd::arithmetic::div_mod::lemma_div_by_multiple(c, b);
}

/// The library's arctangent on `[0, FX_ONE]`: a quadratic
/// approximation of `atan`, exact at `0` and `FX_ONE` up to rounding
/// and within about `0.005` radians elsewhere.
pub open spec fn atan01_spec(z: int) -> int {
    fx_mul_spec(z, 51472) + fx_mul_spec(fx_mul_spec(17892, z), (FX_ONE as int) - z)
}

fn atan01(z: i64) -> (r: i64)
    requires
        0 <= z <= FX_ONE,
    ensures
        r == atan01_spec(z as int),
        0 <= r <= 69364,
{
    proof {
        lemma_tdiv_nonneg_le((z as int) * 51472, FX_ONE as int, 51472);
        lemma_tdiv_nonneg_le(17892 * (z as int), FX_ONE as int, 17892);
    }
    let t1 = fx_mul(z, 51472);
    let inner = fx_mul(17892, z);
    proof {
        let ii = fx_mul_spec(17892, z as int);
        assert(ii * ((FX_ONE as int) - z as int) <= 17892 * (FX_ONE as int)) by (nonlinear_arith)
            requires
                0 <= ii <= 17892 && 0 <= (FX_ONE as int) - z as int <= FX_ONE as int,
        ;
        lemma_tdiv_nonneg_le(ii * ((FX_ONE as int) - z as int), FX_ONE as int, 17892);
    }
    let t2 = fx_mul(inner, 65536 - z);
    t1 + t2
}

/// The angle of the point `(x, y)`, measured from the positive `x`
/// axis, in `(-FX_PI, FX_PI]`: an octant-folded arctangent.
pub open spec fn fx_atan2_spec(y: int, x: int) -> int {
    let ax = if x >= 0 {
        x
    } else {
        -x
    };
    let ay = if y >= 0 {
        y
    } else {
        -y
    };
    let base = if ay <= ax {
        if ax == 0 {
            0
        } else {
            atan01_spec(fx_div_spec(ay, ax))
        }
    } else {
        (FX_HALF_PI as int) - atan01_spec(fx_div_spec(ax, ay))
    };
    let mag = if x >= 0 {
        base
    } else {
        (FX_PI as int) - base
    };
    if y >= 0 {
        mag
    } else {
        -mag
    }
}

/// The library's planar angle for small inputs (the shader's centered
/// texture coordinates).
pub fn fx_atan2(y: i64, x: i64) -> (r: i64)
    requires
        -FX_ONE <= y <= FX_ONE,
        -FX_ONE <= x <= FX_ONE,
    ensures
        r == fx_atan2_spec(y as int, x as int),
        -FX_PI <= r <= FX_PI,
{
    let ax = if x >= 0 {
        x
    } else {
        -x
    };
    let ay = if y >= 0 {
        y
    } else {
        -y
    };
    let base = if ay <= ax {
        if ax == 0 {
            0
        } else {
            proof {
                assert((ay as int) * (FX_ONE as int) <= (FX_ONE as int) * (ax as int))
                    by (nonlinear_arith)
                    requires
                        0 <= ay <= ax,
                ;
                lemma_tdiv_nonneg_le((ay as int) * (FX_ONE as int), ax as int, FX_ONE as int);
            }
            atan01(fx_div(ay, ax))
        }
    } else {
        proof {
            assert((ax as int) * (FX_ONE as int) <= (FX_ONE as int) * (ay as int))
                by (nonlinear_arith)
                requires
                    0 <= ax <= ay,
            ;
            lemma_tdiv_nonneg_le((ax as int) * (FX_ONE as int), ay as int, FX_ONE as int);
        }
        FX_HALF_PI - atan01(fx_div(ax, ay))
    };
    let mag = if x >= 0 {
        base
    } else {
        FX_PI - base
    };
    if y >= 0 {
        mag
    } else {
        -mag
    }
}

/// Scalars at most this large in magnitude survive one fixed-point
/// product without leaving the representation.
pub const FX_BOUND: i64 = 0x40_0000_0000;

/// A scalar small enough for the geometry stages: one product of two
/// such values still fits, with room for four-term sums.
pub open spec fn fx_ok(v: int) -> bool {
    -(FX_BOUND as int) <= v <= FX_BOUND as int
}

/// Truncating division keeps a symmetric bound: if `|p| <= cap * b`
/// then `|tdiv(p, b)| <= cap`.
pub proof fn lemma_tdiv_abs_le(p: int, b: int, cap: int)
    requires
        0 < b,
        0 <= cap,
        -(cap * b) <= p <= cap * b,
    ensures
        -cap <= tdiv(p, b) <= cap,
{
    if p >= 0 {
        lemma_tdiv_nonneg_le(p, b, cap);
    } else {
        lemma_tdiv_nonneg_le(-p, b, cap);
    }
}

/// The fixed-point product of two in-bound scalars stays within
/// `2^60`, so sums of a few such products still fit the machine word.
pub proof fn lemma_fx_mul_ok(a: int, b: int)
    requires
        fx_ok(a),
        fx_ok(b),
    ensures
        -0x1000_0000_0000_0000 <= fx_mul_spec(a, b) <= 0x1000_0000_0000_0000,
{
    assert(-(0x1000_0000_0000_0000int * (FX_ONE as int)) <= a * b <= 0x1000_0000_0000_0000int * (
    FX_ONE as int)) by (nonlinear_arith)
        requires
            fx_ok(a) && fx_ok(b),
    ;
    lemma_tdiv_abs_le(a * b, FX_ONE as int, 0x1000_0000_0000_0000);
}

/// A fixed-point square is never negative.
pub proof fn lemma_fx_square_nonneg(a: int)
    ensures
        0 <= fx_mul_spec(a, a),
{
    assert(0 <= a * a) by (nonlinear_arith);
    if a * a >= 0 {
        vstd::arithmetic::div_mod::lemma_div_pos_is_pos(a * a, FX_ONE as int);
    }
}

/// Negating one factor negates the fixed-point product exactly.
pub proof fn lemma_fx_mul_neg(a: int, b: int)
    ensures
        fx_mul_spec(-a, b) == -fx_mul_spec(a, b),
        fx_mul_spec(a, -b) == -fx_mul_spec(a, b),
{
    assert((-a) * b == -(a * b)) by (nonlinear_arith);
    assert(a * (-b) == -(a * b)) by (nonlinear_arith);
}

/// A zero factor gives a zero fixed-point product.
pub proof fn lemma_fx_mul_zero(a: int)
    ensures
        fx_mul_spec(a, 0) == 0,
        fx_mul_spec(0, a) == 0,
{
    assert(a * 0 == 0) by (nonlinear_arith);
    assert(0 * a == 0) by (nonlinear_arith);
}

/// Multiplying by the fixed-point one is exact, in either position,
/// and so is dividing by it.
pub proof fn lemma_fx_one(a: int)
    ensures
        fx_mul_spec(a, FX_ONE as int) == a,
        fx_mul_spec(FX_ONE as int, a) == a,
        fx_div_spec(a, FX_ONE as int) == a,
{
    if a >= 0 {
        vstd::arithmetic::div_mod::lemma_div_by_multiple(a, FX_ONE as int);
    } else {
        vstd::arithmetic::div_mod::lemma_div_by_multiple(-a, FX_ONE as int);
    }
}

/// A product of bounded fixed-point factors is bounded by the scaled
/// product of the bounds.
pub proof fn lemma_fx_mul_le(a: int, b: int, ca: int, cb: int, cap: int)
    requires
        -ca <= a <= ca,
        -cb <= b <= cb,
        0 <= ca,
        0 <= cb,
        0 <= cap,
        ca * cb <= cap * (FX_ONE as int),
    ensures
        -cap <= fx_mul_spec(a, b) <= cap,
{
    assert(-(ca * cb) <= a * b <= ca * cb) by (nonlinear_arith)
        requires
            -ca <= a <= ca && -cb <= b <= cb && 0 <= ca && 0 <= cb,
    ;
    lemma_tdiv_abs_le(a * b, FX_ONE as int, cap);
}

} // verus!
