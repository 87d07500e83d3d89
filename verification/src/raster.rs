//! The rasterizer: a screen-space triangle becomes fragments, one per
//! covered pixel, with depth and color interpolated barycentrically.
//!
//! Vertices carry fixed-point pixel coordinates and a depth in
//! normalized device coordinates. A pixel is covered when all three
//! edge weights lie strictly on the triangle's side, or on the
//! boundary of an edge the top-left rule admits — one uniform rule,
//! so triangles that share an edge under a consistent winding never
//! cover a boundary pixel twice. A triangle of zero signed area
//! produces no fragments.

use vstd::prelude::*;
use crate::fixed::{lemma_tdiv_abs_le, tdiv, FX_BOUND, FX_ONE};
use crate::vec3::Vec3;

verus! {

/// A screen-space fragment: integer pixel position, interpolated
/// color, and depth in normalized device coordinates.
#[derive(Clone, Copy, PartialEq, Eq, Structural, Debug)]
pub struct Fragment {
    pub x: i64,
    pub y: i64,
    pub color: Vec3,
    pub depth: i64,
}

impl Fragment {
    /// Build a fragment from its parts.
    pub fn new(x: i64, y: i64, color: Vec3, depth: i64) -> (r: Fragment)
        ensures
            r == (Fragment { x, y, color, depth }),
    {
        Fragment { x, y, color, depth }
    }
}

/// Twice the signed area of the triangle `(a, b, p)`: the edge
/// function of `a -> b` evaluated at `p`.
pub open spec fn orient2d_spec(ax: int, ay: int, bx: int, by: int, px: int, py: int) -> int {
    (bx - ax) * (py - ay) - (by - ay) * (px - ax)
}

/// Coordinates small enough for exact edge-function arithmetic.
pub open spec fn coord_ok(v: Vec3) -> bool {
    -(FX_BOUND as int) <= v.x <= FX_BOUND as int && -(FX_BOUND as int) <= v.y <= FX_BOUND as int
        && -(FX_BOUND as int) <= v.z <= FX_BOUND as int
}

fn orient2d(ax: i64, ay: i64, bx: i64, by: i64, px: i64, py: i64) -> (r: i128)
    requires
        -0x200_0000_0000_0000 <= ax <= 0x200_0000_0000_0000,
        -0x200_0000_0000_0000 <= ay <= 0x200_0000_0000_0000,
        -0x200_0000_0000_0000 <= bx <= 0x200_0000_0000_0000,
        -0x200_0000_0000_0000 <= by <= 0x200_0000_0000_0000,
        -0x200_0000_0000_0000 <= px <= 0x200_0000_0000_0000,
        -0x200_0000_0000_0000 <= py <= 0x200_0000_0000_0000,
    ensures
        r == orient2d_spec(ax as int, ay as int, bx as int, by as int, px as int, py as int),
{
    proof {
        assert(((bx - ax) as int) * ((py - ay) as int) <= 0x400_0000_0000_0000int
            * 0x400_0000_0000_0000int && ((bx - ax) as int) * ((py - ay) as int)
            >= -(0x400_0000_0000_0000int * 0x400_0000_0000_0000int)) by (nonlinear_arith)
            requires
                -0x400_0000_0000_0000 <= (bx - ax) as int <= 0x400_0000_0000_0000,
                -0x400_0000_0000_0000 <= (py - ay) as int <= 0x400_0000_0000_0000,
        ;
        assert(((by - ay) as int) * ((px - ax) as int) <= 0x400_0000_0000_0000int
            * 0x400_0000_0000_0000int && ((by - ay) as int) * ((px - ax) as int)
            >= -(0x400_0000_0000_0000int * 0x400_0000_0000_0000int)) by (nonlinear_arith)
            requires
                -0x400_0000_0000_0000 <= (by - ay) as int <= 0x400_0000_0000_0000,
                -0x400_0000_0000_0000 <= (px - ax) as int <= 0x400_0000_0000_0000,
        ;
    }
    ((bx - ax) as i128) * ((py - ay) as i128) - ((by - ay) as i128) * ((px - ax) as i128)
}

/// The three barycentric edge weights of the pixel `(px, py)` against
/// the triangle, each twice a signed sub-triangle area, and twice the
/// triangle's own signed area; the weights always sum to the area.
pub open spec fn weight_a(a: Vec3, b: Vec3, c: Vec3, px: int, py: int) -> int {
    orient2d_spec(
        b.x as int,
        b.y as int,
        c.x as int,
        c.y as int,
        px * (FX_ONE as int),
        py * (FX_ONE as int),
    )
}

pub open spec fn weight_b(a: Vec3, b: Vec3, c: Vec3, px: int, py: int) -> int {
    orient2d_spec(
        c.x as int,
        c.y as int,
        a.x as int,
        a.y as int,
        px * (FX_ONE as int),
        py * (FX_ONE as int),
    )
}

pub open spec fn weight_c(a: Vec3, b: Vec3, c: Vec3, px: int, py: int) -> int {
    orient2d_spec(
        a.x as int,
        a.y as int,
        b.x as int,
        b.y as int,
        px * (FX_ONE as int),
        py * (FX_ONE as int),
    )
}

pub open spec fn tri_area2(a: Vec3, b: Vec3, c: Vec3) -> int {
    orient2d_spec(a.x as int, a.y as int, b.x as int, b.y as int, c.x as int, c.y as int)
}

/// The three edge weights of any point sum to twice the triangle's
/// signed area.
#[verifier::spinoff_prover]
pub proof fn lemma_weights_sum(a: Vec3, b: Vec3, c: Vec3, px: int, py: int)
    ensures
        weight_a(a, b, c, px, py) + weight_b(a, b, c, px, py) + weight_c(a, b, c, px, py)
            == tri_area2(a, b, c),
{
    let sx = px * (FX_ONE as int);
    let sy = py * (FX_ONE as int);
    let axs = a.x as int - sx;
    let ays = a.y as int - sy;
    let bxs = b.x as int - sx;
    let bys = b.y as int - sy;
    let cxs = c.x as int - sx;
    let cys = c.y as int - sy;
    assert(weight_a(a, b, c, px, py) == bxs * cys - bys * cxs) by (nonlinear_arith)
        requires
            weight_a(a, b, c, px, py) == (c.x as int - b.x as int) * (sy - b.y as int) - (
            c.y as int - b.y as int) * (sx - b.x as int),
            bxs == b.x as int - sx,
            bys == b.y as int - sy,
            cxs == c.x as int - sx,
            cys == c.y as int - sy,
    ;
    assert(weight_b(a, b, c, px, py) == cxs * ays - cys * axs) by (nonlinear_arith)
        requires
            weight_b(a, b, c, px, py) == (a.x as int - c.x as int) * (sy - c.y as int) - (
            a.y as int - c.y as int) * (sx - c.x as int),
            axs == a.x as int - sx,
            ays == a.y as int - sy,
            cxs == c.x as int - sx,
            cys == c.y as int - sy,
    ;
    assert(weight_c(a, b, c, px, py) == axs * bys - ays * bxs) by (nonlinear_arith)
        requires
            weight_c(a, b, c, px, py) == (b.x as int - a.x as int) * (sy - a.y as int) - (
            b.y as int - a.y as int) * (sx - a.x as int),
            axs == a.x as int - sx,
            ays == a.y as int - sy,
            bxs == b.x as int - sx,
            bys == b.y as int - sy,
    ;
    assert(tri_area2(a, b, c) == bxs * cys - bys * cxs + (cxs * ays - cys * axs) + (axs * bys - ays
        * bxs)) by (nonlinear_arith)
        requires
            tri_area2(a, b, c) == (b.x as int - a.x as int) * (c.y as int - a.y as int) - (
            b.y as int - a.y as int) * (c.x as int - a.x as int),
            axs == a.x as int - sx,
            ays == a.y as int - sy,
            bxs == b.x as int - sx,
            bys == b.y as int - sy,
            cxs == c.x as int - sx,
            cys == c.y as int - sy,
    ;
}

/// A directed edge admits its boundary pixels only when it points
/// toward negative `y`, or is horizontal and points toward positive
/// `x` (a top-left rule). Of two opposite directions, never both: so
/// two triangles that share an edge under one consistent winding
/// never both claim a pixel on it.
pub open spec fn edge_tl(dx: int, dy: int) -> bool {
    dy < 0 || (dy == 0 && dx > 0)
}

/// A pixel is covered when every edge weight is strictly on the
/// triangle's side, or zero on an edge that admits its boundary under
/// the top-left rule, taken along the triangle's own winding; a
/// degenerate triangle covers nothing. The rule is the same for both
/// windings, so shared edges are never covered twice.
pub open spec fn covered_spec(a: Vec3, b: Vec3, c: Vec3, px: int, py: int) -> bool {
    let ar = tri_area2(a, b, c);
    let wa = weight_a(a, b, c, px, py);
    let wb = weight_b(a, b, c, px, py);
    let wc = weight_c(a, b, c, px, py);
    if ar > 0 {
        (wa > 0 || (wa == 0 && edge_tl(c.x - b.x, c.y - b.y))) && (wb > 0 || (wb == 0 && edge_tl(
            a.x - c.x,
            a.y - c.y,
        ))) && (wc > 0 || (wc == 0 && edge_tl(b.x - a.x, b.y - a.y)))
    } else if ar < 0 {
        (wa < 0 || (wa == 0 && edge_tl(b.x - c.x, b.y - c.y))) && (wb < 0 || (wb == 0 && edge_tl(
            c.x - a.x,
            c.y - a.y,
        ))) && (wc < 0 || (wc == 0 && edge_tl(a.x - b.x, a.y - b.y)))
    } else {
        false
    }
}

/// A pixel on the edge two triangles share, drawn with one consistent
/// winding (both areas positive, or both negative, as seen with the
/// shared edge traversed in opposite directions), is covered by at
/// most one of the two: the boundary rule admits one direction of an
/// edge, never both.
pub proof fn lemma_shared_edge_no_double_cover(
    a: Vec3,
    b: Vec3,
    c: Vec3,
    d: Vec3,
    px: int,
    py: int,
)
    requires
        weight_c(a, b, c, px, py) == 0,
        (tri_area2(a, b, c) > 0 && tri_area2(b, a, d) > 0) || (tri_area2(a, b, c) < 0
            && tri_area2(b, a, d) < 0),
    ensures
        !(covered_spec(a, b, c, px, py) && covered_spec(b, a, d, px, py)),
{
    let sx = px * (FX_ONE as int);
    let sy = py * (FX_ONE as int);
    assert(weight_c(b, a, d, px, py) == -weight_c(a, b, c, px, py)) by (nonlinear_arith)
        requires
            weight_c(a, b, c, px, py) == (b.x as int - a.x as int) * (sy - a.y as int) - (
            b.y as int - a.y as int) * (sx - a.x as int),
            weight_c(b, a, d, px, py) == (a.x as int - b.x as int) * (sy - b.y as int) - (
            a.y as int - b.y as int) * (sx - b.x as int),
            sx == px * (FX_ONE as int),
            sy == py * (FX_ONE as int),
    ;
    if covered_spec(a, b, c, px, py) && covered_spec(b, a, d, px, py) {
        if a.x == b.x && a.y == b.y {
            assert(tri_area2(a, b, c) == 0) by (nonlinear_arith)
                requires
                    tri_area2(a, b, c) == (b.x as int - a.x as int) * (c.y as int - a.y as int) - (
                    b.y as int - a.y as int) * (c.x as int - a.x as int),
                    a.x == b.x,
                    a.y == b.y,
            ;
        }
    }
}

/// Barycentric interpolation of a vertex attribute at a pixel,
/// weights and area oriented positive, rounded toward zero.
pub open spec fn interp_spec(a: Vec3, b: Vec3, c: Vec3, px: int, py: int, va: int, vb: int, vc: int) -> int {
    let ar = tri_area2(a, b, c);
    let wa = weight_a(a, b, c, px, py);
    let wb = weight_b(a, b, c, px, py);
    let wc = weight_c(a, b, c, px, py);
    if ar >= 0 {
        tdiv(wa * va + wb * vb + wc * vc, ar)
    } else {
        tdiv((-wa) * va + (-wb) * vb + (-wc) * vc, -ar)
    }
}

/// The fragment the rasterizer emits for a covered pixel: the
/// position, the barycentric depth, and the barycentric color.
pub open spec fn frag_at_spec(a: Vec3, b: Vec3, c: Vec3, ca: Vec3, cb: Vec3, cc: Vec3, px: int, py: int) -> Fragment {
    Fragment {
        x: px as i64,
        y: py as i64,
        color: Vec3 {
            x: interp_spec(a, b, c, px, py, ca.x as int, cb.x as int, cc.x as int) as i64,
            y: interp_spec(a, b, c, px, py, ca.y as int, cb.y as int, cc.y as int) as i64,
            z: interp_spec(a, b, c, px, py, ca.z as int, cb.z as int, cc.z as int) as i64,
        },
        depth: interp_spec(a, b, c, px, py, a.z as int, b.z as int, c.z as int) as i64,
    }
}

/// An attribute interpolated with non-negative weights that sum to
/// the (positive) area stays within the attribute bound.
proof fn lemma_interp_bound(wa: int, wb: int, wc: int, ar: int, va: int, vb: int, vc: int, m: int)
    requires
        0 <= wa,
        0 <= wb,
        0 <= wc,
        wa + wb + wc == ar,
        0 < ar,
        -m <= va <= m,
        -m <= vb <= m,
        -m <= vc <= m,
        0 <= m,
    ensures
        -(m * ar) <= wa * va + wb * vb + wc * vc <= m * ar,
{
    assert(wa * va + wb * vb + wc * vc <= m * (wa + wb + wc) && wa * va + wb * vb + wc * vc >= -(m
        * (wa + wb + wc))) by (nonlinear_arith)
        requires
            0 <= wa,
            0 <= wb,
            0 <= wc,
            -m <= va <= m,
            -m <= vb <= m,
            -m <= vc <= m,
    ;
}

fn interp(
    wa: i128,
    wb: i128,
    wc: i128,
    ar: i128,
    va: i64,
    vb: i64,
    vc: i64,
    Ghost(a): Ghost<Vec3>,
    Ghost(b): Ghost<Vec3>,
    Ghost(c): Ghost<Vec3>,
    Ghost(px): Ghost<int>,
    Ghost(py): Ghost<int>,
) -> (r: i64)
    requires
        0 < ar,
        0 <= wa,
        0 <= wb,
        0 <= wc,
        wa + wb + wc == ar,
        -FX_BOUND <= va <= FX_BOUND,
        -FX_BOUND <= vb <= FX_BOUND,
        -FX_BOUND <= vc <= FX_BOUND,
        ar <= 0x8_0000_0000_0000_0000_0000,
        tri_area2(a, b, c) >= 0 ==> wa == weight_a(a, b, c, px, py) && wb == weight_b(
            a,
            b,
            c,
            px,
            py,
        ) && wc == weight_c(a, b, c, px, py) && ar == tri_area2(a, b, c),
        tri_area2(a, b, c) < 0 ==> wa == -weight_a(a, b, c, px, py) && wb == -weight_b(
            a,
            b,
            c,
            px,
            py,
        ) && wc == -weight_c(a, b, c, px, py) && ar == -tri_area2(a, b, c),
    ensures
        r == interp_spec(a, b, c, px, py, va as int, vb as int, vc as int),
        -FX_BOUND <= r <= FX_BOUND,
{
    proof {
        lemma_interp_bound(
            wa as int,
            wb as int,
            wc as int,
            ar as int,
            va as int,
            vb as int,
            vc as int,
            FX_BOUND as int,
        );
        assert((wa as int) * (va as int) <= 0x8_0000_0000_0000_0000_0000int * (FX_BOUND as int)
            && (wa as int) * (va as int) >= -(0x8_0000_0000_0000_0000_0000int * (
        FX_BOUND as int))) by (nonlinear_arith)
            requires
                0 <= wa <= 0x8_0000_0000_0000_0000_0000,
                -FX_BOUND <= va as int <= FX_BOUND as int,
        ;
        assert((wb as int) * (vb as int) <= 0x8_0000_0000_0000_0000_0000int * (FX_BOUND as int)
            && (wb as int) * (vb as int) >= -(0x8_0000_0000_0000_0000_0000int * (
        FX_BOUND as int))) by (nonlinear_arith)
            requires
                0 <= wb <= 0x8_0000_0000_0000_0000_0000,
                -FX_BOUND <= vb as int <= FX_BOUND as int,
        ;
        assert((wc as int) * (vc as int) <= 0x8_0000_0000_0000_0000_0000int * (FX_BOUND as int)
            && (wc as int) * (vc as int) >= -(0x8_0000_0000_0000_0000_0000int * (
        FX_BOUND as int))) by (nonlinear_arith)
            requires
                0 <= wc <= 0x8_0000_0000_0000_0000_0000,
                -FX_BOUND <= vc as int <= FX_BOUND as int,
        ;
        assert((FX_BOUND as int) * (ar as int) == (ar as int) * (FX_BOUND as int))
            by (nonlinear_arith);
        lemma_tdiv_abs_le(
            (wa as int) * (va as int) + (wb as int) * (vb as int) + (wc as int) * (vc as int),
            ar as int,
            FX_BOUND as int,
        );
    }
    let num: i128 = wa * (va as i128) + wb * (vb as i128) + wc * (vc as i128);
    let q: i128 = num / ar;
    q as i64
}

/// The smallest of three values.
pub open spec fn min3(a: int, b: int, c: int) -> int {
    if a <= b && a <= c {
        a
    } else if b <= c {
        b
    } else {
        c
    }
}

/// The largest of three values.
pub open spec fn max3(a: int, b: int, c: int) -> int {
    if a >= b && a >= c {
        a
    } else if b >= c {
        b
    } else {
        c
    }
}

fn min3e(a: i64, b: i64, c: i64) -> (r: i64)
    ensures
        r == min3(a as int, b as int, c as int),
{
    if a <= b && a <= c {
        a
    } else if b <= c {
        b
    } else {
        c
    }
}

fn max3e(a: i64, b: i64, c: i64) -> (r: i64)
    ensures
        r == max3(a as int, b as int, c as int),
{
    if a >= b && a >= c {
        a
    } else if b >= c {
        b
    } else {
        c
    }
}

/// A covered pixel's sample point lies inside the triangle's
/// coordinate bounding box: barycentric weights reproduce the point,
/// so it is a convex combination of the three corners.
#[verifier::spinoff_prover]
pub proof fn lemma_covered_in_bbox(a: Vec3, b: Vec3, c: Vec3, px: int, py: int)
    requires
        covered_spec(a, b, c, px, py),
    ensures
        min3(a.x as int, b.x as int, c.x as int) <= px * (FX_ONE as int) <= max3(
            a.x as int,
            b.x as int,
            c.x as int,
        ),
        min3(a.y as int, b.y as int, c.y as int) <= py * (FX_ONE as int) <= max3(
            a.y as int,
            b.y as int,
            c.y as int,
        ),
{
    let sx = px * (FX_ONE as int);
    let sy = py * (FX_ONE as int);
    let wa = weight_a(a, b, c, px, py);
    let wb = weight_b(a, b, c, px, py);
    let wc = weight_c(a, b, c, px, py);
    let ar = tri_area2(a, b, c);
    lemma_weights_sum(a, b, c, px, py);
    lemma_reproduce_zero(a.x as int, a.y as int, b.x as int, b.y as int, c.x as int, c.y as int, sx, sy, wa, wb, wc);
    assert(wa * (a.x as int) + wb * (b.x as int) + wc * (c.x as int) == ar * sx) by {
        assert(wa * (a.x as int) == wa * (a.x as int - sx) + wa * sx) by (nonlinear_arith);
        assert(wb * (b.x as int) == wb * (b.x as int - sx) + wb * sx) by (nonlinear_arith);
        assert(wc * (c.x as int) == wc * (c.x as int - sx) + wc * sx) by (nonlinear_arith);
        assert(wa * sx + wb * sx + wc * sx == ar * sx) by (nonlinear_arith)
            requires
                wa + wb + wc == ar,
        ;
    };
    assert(wa * (a.y as int) + wb * (b.y as int) + wc * (c.y as int) == ar * sy) by {
        assert(wa * (a.y as int) == wa * (a.y as int - sy) + wa * sy) by (nonlinear_arith);
        assert(wb * (b.y as int) == wb * (b.y as int - sy) + wb * sy) by (nonlinear_arith);
        assert(wc * (c.y as int) == wc * (c.y as int - sy) + wc * sy) by (nonlinear_arith);
        assert(wa * sy + wb * sy + wc * sy == ar * sy) by (nonlinear_arith)
            requires
                wa + wb + wc == ar,
        ;
    };
    if ar > 0 {
        lemma_reproduce_bounds(wa, wb, wc, ar, a.x as int, b.x as int, c.x as int, sx);
        lemma_reproduce_bounds(wa, wb, wc, ar, a.y as int, b.y as int, c.y as int, sy);
    } else {
        assert((-wa) * (a.x as int) + (-wb) * (b.x as int) + (-wc) * (c.x as int) == (-ar) * sx)
            by (nonlinear_arith)
            requires
                wa * (a.x as int) + wb * (b.x as int) + wc * (c.x as int) == ar * sx,
        ;
        assert((-wa) * (a.y as int) + (-wb) * (b.y as int) + (-wc) * (c.y as int) == (-ar) * sy)
            by (nonlinear_arith)
            requires
                wa * (a.y as int) + wb * (b.y as int) + wc * (c.y as int) == ar * sy,
        ;
        lemma_reproduce_bounds(-wa, -wb, -wc, -ar, a.x as int, b.x as int, c.x as int, sx);
        lemma_reproduce_bounds(-wa, -wb, -wc, -ar, a.y as int, b.y as int, c.y as int, sy);
    }
}

/// The edge weights annihilate the corner offsets from the sample
/// point, in both coordinates.
#[verifier::spinoff_prover]
proof fn lemma_reproduce_zero(
    ax: int,
    ay: int,
    bx: int,
    by: int,
    cx: int,
    cy: int,
    sx: int,
    sy: int,
    wa: int,
    wb: int,
    wc: int,
)
    requires
        wa == (cx - bx) * (sy - by) - (cy - by) * (sx - bx),
        wb == (ax - cx) * (sy - cy) - (ay - cy) * (sx - cx),
        wc == (bx - ax) * (sy - ay) - (by - ay) * (sx - ax),
    ensures
        wa * (ax - sx) + wb * (bx - sx) + wc * (cx - sx) == 0,
        wa * (ay - sy) + wb * (by - sy) + wc * (cy - sy) == 0,
{
    let axs = ax - sx;
    let ays = ay - sy;
    let bxs = bx - sx;
    let bys = by - sy;
    let cxs = cx - sx;
    let cys = cy - sy;
    assert(wa == bxs * cys - bys * cxs) by (nonlinear_arith)
        requires
            wa == (cx - bx) * (sy - by) - (cy - by) * (sx - bx),
            bxs == bx - sx,
            bys == by - sy,
            cxs == cx - sx,
            cys == cy - sy,
    ;
    assert(wb == cxs * ays - cys * axs) by (nonlinear_arith)
        requires
            wb == (ax - cx) * (sy - cy) - (ay - cy) * (sx - cx),
            axs == ax - sx,
            ays == ay - sy,
            cxs == cx - sx,
            cys == cy - sy,
    ;
    assert(wc == axs * bys - ays * bxs) by (nonlinear_arith)
        requires
            wc == (bx - ax) * (sy - ay) - (by - ay) * (sx - ax),
            axs == ax - sx,
            ays == ay - sy,
            bxs == bx - sx,
            bys == by - sy,
    ;
    assert((bxs * cys - bys * cxs) * axs + (cxs * ays - cys * axs) * bxs + (axs * bys - ays * bxs)
        * cxs == 0) by (nonlinear_arith);
    assert((bxs * cys - bys * cxs) * ays + (cxs * ays - cys * axs) * bys + (axs * bys - ays * bxs)
        * cys == 0) by (nonlinear_arith);
    assert(wa * axs == (bxs * cys - bys * cxs) * axs) by (nonlinear_arith)
        requires
            wa == bxs * cys - bys * cxs,
    ;
    assert(wb * bxs == (cxs * ays - cys * axs) * bxs) by (nonlinear_arith)
        requires
            wb == cxs * ays - cys * axs,
    ;
    assert(wc * cxs == (axs * bys - ays * bxs) * cxs) by (nonlinear_arith)
        requires
            wc == axs * bys - ays * bxs,
    ;
    assert(wa * ays == (bxs * cys - bys * cxs) * ays) by (nonlinear_arith)
        requires
            wa == bxs * cys - bys * cxs,
    ;
    assert(wb * bys == (cxs * ays - cys * axs) * bys) by (nonlinear_arith)
        requires
            wb == cxs * ays - cys * axs,
    ;
    assert(wc * cys == (axs * bys - ays * bxs) * cys) by (nonlinear_arith)
        requires
            wc == axs * bys - ays * bxs,
    ;
}

/// A convex combination lies between the least and greatest of its
/// three values.
proof fn lemma_reproduce_bounds(wa: int, wb: int, wc: int, ar: int, va: int, vb: int, vc: int, s: int)
    requires
        0 <= wa,
        0 <= wb,
        0 <= wc,
        wa + wb + wc == ar,
        0 < ar,
        wa * va + wb * vb + wc * vc == ar * s,
    ensures
        min3(va, vb, vc) <= s <= max3(va, vb, vc),
{
    let lo = min3(va, vb, vc);
    let hi = max3(va, vb, vc);
    assert(wa * lo <= wa * va && wa * va <= wa * hi) by (nonlinear_arith)
        requires
            0 <= wa && lo <= va <= hi,
    ;
    assert(wb * lo <= wb * vb && wb * vb <= wb * hi) by (nonlinear_arith)
        requires
            0 <= wb && lo <= vb <= hi,
    ;
    assert(wc * lo <= wc * vc && wc * vc <= wc * hi) by (nonlinear_arith)
        requires
            0 <= wc && lo <= vc <= hi,
    ;
    assert(wa * lo + wb * lo + wc * lo == ar * lo && wa * hi + wb * hi + wc * hi == ar * hi)
        by (nonlinear_arith)
        requires
            wa + wb + wc == ar,
    ;
    assert(lo <= s && s <= hi) by (nonlinear_arith)
        requires
            0 < ar,
            ar * lo <= ar * s,
            ar * s <= ar * hi,
    ;
}

/// Rasterize one pixel: the fragment when the pixel is covered,
/// nothing otherwise.
fn raster_pixel(
    a: Vec3,
    b: Vec3,
    c: Vec3,
    ca: Vec3,
    cb: Vec3,
    cc: Vec3,
    px: i64,
    py: i64,
) -> (r: Option<Fragment>)
    requires
        coord_ok(a),
        coord_ok(b),
        coord_ok(c),
        coord_ok(ca),
        coord_ok(cb),
        coord_ok(cc),
        -0x80_0000 <= px <= 0x80_0000,
        -0x80_0000 <= py <= 0x80_0000,
    ensures
        r == if covered_spec(a, b, c, px as int, py as int) {
            Some(frag_at_spec(a, b, c, ca, cb, cc, px as int, py as int))
        } else {
            None::<Fragment>
        },
{
    let sx: i64 = px * 65536;
    let sy: i64 = py * 65536;
    let ar = orient2d(a.x, a.y, b.x, b.y, c.x, c.y);
    let wa = orient2d(b.x, b.y, c.x, c.y, sx, sy);
    let wb = orient2d(c.x, c.y, a.x, a.y, sx, sy);
    let wc = orient2d(a.x, a.y, b.x, b.y, sx, sy);
    proof {
        lemma_weights_sum(a, b, c, px as int, py as int);
        lemma_orient_bound(a.x as int, a.y as int, b.x as int, b.y as int, c.x as int, c.y as int);
        lemma_orient_bound(b.x as int, b.y as int, c.x as int, c.y as int, sx as int, sy as int);
        lemma_orient_bound(c.x as int, c.y as int, a.x as int, a.y as int, sx as int, sy as int);
        lemma_orient_bound(a.x as int, a.y as int, b.x as int, b.y as int, sx as int, sy as int);
    }
    if ar > 0 {
        let ea = wa > 0 || (wa == 0 && (c.y - b.y < 0 || (c.y - b.y == 0 && c.x - b.x > 0)));
        let eb = wb > 0 || (wb == 0 && (a.y - c.y < 0 || (a.y - c.y == 0 && a.x - c.x > 0)));
        let ec = wc > 0 || (wc == 0 && (b.y - a.y < 0 || (b.y - a.y == 0 && b.x - a.x > 0)));
        if ea && eb && ec {
            let depth = interp(
                wa,
                wb,
                wc,
                ar,
                a.z,
                b.z,
                c.z,
                Ghost(a),
                Ghost(b),
                Ghost(c),
                Ghost(px as int),
                Ghost(py as int),
            );
            let r = interp(
                wa,
                wb,
                wc,
                ar,
                ca.x,
                cb.x,
                cc.x,
                Ghost(a),
                Ghost(b),
                Ghost(c),
                Ghost(px as int),
                Ghost(py as int),
            );
            let g = interp(
                wa,
                wb,
                wc,
                ar,
                ca.y,
                cb.y,
                cc.y,
                Ghost(a),
                Ghost(b),
                Ghost(c),
                Ghost(px as int),
                Ghost(py as int),
            );
            let bl = interp(
                wa,
                wb,
                wc,
                ar,
                ca.z,
                cb.z,
                cc.z,
                Ghost(a),
                Ghost(b),
                Ghost(c),
                Ghost(px as int),
                Ghost(py as int),
            );
            Some(Fragment { x: px, y: py, color: Vec3 { x: r, y: g, z: bl }, depth })
        } else {
            None
        }
    } else if ar < 0 {
        let ea = wa < 0 || (wa == 0 && (b.y - c.y < 0 || (b.y - c.y == 0 && b.x - c.x > 0)));
        let eb = wb < 0 || (wb == 0 && (c.y - a.y < 0 || (c.y - a.y == 0 && c.x - a.x > 0)));
        let ec = wc < 0 || (wc == 0 && (a.y - b.y < 0 || (a.y - b.y == 0 && a.x - b.x > 0)));
        if ea && eb && ec {
            let depth = interp(
                -wa,
                -wb,
                -wc,
                -ar,
                a.z,
                b.z,
                c.z,
                Ghost(a),
                Ghost(b),
                Ghost(c),
                Ghost(px as int),
                Ghost(py as int),
            );
            let r = interp(
                -wa,
                -wb,
                -wc,
                -ar,
                ca.x,
                cb.x,
                cc.x,
                Ghost(a),
                Ghost(b),
                Ghost(c),
                Ghost(px as int),
                Ghost(py as int),
            );
            let g = interp(
                -wa,
                -wb,
                -wc,
                -ar,
                ca.y,
                cb.y,
                cc.y,
                Ghost(a),
                Ghost(b),
                Ghost(c),
                Ghost(px as int),
                Ghost(py as int),
            );
            let bl = interp(
                -wa,
                -wb,
                -wc,
                -ar,
                ca.z,
                cb.z,
                cc.z,
                Ghost(a),
                Ghost(b),
                Ghost(c),
                Ghost(px as int),
                Ghost(py as int),
            );
            Some(Fragment { x: px, y: py, color: Vec3 { x: r, y: g, z: bl }, depth })
        } else {
            None
        }
    } else {
        None
    }
}

/// An edge function of bounded coordinates is itself bounded.
proof fn lemma_orient_bound(ax: int, ay: int, bx: int, by: int, px: int, py: int)
    requires
        -0x100_0000_0000 <= ax <= 0x100_0000_0000,
        -0x100_0000_0000 <= ay <= 0x100_0000_0000,
        -0x100_0000_0000 <= bx <= 0x100_0000_0000,
        -0x100_0000_0000 <= by <= 0x100_0000_0000,
        -0x100_0000_0000 <= px <= 0x100_0000_0000,
        -0x100_0000_0000 <= py <= 0x100_0000_0000,
    ensures
        -0x8_0000_0000_0000_0000_0000 <= orient2d_spec(ax, ay, bx, by, px, py)
            <= 0x8_0000_0000_0000_0000_0000,
{
    assert((bx - ax) * (py - ay) <= 0x200_0000_0000int * 0x200_0000_0000int && (bx - ax) * (py
        - ay) >= -(0x200_0000_0000int * 0x200_0000_0000int) && (by - ay) * (px - ax)
        <= 0x200_0000_0000int * 0x200_0000_0000int && (by - ay) * (px - ax) >= -(
    0x200_0000_0000int * 0x200_0000_0000int)) by (nonlinear_arith)
        requires
            -0x200_0000_0000 <= bx - ax <= 0x200_0000_0000,
            -0x200_0000_0000 <= py - ay <= 0x200_0000_0000,
            -0x200_0000_0000 <= by - ay <= 0x200_0000_0000,
            -0x200_0000_0000 <= px - ax <= 0x200_0000_0000,
    ;
}

/// The fragments of one pixel row, scanned left to right over `k`
/// pixels starting at `x0`: a fragment for each covered pixel, in
/// order.
pub open spec fn row_frags_spec(
    a: Vec3,
    b: Vec3,
    c: Vec3,
    ca: Vec3,
    cb: Vec3,
    cc: Vec3,
    py: int,
    x0: int,
    k: nat,
) -> Seq<Fragment>
    decreases k,
{
    if k == 0 {
        Seq::empty()
    } else {
        let prev = row_frags_spec(a, b, c, ca, cb, cc, py, x0, (k - 1) as nat);
        if covered_spec(a, b, c, x0 + k - 1, py) {
            prev.push(frag_at_spec(a, b, c, ca, cb, cc, x0 + k - 1, py))
        } else {
            prev
        }
    }
}

/// The fragments of `k` rows starting at `y0`, each row scanned left
/// to right over `xn` pixels from `x0`, rows in order.
pub open spec fn rows_frags_spec(
    a: Vec3,
    b: Vec3,
    c: Vec3,
    ca: Vec3,
    cb: Vec3,
    cc: Vec3,
    y0: int,
    x0: int,
    xn: nat,
    k: nat,
) -> Seq<Fragment>
    decreases k,
{
    if k == 0 {
        Seq::empty()
    } else {
        rows_frags_spec(a, b, c, ca, cb, cc, y0, x0, xn, (k - 1) as nat) + row_frags_spec(
            a,
            b,
            c,
            ca,
            cb,
            cc,
            y0 + k - 1,
            x0,
            xn,
        )
    }
}

/// The exact fragment stream of a triangle: its bounding-box pixels
/// scanned row-major, one fragment per covered pixel; empty for a
/// degenerate triangle.
pub open spec fn tri_frags_spec(a: Vec3, b: Vec3, c: Vec3, ca: Vec3, cb: Vec3, cc: Vec3) -> Seq<
    Fragment,
> {
    if tri_area2(a, b, c) == 0 {
        Seq::empty()
    } else {
        let x0 = min3(a.x as int, b.x as int, c.x as int) / (FX_ONE as int);
        let x1 = max3(a.x as int, b.x as int, c.x as int) / (FX_ONE as int);
        let y0 = min3(a.y as int, b.y as int, c.y as int) / (FX_ONE as int);
        let y1 = max3(a.y as int, b.y as int, c.y as int) / (FX_ONE as int);
        rows_frags_spec(a, b, c, ca, cb, cc, y0, x0, (x1 + 1 - x0) as nat, (y1 + 1 - y0) as nat)
    }
}

/// Rasterize a triangle into fragments: exactly one fragment for
/// every covered pixel, in row-major order with no pixel repeated,
/// each carrying the barycentric depth and color; a degenerate
/// triangle yields none. Boundary pixels follow the top-left rule, so
/// adjacent triangles of one winding never claim a shared edge twice.
pub fn triangle(a: &Vec3, b: &Vec3, c: &Vec3, ca: Vec3, cb: Vec3, cc: Vec3) -> (frags: Vec<
    Fragment,
>)
    requires
        coord_ok(*a),
        coord_ok(*b),
        coord_ok(*c),
        coord_ok(ca),
        coord_ok(cb),
        coord_ok(cc),
    ensures
        forall|i: int|
            0 <= i < frags@.len() ==> #[trigger] frags@[i] == frag_at_spec(
                *a,
                *b,
                *c,
                ca,
                cb,
                cc,
                frags@[i].x as int,
                frags@[i].y as int,
            ) && covered_spec(*a, *b, *c, frags@[i].x as int, frags@[i].y as int),
        forall|px: int, py: int|
            covered_spec(*a, *b, *c, px, py) ==> frags@.contains(
                #[trigger] frag_at_spec(*a, *b, *c, ca, cb, cc, px, py),
            ),
        tri_area2(*a, *b, *c) == 0 ==> frags@.len() == 0,
        forall|i: int|
            0 <= i < frags@.len() ==> -0x40_0000 <= (#[trigger] frags@[i]).x <= 0x40_0000
                && -0x40_0000 <= frags@[i].y <= 0x40_0000,
        frags@ == tri_frags_spec(*a, *b, *c, ca, cb, cc),
        forall|i: int, j: int|
            0 <= i < j < frags@.len() ==> frags@[j].y > frags@[i].y || (frags@[j].y == frags@[i].y
                && frags@[j].x > frags@[i].x),
{
    broadcast use vstd::seq_lib::lemma_seq_contains_after_push;

    let mut frags: Vec<Fragment> = Vec::new();
    let ar = orient2d(a.x, a.y, b.x, b.y, c.x, c.y);
    if ar == 0 {
        proof {
            assert(frags@ =~= tri_frags_spec(*a, *b, *c, ca, cb, cc));
        }
        return frags;
    }
    let x0 = crate::fixed::fx_floor(min3e(a.x, b.x, c.x));
    let x1 = crate::fixed::fx_floor(max3e(a.x, b.x, c.x));
    let y0 = crate::fixed::fx_floor(min3e(a.y, b.y, c.y));
    let y1 = crate::fixed::fx_floor(max3e(a.y, b.y, c.y));
    let mut py = y0;
    while py <= y1
        invariant
            coord_ok(*a),
            coord_ok(*b),
            coord_ok(*c),
            coord_ok(ca),
            coord_ok(cb),
            coord_ok(cc),
            tri_area2(*a, *b, *c) != 0,
            x0 == min3(a.x as int, b.x as int, c.x as int) / (FX_ONE as int),
            x1 == max3(a.x as int, b.x as int, c.x as int) / (FX_ONE as int),
            y0 == min3(a.y as int, b.y as int, c.y as int) / (FX_ONE as int),
            y1 == max3(a.y as int, b.y as int, c.y as int) / (FX_ONE as int),
            y0 <= py <= y1 + 1,
            forall|i: int|
                0 <= i < frags@.len() ==> #[trigger] frags@[i] == frag_at_spec(
                    *a,
                    *b,
                    *c,
                    ca,
                    cb,
                    cc,
                    frags@[i].x as int,
                    frags@[i].y as int,
                ) && covered_spec(*a, *b, *c, frags@[i].x as int, frags@[i].y as int),
            forall|i: int|
                0 <= i < frags@.len() ==> x0 <= (#[trigger] frags@[i]).x <= x1 && y0
                    <= frags@[i].y <= y1,
            forall|qx: int, qy: int|
                x0 <= qx <= x1 && y0 <= qy < py && covered_spec(*a, *b, *c, qx, qy)
                    ==> frags@.contains(#[trigger] frag_at_spec(*a, *b, *c, ca, cb, cc, qx, qy)),
            x0 <= x1,
            frags@ == rows_frags_spec(
                *a,
                *b,
                *c,
                ca,
                cb,
                cc,
                y0 as int,
                x0 as int,
                (x1 + 1 - x0) as nat,
                (py - y0) as nat,
            ),
            forall|i: int|
                0 <= i < frags@.len() ==> (#[trigger] frags@[i]).y < py,
            forall|i: int, j: int|
                0 <= i < j < frags@.len() ==> frags@[j].y > frags@[i].y || (frags@[j].y
                    == frags@[i].y && frags@[j].x > frags@[i].x),
        decreases y1 + 1 - py,
    {
        let mut px = x0;
        while px <= x1
            invariant
                coord_ok(*a),
                coord_ok(*b),
                coord_ok(*c),
                coord_ok(ca),
                coord_ok(cb),
                coord_ok(cc),
                tri_area2(*a, *b, *c) != 0,
                x0 == min3(a.x as int, b.x as int, c.x as int) / (FX_ONE as int),
                x1 == max3(a.x as int, b.x as int, c.x as int) / (FX_ONE as int),
                y0 == min3(a.y as int, b.y as int, c.y as int) / (FX_ONE as int),
                y1 == max3(a.y as int, b.y as int, c.y as int) / (FX_ONE as int),
                y0 <= py <= y1,
                x0 <= px <= x1 + 1,
                forall|i: int|
                    0 <= i < frags@.len() ==> #[trigger] frags@[i] == frag_at_spec(
                        *a,
                        *b,
                        *c,
                        ca,
                        cb,
                        cc,
                        frags@[i].x as int,
                        frags@[i].y as int,
                    ) && covered_spec(*a, *b, *c, frags@[i].x as int, frags@[i].y as int),
                forall|i: int|
                    0 <= i < frags@.len() ==> x0 <= (#[trigger] frags@[i]).x <= x1 && y0
                        <= frags@[i].y <= y1,
                forall|qx: int, qy: int|
                    x0 <= qx <= x1 && y0 <= qy && (qy < py || (qy == py && qx < px))
                        && covered_spec(*a, *b, *c, qx, qy) ==> frags@.contains(
                        #[trigger] frag_at_spec(*a, *b, *c, ca, cb, cc, qx, qy),
                    ),
                x0 <= x1,
                frags@ == rows_frags_spec(
                    *a,
                    *b,
                    *c,
                    ca,
                    cb,
                    cc,
                    y0 as int,
                    x0 as int,
                    (x1 + 1 - x0) as nat,
                    (py - y0) as nat,
                ) + row_frags_spec(*a, *b, *c, ca, cb, cc, py as int, x0 as int, (px - x0) as nat),
                forall|i: int|
                    0 <= i < frags@.len() ==> (#[trigger] frags@[i]).y < py || (frags@[i].y == py
                        && frags@[i].x < px),
                forall|i: int, j: int|
                    0 <= i < j < frags@.len() ==> frags@[j].y > frags@[i].y || (frags@[j].y
                        == frags@[i].y && frags@[j].x > frags@[i].x),
            decreases x1 + 1 - px,
        {
            let ghost pre = frags@;
            let ghost rows_done = rows_frags_spec(
                *a,
                *b,
                *c,
                ca,
                cb,
                cc,
                y0 as int,
                x0 as int,
                (x1 + 1 - x0) as nat,
                (py - y0) as nat,
            );
            match raster_pixel(*a, *b, *c, ca, cb, cc, px, py) {
                Some(f) => {
                    frags.push(f);
                    proof {
                        assert(frags@[frags@.len() - 1] == f);
                        assert(frags@.contains(f));
                        assert forall|g: Fragment| pre.contains(g) implies frags@.contains(
                            g,
                        ) by {
                            let i = choose|i: int| 0 <= i < pre.len() && pre[i] == g;
                            assert(frags@[i] == g);
                        };
                    }
                },
                None => {
                },
            }
            proof {
                let krow = (px + 1 - x0) as nat;
                assert(row_frags_spec(*a, *b, *c, ca, cb, cc, py as int, x0 as int, krow)
                    == if covered_spec(*a, *b, *c, px as int, py as int) {
                    row_frags_spec(
                        *a,
                        *b,
                        *c,
                        ca,
                        cb,
                        cc,
                        py as int,
                        x0 as int,
                        (px - x0) as nat,
                    ).push(frag_at_spec(*a, *b, *c, ca, cb, cc, px as int, py as int))
                } else {
                    row_frags_spec(*a, *b, *c, ca, cb, cc, py as int, x0 as int, (px - x0) as nat)
                });
                assert(frags@ =~= rows_done + row_frags_spec(
                    *a,
                    *b,
                    *c,
                    ca,
                    cb,
                    cc,
                    py as int,
                    x0 as int,
                    krow,
                ));
            }
            px = px + 1;
        }
        proof {
            let xn = (x1 + 1 - x0) as nat;
            let knext = (py + 1 - y0) as nat;
            assert(rows_frags_spec(*a, *b, *c, ca, cb, cc, y0 as int, x0 as int, xn, knext)
                == rows_frags_spec(
                *a,
                *b,
                *c,
                ca,
                cb,
                cc,
                y0 as int,
                x0 as int,
                xn,
                (py - y0) as nat,
            ) + row_frags_spec(*a, *b, *c, ca, cb, cc, py as int, x0 as int, xn));
            assert(frags@ =~= rows_frags_spec(
                *a,
                *b,
                *c,
                ca,
                cb,
                cc,
                y0 as int,
                x0 as int,
                xn,
                knext,
            ));
        }
        py = py + 1;
    }
    proof {
        assert forall|px: int, py2: int| covered_spec(*a, *b, *c, px, py2) implies frags@.contains(
            frag_at_spec(*a, *b, *c, ca, cb, cc, px, py2),
        ) by {
            lemma_covered_in_bbox(*a, *b, *c, px, py2);
            vstd::arithmetic::div_mod::lemma_fundamental_div_mod(
                min3(a.x as int, b.x as int, c.x as int),
                FX_ONE as int,
            );
            vstd::arithmetic::div_mod::lemma_fundamental_div_mod(
                max3(a.x as int, b.x as int, c.x as int),
                FX_ONE as int,
            );
            vstd::arithmetic::div_mod::lemma_fundamental_div_mod(
                min3(a.y as int, b.y as int, c.y as int),
                FX_ONE as int,
            );
            vstd::arithmetic::div_mod::lemma_fundamental_div_mod(
                max3(a.y as int, b.y as int, c.y as int),
                FX_ONE as int,
            );
            vstd::arithmetic::div_mod::lemma_mod_bound(
                min3(a.x as int, b.x as int, c.x as int),
                FX_ONE as int,
            );
            vstd::arithmetic::div_mod::lemma_mod_bound(
                max3(a.x as int, b.x as int, c.x as int),
                FX_ONE as int,
            );
            vstd::arithmetic::div_mod::lemma_mod_bound(
                min3(a.y as int, b.y as int, c.y as int),
                FX_ONE as int,
            );
            vstd::arithmetic::div_mod::lemma_mod_bound(
                max3(a.y as int, b.y as int, c.y as int),
                FX_ONE as int,
            );
        };
    }
    frags
}

} // verus!
