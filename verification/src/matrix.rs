//! The matrix stage: model, view, projection and viewport matrices,
//! and the vertex transform that carries an object-space point to
//! pixel coordinates with its depth kept in normalized device
//! coordinates.
//!
//! Matrices whose construction can outgrow the fixed-point range are
//! built through checked products and returned as `Option`; the
//! per-vertex transform checks every intermediate and reports a
//! vertex it cannot place (behind the eye, or out of numeric range)
//! as `None`, the documented discard policy for the missing frustum
//! clip.

use vstd::prelude::*;
use crate::fixed::{
    fx_cos, fx_cos_spec, fx_div, fx_div_spec, fx_mul, fx_mul_spec, fx_ok, fx_sin, fx_sin_spec,
    lemma_fx_mul_ok, tdiv, FX_BOUND, FX_ONE,
};
use crate::vec3::Vec3;

verus! {

/// A homogeneous four-component vector.
#[derive(Clone, Copy, PartialEq, Eq, Structural, Debug)]
pub struct Vec4 {
    pub x: i64,
    pub y: i64,
    pub z: i64,
    pub w: i64,
}

impl Vec4 {
    /// All four components lie within the geometry bound.
    pub open spec fn ok(self) -> bool {
        fx_ok(self.x as int) && fx_ok(self.y as int) && fx_ok(self.z as int) && fx_ok(
            self.w as int,
        )
    }
}

/// A point as a homogeneous vector with unit weight.
pub open spec fn vec4_of_spec(v: Vec3) -> Vec4 {
    Vec4 { x: v.x, y: v.y, z: v.z, w: FX_ONE }
}

/// Wrap a point for transformation.
pub fn vec4_of(v: Vec3) -> (r: Vec4)
    ensures
        r == vec4_of_spec(v),
{
    Vec4 { x: v.x, y: v.y, z: v.z, w: FX_ONE }
}

/// The four-term fixed-point dot product.
pub open spec fn dot4_spec(a: Vec4, b: Vec4) -> int {
    fx_mul_spec(a.x as int, b.x as int) + fx_mul_spec(a.y as int, b.y as int) + fx_mul_spec(
        a.z as int,
        b.z as int,
    ) + fx_mul_spec(a.w as int, b.w as int)
}

fn dot4(a: Vec4, b: Vec4) -> (r: i64)
    requires
        a.ok(),
        b.ok(),
    ensures
        r == dot4_spec(a, b),
{
    proof {
        lemma_fx_mul_ok(a.x as int, b.x as int);
        lemma_fx_mul_ok(a.y as int, b.y as int);
        lemma_fx_mul_ok(a.z as int, b.z as int);
        lemma_fx_mul_ok(a.w as int, b.w as int);
    }
    fx_mul(a.x, b.x) + fx_mul(a.y, b.y) + fx_mul(a.z, b.z) + fx_mul(a.w, b.w)
}

/// A four-by-four matrix, stored by rows.
#[derive(Clone, Copy, PartialEq, Eq, Structural, Debug)]
pub struct Mat4 {
    pub r0: Vec4,
    pub r1: Vec4,
    pub r2: Vec4,
    pub r3: Vec4,
}

impl Mat4 {
    /// Every entry lies within the geometry bound.
    pub open spec fn ok(self) -> bool {
        self.r0.ok() && self.r1.ok() && self.r2.ok() && self.r3.ok()
    }
}

fn vec4_ok_check(v: &Vec4) -> (b: bool)
    ensures
        b == v.ok(),
{
    -FX_BOUND <= v.x && v.x <= FX_BOUND && -FX_BOUND <= v.y && v.y <= FX_BOUND && -FX_BOUND <= v.z
        && v.z <= FX_BOUND && -FX_BOUND <= v.w && v.w <= FX_BOUND
}

fn mat4_ok_check(m: &Mat4) -> (b: bool)
    ensures
        b == m.ok(),
{
    vec4_ok_check(&m.r0) && vec4_ok_check(&m.r1) && vec4_ok_check(&m.r2) && vec4_ok_check(&m.r3)
}

/// The columns of a matrix, for stating products.
pub open spec fn col0(m: Mat4) -> Vec4 {
    Vec4 { x: m.r0.x, y: m.r1.x, z: m.r2.x, w: m.r3.x }
}

pub open spec fn col1(m: Mat4) -> Vec4 {
    Vec4 { x: m.r0.y, y: m.r1.y, z: m.r2.y, w: m.r3.y }
}

pub open spec fn col2(m: Mat4) -> Vec4 {
    Vec4 { x: m.r0.z, y: m.r1.z, z: m.r2.z, w: m.r3.z }
}

pub open spec fn col3(m: Mat4) -> Vec4 {
    Vec4 { x: m.r0.w, y: m.r1.w, z: m.r2.w, w: m.r3.w }
}

/// The matrix applied to a homogeneous vector: one dot product per
/// row.
pub open spec fn mat_vec4_spec(m: Mat4, v: Vec4) -> Vec4 {
    Vec4 {
        x: dot4_spec(m.r0, v) as i64,
        y: dot4_spec(m.r1, v) as i64,
        z: dot4_spec(m.r2, v) as i64,
        w: dot4_spec(m.r3, v) as i64,
    }
}

/// Apply a matrix to a homogeneous vector.
pub fn mat_vec4(m: &Mat4, v: Vec4) -> (r: Vec4)
    requires
        m.ok(),
        v.ok(),
    ensures
        r == mat_vec4_spec(*m, v),
{
    Vec4 { x: dot4(m.r0, v), y: dot4(m.r1, v), z: dot4(m.r2, v), w: dot4(m.r3, v) }
}

/// The matrix product, row by column.
pub open spec fn mat_mul_spec(a: Mat4, b: Mat4) -> Mat4 {
    Mat4 {
        r0: Vec4 {
            x: dot4_spec(a.r0, col0(b)) as i64,
            y: dot4_spec(a.r0, col1(b)) as i64,
            z: dot4_spec(a.r0, col2(b)) as i64,
            w: dot4_spec(a.r0, col3(b)) as i64,
        },
        r1: Vec4 {
            x: dot4_spec(a.r1, col0(b)) as i64,
            y: dot4_spec(a.r1, col1(b)) as i64,
            z: dot4_spec(a.r1, col2(b)) as i64,
            w: dot4_spec(a.r1, col3(b)) as i64,
        },
        r2: Vec4 {
            x: dot4_spec(a.r2, col0(b)) as i64,
            y: dot4_spec(a.r2, col1(b)) as i64,
            z: dot4_spec(a.r2, col2(b)) as i64,
            w: dot4_spec(a.r2, col3(b)) as i64,
        },
        r3: Vec4 {
            x: dot4_spec(a.r3, col0(b)) as i64,
            y: dot4_spec(a.r3, col1(b)) as i64,
            z: dot4_spec(a.r3, col2(b)) as i64,
            w: dot4_spec(a.r3, col3(b)) as i64,
        },
    }
}

fn mat_col0(b: &Mat4) -> (r: Vec4)
    ensures
        r == col0(*b),
{
    Vec4 { x: b.r0.x, y: b.r1.x, z: b.r2.x, w: b.r3.x }
}

fn mat_col1(b: &Mat4) -> (r: Vec4)
    ensures
        r == col1(*b),
{
    Vec4 { x: b.r0.y, y: b.r1.y, z: b.r2.y, w: b.r3.y }
}

fn mat_col2(b: &Mat4) -> (r: Vec4)
    ensures
        r == col2(*b),
{
    Vec4 { x: b.r0.z, y: b.r1.z, z: b.r2.z, w: b.r3.z }
}

fn mat_col3(b: &Mat4) -> (r: Vec4)
    ensures
        r == col3(*b),
{
    Vec4 { x: b.r0.w, y: b.r1.w, z: b.r2.w, w: b.r3.w }
}

/// Multiply two matrices whose entries are in bound; `None` when an
/// entry of the product leaves the bound.
pub fn mat_mul_checked(a: &Mat4, b: &Mat4) -> (r: Option<Mat4>)
    requires
        a.ok(),
        b.ok(),
    ensures
        match r {
            Some(m) => m == mat_mul_spec(*a, *b) && m.ok(),
            None => !mat_mul_spec(*a, *b).ok(),
        },
{
    let c0 = mat_col0(b);
    let c1 = mat_col1(b);
    let c2 = mat_col2(b);
    let c3 = mat_col3(b);
    let m = Mat4 {
        r0: Vec4 {
            x: dot4(a.r0, c0),
            y: dot4(a.r0, c1),
            z: dot4(a.r0, c2),
            w: dot4(a.r0, c3),
        },
        r1: Vec4 {
            x: dot4(a.r1, c0),
            y: dot4(a.r1, c1),
            z: dot4(a.r1, c2),
            w: dot4(a.r1, c3),
        },
        r2: Vec4 {
            x: dot4(a.r2, c0),
            y: dot4(a.r2, c1),
            z: dot4(a.r2, c2),
            w: dot4(a.r2, c3),
        },
        r3: Vec4 {
            x: dot4(a.r3, c0),
            y: dot4(a.r3, c1),
            z: dot4(a.r3, c2),
            w: dot4(a.r3, c3),
        },
    };
    if mat4_ok_check(&m) {
        Some(m)
    } else {
        None
    }
}

/// Uniform scaling as a matrix.
pub open spec fn scale_mat_spec(s: i64) -> Mat4 {
    Mat4 {
        r0: Vec4 { x: s, y: 0, z: 0, w: 0 },
        r1: Vec4 { x: 0, y: s, z: 0, w: 0 },
        r2: Vec4 { x: 0, y: 0, z: s, w: 0 },
        r3: Vec4 { x: 0, y: 0, z: 0, w: FX_ONE },
    }
}

/// Translation as a matrix.
pub open spec fn translation_mat_spec(t: Vec3) -> Mat4 {
    Mat4 {
        r0: Vec4 { x: FX_ONE, y: 0, z: 0, w: t.x },
        r1: Vec4 { x: 0, y: FX_ONE, z: 0, w: t.y },
        r2: Vec4 { x: 0, y: 0, z: FX_ONE, w: t.z },
        r3: Vec4 { x: 0, y: 0, z: 0, w: FX_ONE },
    }
}

/// Rotation about the `x` axis by `a`.
pub open spec fn rot_x_spec(a: i64) -> Mat4 {
    let c = fx_cos_spec(a as int);
    let s = fx_sin_spec(a as int);
    Mat4 {
        r0: Vec4 { x: FX_ONE, y: 0, z: 0, w: 0 },
        r1: Vec4 { x: 0, y: c as i64, z: (-s) as i64, w: 0 },
        r2: Vec4 { x: 0, y: s as i64, z: c as i64, w: 0 },
        r3: Vec4 { x: 0, y: 0, z: 0, w: FX_ONE },
    }
}

/// Rotation about the `y` axis by `a`.
pub open spec fn rot_y_spec(a: i64) -> Mat4 {
    let c = fx_cos_spec(a as int);
    let s = fx_sin_spec(a as int);
    Mat4 {
        r0: Vec4 { x: c as i64, y: 0, z: s as i64, w: 0 },
        r1: Vec4 { x: 0, y: FX_ONE, z: 0, w: 0 },
        r2: Vec4 { x: (-s) as i64, y: 0, z: c as i64, w: 0 },
        r3: Vec4 { x: 0, y: 0, z: 0, w: FX_ONE },
    }
}

/// Rotation about the `z` axis by `a`.
pub open spec fn rot_z_spec(a: i64) -> Mat4 {
    let c = fx_cos_spec(a as int);
    let s = fx_sin_spec(a as int);
    Mat4 {
        r0: Vec4 { x: c as i64, y: (-s) as i64, z: 0, w: 0 },
        r1: Vec4 { x: s as i64, y: c as i64, z: 0, w: 0 },
        r2: Vec4 { x: 0, y: 0, z: FX_ONE, w: 0 },
        r3: Vec4 { x: 0, y: 0, z: 0, w: FX_ONE },
    }
}

fn rot_x_mat(a: i64) -> (r: Mat4)
    ensures
        r == rot_x_spec(a),
        r.ok(),
{
    let c = fx_cos(a);
    let s = fx_sin(a);
    Mat4 {
        r0: Vec4 { x: FX_ONE, y: 0, z: 0, w: 0 },
        r1: Vec4 { x: 0, y: c, z: -s, w: 0 },
        r2: Vec4 { x: 0, y: s, z: c, w: 0 },
        r3: Vec4 { x: 0, y: 0, z: 0, w: FX_ONE },
    }
}

fn rot_y_mat(a: i64) -> (r: Mat4)
    ensures
        r == rot_y_spec(a),
        r.ok(),
{
    let c = fx_cos(a);
    let s = fx_sin(a);
    Mat4 {
        r0: Vec4 { x: c, y: 0, z: s, w: 0 },
        r1: Vec4 { x: 0, y: FX_ONE, z: 0, w: 0 },
        r2: Vec4 { x: -s, y: 0, z: c, w: 0 },
        r3: Vec4 { x: 0, y: 0, z: 0, w: FX_ONE },
    }
}

fn rot_z_mat(a: i64) -> (r: Mat4)
    ensures
        r == rot_z_spec(a),
        r.ok(),
{
    let c = fx_cos(a);
    let s = fx_sin(a);
    Mat4 {
        r0: Vec4 { x: c, y: -s, z: 0, w: 0 },
        r1: Vec4 { x: s, y: c, z: 0, w: 0 },
        r2: Vec4 { x: 0, y: 0, z: FX_ONE, w: 0 },
        r3: Vec4 { x: 0, y: 0, z: 0, w: FX_ONE },
    }
}

/// The model matrix: scale first, then the rotations about `x`, `y`
/// and `z` in turn, then the translation.
pub open spec fn model_matrix_spec(translation: Vec3, scale: i64, rotation: Vec3) -> Mat4 {
    mat_mul_spec(
        translation_mat_spec(translation),
        mat_mul_spec(
            rot_z_spec(rotation.z),
            mat_mul_spec(rot_y_spec(rotation.y), mat_mul_spec(rot_x_spec(rotation.x), scale_mat_spec(scale))),
        ),
    )
}

/// The stages of the model product, each within the geometry bound.
pub open spec fn model_stages_ok(translation: Vec3, scale: i64, rotation: Vec3) -> bool {
    let m1 = mat_mul_spec(rot_x_spec(rotation.x), scale_mat_spec(scale));
    let m2 = mat_mul_spec(rot_y_spec(rotation.y), m1);
    let m3 = mat_mul_spec(rot_z_spec(rotation.z), m2);
    m1.ok() && m2.ok() && m3.ok() && model_matrix_spec(translation, scale, rotation).ok()
}

/// Build the model matrix; `None` when a product entry leaves the
/// geometry bound.
pub fn create_model_matrix(translation: Vec3, scale: i64, rotation: Vec3) -> (r: Option<Mat4>)
    requires
        translation.ok(),
        fx_ok(scale as int),
    ensures
        r == if model_stages_ok(translation, scale, rotation) {
            Some(model_matrix_spec(translation, scale, rotation))
        } else {
            None::<Mat4>
        },
{
    let sc = Mat4 {
        r0: Vec4 { x: scale, y: 0, z: 0, w: 0 },
        r1: Vec4 { x: 0, y: scale, z: 0, w: 0 },
        r2: Vec4 { x: 0, y: 0, z: scale, w: 0 },
        r3: Vec4 { x: 0, y: 0, z: 0, w: FX_ONE },
    };
    let tm = Mat4 {
        r0: Vec4 { x: FX_ONE, y: 0, z: 0, w: translation.x },
        r1: Vec4 { x: 0, y: FX_ONE, z: 0, w: translation.y },
        r2: Vec4 { x: 0, y: 0, z: FX_ONE, w: translation.z },
        r3: Vec4 { x: 0, y: 0, z: 0, w: FX_ONE },
    };
    let rx = rot_x_mat(rotation.x);
    let ry = rot_y_mat(rotation.y);
    let rz = rot_z_mat(rotation.z);
    let m1 = match mat_mul_checked(&rx, &sc) {
        Some(m) => m,
        None => {
            return None;
        },
    };
    let m2 = match mat_mul_checked(&ry, &m1) {
        Some(m) => m,
        None => {
            return None;
        },
    };
    let m3 = match mat_mul_checked(&rz, &m2) {
        Some(m) => m,
        None => {
            return None;
        },
    };
    match mat_mul_checked(&tm, &m3) {
        Some(m) => Some(m),
        None => None,
    }
}

/// The cross product.
pub open spec fn cross3_spec(a: Vec3, b: Vec3) -> Vec3 {
    Vec3 {
        x: (fx_mul_spec(a.y as int, b.z as int) - fx_mul_spec(a.z as int, b.y as int)) as i64,
        y: (fx_mul_spec(a.z as int, b.x as int) - fx_mul_spec(a.x as int, b.z as int)) as i64,
        z: (fx_mul_spec(a.x as int, b.y as int) - fx_mul_spec(a.y as int, b.x as int)) as i64,
    }
}

fn cross3(a: Vec3, b: Vec3) -> (r: Vec3)
    requires
        a.ok(),
        b.ok(),
    ensures
        r == cross3_spec(a, b),
{
    proof {
        lemma_fx_mul_ok(a.y as int, b.z as int);
        lemma_fx_mul_ok(a.z as int, b.y as int);
        lemma_fx_mul_ok(a.z as int, b.x as int);
        lemma_fx_mul_ok(a.x as int, b.z as int);
        lemma_fx_mul_ok(a.x as int, b.y as int);
        lemma_fx_mul_ok(a.y as int, b.x as int);
    }
    Vec3 {
        x: fx_mul(a.y, b.z) - fx_mul(a.z, b.y),
        y: fx_mul(a.z, b.x) - fx_mul(a.x, b.z),
        z: fx_mul(a.x, b.y) - fx_mul(a.y, b.x),
    }
}

/// The length of a vector: the square root of its dot with itself.
pub open spec fn len3_spec(v: Vec3) -> int {
    crate::fixed::fx_sqrt_spec(v.dot_spec(v))
}

/// The vector divided by its length.
pub open spec fn norm3_spec(v: Vec3) -> Vec3 {
    let len = len3_spec(v);
    Vec3 {
        x: fx_div_spec(v.x as int, len) as i64,
        y: fx_div_spec(v.y as int, len) as i64,
        z: fx_div_spec(v.z as int, len) as i64,
    }
}

/// Normalization succeeds: the vector is not zero and each quotient
/// stays within the geometry bound.
pub open spec fn norm3_ok_spec(v: Vec3) -> bool {
    let len = len3_spec(v);
    len > 0 && -(LEN_BOUND as int) <= fx_div_spec(v.x as int, len) <= LEN_BOUND as int && -(
    LEN_BOUND as int) <= fx_div_spec(v.y as int, len) <= LEN_BOUND as int && -(LEN_BOUND as int)
        <= fx_div_spec(v.z as int, len) <= LEN_BOUND as int
}

/// Bound for vectors whose length is taken: their squared length must
/// stay within the square-root stage's domain.
pub const LEN_BOUND: i64 = 0x4000_0000;

fn vec3_len_in(v: &Vec3) -> (b: bool)
    ensures
        b == (-LEN_BOUND <= v.x <= LEN_BOUND && -LEN_BOUND <= v.y <= LEN_BOUND && -LEN_BOUND
            <= v.z <= LEN_BOUND),
{
    -LEN_BOUND <= v.x && v.x <= LEN_BOUND && -LEN_BOUND <= v.y && v.y <= LEN_BOUND && -LEN_BOUND
        <= v.z && v.z <= LEN_BOUND
}

fn normalize3(v: Vec3) -> (r: Option<Vec3>)
    requires
        -LEN_BOUND <= v.x <= LEN_BOUND,
        -LEN_BOUND <= v.y <= LEN_BOUND,
        -LEN_BOUND <= v.z <= LEN_BOUND,
    ensures
        r == if norm3_ok_spec(v) {
            Some(norm3_spec(v))
        } else {
            None::<Vec3>
        },
        r matches Some(n) ==> n.ok(),
{
    let len = v.length();
    if len <= 0 {
        return None;
    }
    let nx = match crate::fixed::fx_div_checked(v.x, len) {
        Some(q) => q,
        None => {
            return None;
        },
    };
    let ny = match crate::fixed::fx_div_checked(v.y, len) {
        Some(q) => q,
        None => {
            return None;
        },
    };
    let nz = match crate::fixed::fx_div_checked(v.z, len) {
        Some(q) => q,
        None => {
            return None;
        },
    };
    let n = Vec3 { x: nx, y: ny, z: nz };
    if vec3_len_in(&n) {
        Some(n)
    } else {
        None
    }
}

/// The look-at view matrix: an orthonormal-by-construction basis of
/// right, up and forward rows, each carrying the negated projection
/// of the eye, so the eye itself maps to the view-space origin.
pub open spec fn view_matrix_spec(eye: Vec3, target: Vec3, up: Vec3) -> Mat4 {
    let f = norm3_spec(
        Vec3 {
            x: (target.x - eye.x) as i64,
            y: (target.y - eye.y) as i64,
            z: (target.z - eye.z) as i64,
        },
    );
    let r = norm3_spec(cross3_spec(f, up));
    let u = cross3_spec(r, f);
    Mat4 {
        r0: Vec4 { x: r.x, y: r.y, z: r.z, w: (-r.dot_spec(eye)) as i64 },
        r1: Vec4 { x: u.x, y: u.y, z: u.z, w: (-u.dot_spec(eye)) as i64 },
        r2: Vec4 {
            x: (-(f.x as int)) as i64,
            y: (-(f.y as int)) as i64,
            z: (-(f.z as int)) as i64,
            w: f.dot_spec(eye) as i64,
        },
        r3: Vec4 { x: 0, y: 0, z: 0, w: FX_ONE },
    }
}

/// The view construction succeeds: both normalizations are sound, the
/// intermediate vectors stay in range, and every entry of the matrix
/// lies within the geometry bound.
pub open spec fn view_stages_ok(eye: Vec3, target: Vec3, up: Vec3) -> bool {
    let d = Vec3 {
        x: (target.x - eye.x) as i64,
        y: (target.y - eye.y) as i64,
        z: (target.z - eye.z) as i64,
    };
    let f = norm3_spec(d);
    let c = cross3_spec(f, up);
    let r = norm3_spec(c);
    let u = cross3_spec(r, f);
    norm3_ok_spec(d) && (-LEN_BOUND <= c.x <= LEN_BOUND && -LEN_BOUND <= c.y <= LEN_BOUND
        && -LEN_BOUND <= c.z <= LEN_BOUND) && norm3_ok_spec(c) && u.ok() && view_matrix_spec(
        eye,
        target,
        up,
    ).ok()
}

/// Build the view matrix from the camera state; `None` when the eye
/// and target coincide or a value leaves the geometry range.
pub fn create_view_matrix(eye: Vec3, target: Vec3, up: Vec3) -> (ret: Option<Mat4>)
    requires
        -0x2000_0000 <= eye.x <= 0x2000_0000,
        -0x2000_0000 <= eye.y <= 0x2000_0000,
        -0x2000_0000 <= eye.z <= 0x2000_0000,
        -0x2000_0000 <= target.x <= 0x2000_0000,
        -0x2000_0000 <= target.y <= 0x2000_0000,
        -0x2000_0000 <= target.z <= 0x2000_0000,
        -LEN_BOUND <= up.x <= LEN_BOUND,
        -LEN_BOUND <= up.y <= LEN_BOUND,
        -LEN_BOUND <= up.z <= LEN_BOUND,
    ensures
        ret == if view_stages_ok(eye, target, up) {
            Some(view_matrix_spec(eye, target, up))
        } else {
            None::<Mat4>
        },
        ret matches Some(m) ==> m.ok(),
{
    let d = Vec3 { x: target.x - eye.x, y: target.y - eye.y, z: target.z - eye.z };
    let f = match normalize3(d) {
        Some(n) => n,
        None => {
            return None;
        },
    };
    let c = cross3(f, up);
    if !vec3_len_in(&c) {
        return None;
    }
    let r = match normalize3(c) {
        Some(n) => n,
        None => {
            return None;
        },
    };
    let u = cross3(r, f);
    if !(-FX_BOUND <= u.x && u.x <= FX_BOUND && -FX_BOUND <= u.y && u.y <= FX_BOUND && -FX_BOUND
        <= u.z && u.z <= FX_BOUND) {
        return None;
    }
    proof {
        lemma_fx_mul_ok(r.x as int, eye.x as int);
        lemma_fx_mul_ok(r.y as int, eye.y as int);
        lemma_fx_mul_ok(r.z as int, eye.z as int);
        lemma_fx_mul_ok(u.x as int, eye.x as int);
        lemma_fx_mul_ok(u.y as int, eye.y as int);
        lemma_fx_mul_ok(u.z as int, eye.z as int);
        lemma_fx_mul_ok(f.x as int, eye.x as int);
        lemma_fx_mul_ok(f.y as int, eye.y as int);
        lemma_fx_mul_ok(f.z as int, eye.z as int);
    }
    let m = Mat4 {
        r0: Vec4 { x: r.x, y: r.y, z: r.z, w: -(r.dot(eye)) },
        r1: Vec4 { x: u.x, y: u.y, z: u.z, w: -(u.dot(eye)) },
        r2: Vec4 { x: -f.x, y: -f.y, z: -f.z, w: f.dot(eye) },
        r3: Vec4 { x: 0, y: 0, z: 0, w: FX_ONE },
    };
    if mat4_ok_check(&m) {
        Some(m)
    } else {
        None
    }
}

/// The perspective projection matrix from the vertical field of view,
/// aspect ratio and near/far planes; its bottom row turns view-space
/// depth into the homogeneous weight, so points at or behind the eye
/// get a weight of at most zero.
pub open spec fn projection_matrix_spec(fovy: i64, aspect: i64, near: i64, far: i64) -> Mat4 {
    let h = tdiv(fovy as int, 2);
    let t = fx_div_spec(fx_sin_spec(h), fx_cos_spec(h));
    let f = fx_div_spec(FX_ONE as int, t);
    let fa = fx_div_spec(f, aspect as int);
    let aa = -fx_div_spec(far as int + near as int, far as int - near as int);
    let bb = -fx_div_spec(
        2 * fx_mul_spec(far as int, near as int),
        far as int - near as int,
    );
    Mat4 {
        r0: Vec4 { x: fa as i64, y: 0, z: 0, w: 0 },
        r1: Vec4 { x: 0, y: f as i64, z: 0, w: 0 },
        r2: Vec4 { x: 0, y: 0, z: aa as i64, w: bb as i64 },
        r3: Vec4 { x: 0, y: 0, z: (-(FX_ONE as int)) as i64, w: 0 },
    }
}

/// The projection construction succeeds: the half-angle has positive
/// sine and cosine, every quotient fits, and the matrix entries stay
/// within the geometry bound.
pub open spec fn projection_stages_ok(fovy: i64, aspect: i64, near: i64, far: i64) -> bool {
    let h = tdiv(fovy as int, 2);
    let t = fx_div_spec(fx_sin_spec(h), fx_cos_spec(h));
    let f = fx_div_spec(FX_ONE as int, t);
    fx_sin_spec(h) > 0 && fx_cos_spec(h) > 0 && t > 0 && i64::MIN <= f <= i64::MAX && i64::MIN
        <= fx_div_spec(f, aspect as int) <= i64::MAX && projection_matrix_spec(
        fovy,
        aspect,
        near,
        far,
    ).ok()
}

/// Build the projection matrix; `None` for a degenerate field of view
/// or a value out of the geometry range.
pub fn create_projection_matrix(fovy: i64, aspect: i64, near: i64, far: i64) -> (ret: Option<
    Mat4,
>)
    requires
        aspect > 0,
        1 <= near < far <= 0x4000_0000,
    ensures
        ret == if projection_stages_ok(fovy, aspect, near, far) {
            Some(projection_matrix_spec(fovy, aspect, near, far))
        } else {
            None::<Mat4>
        },
        ret matches Some(m) ==> m.ok(),
{
    let h = fovy / 2;
    let sh = fx_sin(h);
    let ch = fx_cos(h);
    if sh <= 0 || ch <= 0 {
        return None;
    }
    proof {
        assert((sh as int) * (FX_ONE as int) <= ((sh as int) * (FX_ONE as int)) * (ch as int))
            by (nonlinear_arith)
            requires
                1 <= ch,
                0 <= sh,
        ;
        crate::fixed::lemma_tdiv_nonneg_le(
            (sh as int) * (FX_ONE as int),
            ch as int,
            (sh as int) * (FX_ONE as int),
        );
    }
    let t = fx_div(sh, ch);
    if t <= 0 {
        return None;
    }
    let f = match crate::fixed::fx_div_checked(FX_ONE, t) {
        Some(q) => q,
        None => {
            return None;
        },
    };
    let fa = match crate::fixed::fx_div_checked(f, aspect) {
        Some(q) => q,
        None => {
            return None;
        },
    };
    proof {
        let d = far as int - near as int;
        assert(0x8000_0000_0000int * 1 <= 0x8000_0000_0000int * d) by (nonlinear_arith)
            requires
                1 <= d,
        ;
        crate::fixed::lemma_tdiv_abs_le(
            (far as int + near as int) * (FX_ONE as int),
            d,
            0x8000_0000_0000,
        );
        assert(0 <= (far as int) * (near as int) <= 0x1000_0000_0000int * (FX_ONE as int))
            by (nonlinear_arith)
            requires
                1 <= near as int,
                near as int <= 0x4000_0000,
                1 <= far as int,
                far as int <= 0x4000_0000,
        ;
        crate::fixed::lemma_tdiv_nonneg_le(
            (far as int) * (near as int),
            FX_ONE as int,
            0x1000_0000_0000,
        );
        assert(0x2000_0000_0000_0000int * 1 <= 0x2000_0000_0000_0000int * d) by (nonlinear_arith)
            requires
                1 <= d,
        ;
        crate::fixed::lemma_tdiv_abs_le(
            (2 * fx_mul_spec(far as int, near as int)) * (FX_ONE as int),
            d,
            0x2000_0000_0000_0000,
        );
    }
    let aa = -fx_div(far + near, far - near);
    let bb = -fx_div(2 * fx_mul(far, near), far - near);
    let m = Mat4 {
        r0: Vec4 { x: fa, y: 0, z: 0, w: 0 },
        r1: Vec4 { x: 0, y: f, z: 0, w: 0 },
        r2: Vec4 { x: 0, y: 0, z: aa, w: bb },
        r3: Vec4 { x: 0, y: 0, z: -FX_ONE, w: 0 },
    };
    if mat4_ok_check(&m) {
        Some(m)
    } else {
        None
    }
}

/// The viewport matrix: normalized device coordinates in
/// `[-1, 1] x [-1, 1]` to the pixel rectangle anchored at
/// `(x0, y0)` with the given width and height; depth passes through.
pub open spec fn viewport_matrix_spec(x0: i64, y0: i64, width: i64, height: i64) -> Mat4 {
    let halfw = tdiv(width as int, 2);
    let halfh = tdiv(height as int, 2);
    Mat4 {
        r0: Vec4 { x: halfw as i64, y: 0, z: 0, w: (x0 + halfw) as i64 },
        r1: Vec4 { x: 0, y: halfh as i64, z: 0, w: (y0 + halfh) as i64 },
        r2: Vec4 { x: 0, y: 0, z: FX_ONE, w: 0 },
        r3: Vec4 { x: 0, y: 0, z: 0, w: FX_ONE },
    }
}

/// Build the viewport matrix.
pub fn create_viewport_matrix(x0: i64, y0: i64, width: i64, height: i64) -> (r: Mat4)
    requires
        0 <= width <= 0x10_0000_0000,
        0 <= height <= 0x10_0000_0000,
        -0x4000_0000 <= x0 <= 0x4000_0000,
        -0x4000_0000 <= y0 <= 0x4000_0000,
    ensures
        r == viewport_matrix_spec(x0, y0, width, height),
        r.ok(),
{
    let halfw = width / 2;
    let halfh = height / 2;
    Mat4 {
        r0: Vec4 { x: halfw, y: 0, z: 0, w: x0 + halfw },
        r1: Vec4 { x: 0, y: halfh, z: 0, w: y0 + halfh },
        r2: Vec4 { x: 0, y: 0, z: FX_ONE, w: 0 },
        r3: Vec4 { x: 0, y: 0, z: 0, w: FX_ONE },
    }
}

/// The clip-space position of a vertex: model, then view, then
/// projection.
pub open spec fn clip_of_spec(
    vertex: Vec3,
    translation: Vec3,
    scale: i64,
    rotation: Vec3,
    view: Mat4,
    proj: Mat4,
) -> Vec4 {
    mat_vec4_spec(
        proj,
        mat_vec4_spec(
            view,
            mat_vec4_spec(model_matrix_spec(translation, scale, rotation), vec4_of_spec(vertex)),
        ),
    )
}

/// The perspective divide: clip coordinates over the homogeneous
/// weight.
pub open spec fn ndc_of_spec(clip: Vec4) -> Vec3 {
    Vec3 {
        x: fx_div_spec(clip.x as int, clip.w as int) as i64,
        y: fx_div_spec(clip.y as int, clip.w as int) as i64,
        z: fx_div_spec(clip.z as int, clip.w as int) as i64,
    }
}

/// Pixel coordinates from device coordinates: the viewport applied to
/// `x` and `y`, with the depth kept in normalized device coordinates
/// for the depth test.
pub open spec fn screen_of_spec(viewport: Mat4, ndc: Vec3) -> Vec3 {
    let s = mat_vec4_spec(viewport, Vec4 { x: ndc.x, y: ndc.y, z: ndc.z, w: FX_ONE });
    Vec3 { x: s.x, y: s.y, z: ndc.z }
}

/// The whole transform stays in numeric range and the vertex lies in
/// front of the eye.
pub open spec fn transform_ok_spec(
    vertex: Vec3,
    translation: Vec3,
    scale: i64,
    rotation: Vec3,
    view: Mat4,
    proj: Mat4,
) -> bool {
    let world = mat_vec4_spec(model_matrix_spec(translation, scale, rotation), vec4_of_spec(vertex));
    let viewd = mat_vec4_spec(view, world);
    let clip = mat_vec4_spec(proj, viewd);
    let ndc = ndc_of_spec(clip);
    model_stages_ok(translation, scale, rotation) && world.ok() && viewd.ok() && clip.w > 0
        && i64::MIN <= fx_div_spec(clip.x as int, clip.w as int) <= i64::MAX && i64::MIN
        <= fx_div_spec(clip.y as int, clip.w as int) <= i64::MAX && i64::MIN <= fx_div_spec(
        clip.z as int,
        clip.w as int,
    ) <= i64::MAX && (Vec4 { x: ndc.x, y: ndc.y, z: ndc.z, w: FX_ONE }).ok()
}

/// Carry an object-space vertex to pixel coordinates: model, view and
/// projection, a perspective divide into device coordinates, then the
/// viewport on `x` and `y` with the depth kept in device coordinates.
/// `None` discards a vertex at or behind the eye, or one that leaves
/// the numeric range on the way: the documented policy for the
/// missing frustum clip.
pub fn transform(
    vertex: Vec3,
    translation: Vec3,
    scale: i64,
    rotation: Vec3,
    view: &Mat4,
    proj: &Mat4,
    viewport: &Mat4,
) -> (r: Option<Vec3>)
    requires
        vertex.ok(),
        translation.ok(),
        fx_ok(scale as int),
        view.ok(),
        proj.ok(),
        viewport.ok(),
    ensures
        r == if transform_ok_spec(vertex, translation, scale, rotation, *view, *proj) {
            Some(
                screen_of_spec(
                    *viewport,
                    ndc_of_spec(clip_of_spec(vertex, translation, scale, rotation, *view, *proj)),
                ),
            )
        } else {
            None::<Vec3>
        },
        ({
            let clip = clip_of_spec(vertex, translation, scale, rotation, *view, *proj);
            r matches Some(s) ==> (-clip.w <= clip.z <= clip.w ==> -FX_ONE <= s.z <= FX_ONE)
        }),
{
    let model = match create_model_matrix(translation, scale, rotation) {
        Some(m) => m,
        None => {
            return None;
        },
    };
    let world = mat_vec4(&model, vec4_of(vertex));
    if !vec4_ok_check(&world) {
        return None;
    }
    let viewd = mat_vec4(view, world);
    if !vec4_ok_check(&viewd) {
        return None;
    }
    let clip = mat_vec4(proj, viewd);
    if clip.w <= 0 {
        return None;
    }
    let nx = match crate::fixed::fx_div_checked(clip.x, clip.w) {
        Some(q) => q,
        None => {
            return None;
        },
    };
    let ny = match crate::fixed::fx_div_checked(clip.y, clip.w) {
        Some(q) => q,
        None => {
            return None;
        },
    };
    let nz = match crate::fixed::fx_div_checked(clip.z, clip.w) {
        Some(q) => q,
        None => {
            return None;
        },
    };
    proof {
        let clip_s = clip_of_spec(vertex, translation, scale, rotation, *view, *proj);
        if -clip_s.w <= clip_s.z <= clip_s.w {
            assert(-((FX_ONE as int) * (clip_s.w as int)) <= (clip_s.z as int) * (FX_ONE as int)
                <= (FX_ONE as int) * (clip_s.w as int)) by (nonlinear_arith)
                requires
                    -clip_s.w <= clip_s.z <= clip_s.w,
                    clip_s.w > 0,
            ;
            crate::fixed::lemma_tdiv_abs_le(
                (clip_s.z as int) * (FX_ONE as int),
                clip_s.w as int,
                FX_ONE as int,
            );
        }
    }
    let ndc4 = Vec4 { x: nx, y: ny, z: nz, w: FX_ONE };
    if !vec4_ok_check(&ndc4) {
        return None;
    }
    let s4 = mat_vec4(viewport, ndc4);
    Some(Vec3 { x: s4.x, y: s4.y, z: nz })
}

/// The camera's own eye point, taken through its view matrix, lands
/// exactly at the view-space origin: the per-row translation terms
/// are the same fixed-point dot products that the application
/// computes, so they cancel without rounding error.
pub proof fn lemma_eye_maps_to_origin(eye: Vec3, target: Vec3, up: Vec3)
    requires
        eye.ok(),
        view_stages_ok(eye, target, up),
    ensures
        mat_vec4_spec(view_matrix_spec(eye, target, up), vec4_of_spec(eye)) == (Vec4 {
            x: 0,
            y: 0,
            z: 0,
            w: FX_ONE,
        }),
{
    let d = Vec3 {
        x: (target.x - eye.x) as i64,
        y: (target.y - eye.y) as i64,
        z: (target.z - eye.z) as i64,
    };
    let f = norm3_spec(d);
    let r = norm3_spec(cross3_spec(f, up));
    let u = cross3_spec(r, f);
    let m = view_matrix_spec(eye, target, up);
    lemma_fx_mul_ok(r.x as int, eye.x as int);
    lemma_fx_mul_ok(r.y as int, eye.y as int);
    lemma_fx_mul_ok(r.z as int, eye.z as int);
    lemma_fx_mul_ok(u.x as int, eye.x as int);
    lemma_fx_mul_ok(u.y as int, eye.y as int);
    lemma_fx_mul_ok(u.z as int, eye.z as int);
    lemma_fx_mul_ok(f.x as int, eye.x as int);
    lemma_fx_mul_ok(f.y as int, eye.y as int);
    lemma_fx_mul_ok(f.z as int, eye.z as int);
    crate::fixed::lemma_fx_one(m.r0.w as int);
    crate::fixed::lemma_fx_one(m.r1.w as int);
    crate::fixed::lemma_fx_one(m.r2.w as int);
    crate::fixed::lemma_fx_one(FX_ONE as int);
    crate::fixed::lemma_fx_mul_neg(f.x as int, eye.x as int);
    crate::fixed::lemma_fx_mul_neg(f.y as int, eye.y as int);
    crate::fixed::lemma_fx_mul_neg(f.z as int, eye.z as int);
    crate::fixed::lemma_fx_mul_zero(eye.x as int);
    crate::fixed::lemma_fx_mul_zero(eye.y as int);
    crate::fixed::lemma_fx_mul_zero(eye.z as int);
    assert(dot4_spec(m.r0, vec4_of_spec(eye)) == 0);
    assert(dot4_spec(m.r1, vec4_of_spec(eye)) == 0);
    assert(dot4_spec(m.r2, vec4_of_spec(eye)) == 0);
    assert(dot4_spec(m.r3, vec4_of_spec(eye)) == FX_ONE);
}

/// Taken on through the projection, the eye point's homogeneous
/// weight is exactly zero: not positive, so the transform reports the
/// camera's own position as behind the eye and discards it.
pub proof fn lemma_eye_w_not_positive(
    eye: Vec3,
    target: Vec3,
    up: Vec3,
    fovy: i64,
    aspect: i64,
    near: i64,
    far: i64,
)
    requires
        eye.ok(),
        view_stages_ok(eye, target, up),
    ensures
        mat_vec4_spec(
            projection_matrix_spec(fovy, aspect, near, far),
            mat_vec4_spec(view_matrix_spec(eye, target, up), vec4_of_spec(eye)),
        ).w == 0,
{
    lemma_eye_maps_to_origin(eye, target, up);
    let p = projection_matrix_spec(fovy, aspect, near, far);
    crate::fixed::lemma_fx_mul_zero(p.r3.x as int);
    crate::fixed::lemma_fx_mul_zero(p.r3.y as int);
    crate::fixed::lemma_fx_mul_zero(p.r3.z as int);
    crate::fixed::lemma_fx_mul_zero(p.r3.w as int);
    crate::fixed::lemma_fx_mul_zero(FX_ONE as int);
}

/// A point dead ahead of the camera at view-space depth `d` projects
/// to device coordinates `(0, 0)`, and the viewport carries `(0, 0)`
/// to the center pixel of the viewport rectangle, for any symmetric
/// frustum.
pub proof fn lemma_centered_point_maps_to_center(
    x0: i64,
    y0: i64,
    width: i64,
    height: i64,
    d: i64,
    fovy: i64,
    aspect: i64,
    near: i64,
    far: i64,
)
    requires
        0 < d,
        0 <= width <= 0x10_0000_0000,
        0 <= height <= 0x10_0000_0000,
        -0x4000_0000 <= x0 <= 0x4000_0000,
        -0x4000_0000 <= y0 <= 0x4000_0000,
    ensures
        ({
            let clip = mat_vec4_spec(
                projection_matrix_spec(fovy, aspect, near, far),
                Vec4 { x: 0, y: 0, z: (-(d as int)) as i64, w: FX_ONE },
            );
            let screen = screen_of_spec(
                viewport_matrix_spec(x0, y0, width, height),
                ndc_of_spec(clip),
            );
            clip.w == d && clip.x == 0 && clip.y == 0 && screen.x == x0 + tdiv(width as int, 2)
                && screen.y == y0 + tdiv(height as int, 2)
        }),
{
    let p = projection_matrix_spec(fovy, aspect, near, far);
    let v = Vec4 { x: 0, y: 0, z: (-(d as int)) as i64, w: FX_ONE };
    crate::fixed::lemma_fx_mul_zero(p.r0.x as int);
    crate::fixed::lemma_fx_mul_zero(p.r1.y as int);
    crate::fixed::lemma_fx_mul_zero(p.r0.w as int);
    crate::fixed::lemma_fx_mul_zero(p.r1.w as int);
    crate::fixed::lemma_fx_mul_zero(v.z as int);
    crate::fixed::lemma_fx_mul_zero(FX_ONE as int);
    crate::fixed::lemma_fx_one(d as int);
    crate::fixed::lemma_fx_mul_neg(FX_ONE as int, -(d as int));
    assert((-(FX_ONE as int)) * (-(d as int)) == (FX_ONE as int) * (d as int))
        by (nonlinear_arith);
    let clip = mat_vec4_spec(p, v);
    assert(clip.w == d);
    assert(clip.x == 0);
    assert(clip.y == 0);
    vstd::arithmetic::div_mod::lemma_div_of0(d as int);
    assert(fx_div_spec(0, d as int) == 0);
    let ndc = ndc_of_spec(clip);
    assert(ndc.x == 0 && ndc.y == 0);
    let vp = viewport_matrix_spec(x0, y0, width, height);
    crate::fixed::lemma_fx_mul_zero(vp.r0.x as int);
    crate::fixed::lemma_fx_mul_zero(vp.r1.y as int);
    crate::fixed::lemma_fx_mul_zero(ndc.z as int);
    crate::fixed::lemma_fx_one(vp.r0.w as int);
    crate::fixed::lemma_fx_one(vp.r1.w as int);
}

} // verus!
