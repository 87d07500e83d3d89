//! Three-component fixed-point vectors: positions, directions and
//! colors alike, as in the original right-handed object/world spaces.

use vstd::prelude::*;
use crate::fixed::{
    fx_ok, fx_mul, fx_mul_spec, fx_sqrt, fx_sqrt_spec, lemma_fx_mul_ok, lemma_fx_square_nonneg,
    FX_ONE,
};

verus! {

/// A vector (or color) of three Q16.16 scalars.
#[derive(Clone, Copy, PartialEq, Eq, Structural, Debug)]
pub struct Vec3 {
    pub x: i64,
    pub y: i64,
    pub z: i64,
}

impl Vec3 {
    /// All three components lie within the geometry bound.
    pub open spec fn ok(self) -> bool {
        fx_ok(self.x as int) && fx_ok(self.y as int) && fx_ok(self.z as int)
    }

    /// Build a vector from its components.
    pub fn new(x: i64, y: i64, z: i64) -> (r: Vec3)
        ensures
            r == (Vec3 { x, y, z }),
    {
        Vec3 { x, y, z }
    }

    /// Componentwise sum.
    pub fn add(self, o: Vec3) -> (r: Vec3)
        requires
            self.ok(),
            o.ok(),
        ensures
            r.x == self.x + o.x,
            r.y == self.y + o.y,
            r.z == self.z + o.z,
    {
        Vec3 { x: self.x + o.x, y: self.y + o.y, z: self.z + o.z }
    }

    /// Componentwise difference.
    pub fn sub(self, o: Vec3) -> (r: Vec3)
        requires
            self.ok(),
            o.ok(),
        ensures
            r.x == self.x - o.x,
            r.y == self.y - o.y,
            r.z == self.z - o.z,
    {
        Vec3 { x: self.x - o.x, y: self.y - o.y, z: self.z - o.z }
    }

    /// Componentwise product with a scalar.
    pub fn scale(self, s: i64) -> (r: Vec3)
        requires
            self.ok(),
            fx_ok(s as int),
        ensures
            r.x == fx_mul_spec(self.x as int, s as int),
            r.y == fx_mul_spec(self.y as int, s as int),
            r.z == fx_mul_spec(self.z as int, s as int),
    {
        proof {
            lemma_fx_mul_ok(self.x as int, s as int);
            lemma_fx_mul_ok(self.y as int, s as int);
            lemma_fx_mul_ok(self.z as int, s as int);
        }
        Vec3 { x: fx_mul(self.x, s), y: fx_mul(self.y, s), z: fx_mul(self.z, s) }
    }

    /// The dot product of two vectors.
    pub open spec fn dot_spec(self, o: Vec3) -> int {
        fx_mul_spec(self.x as int, o.x as int) + fx_mul_spec(self.y as int, o.y as int)
            + fx_mul_spec(self.z as int, o.z as int)
    }

    /// The dot product.
    pub fn dot(self, o: Vec3) -> (r: i64)
        requires
            self.ok(),
            o.ok(),
        ensures
            r == self.dot_spec(o),
    {
        proof {
            lemma_fx_mul_ok(self.x as int, o.x as int);
            lemma_fx_mul_ok(self.y as int, o.y as int);
            lemma_fx_mul_ok(self.z as int, o.z as int);
        }
        fx_mul(self.x, o.x) + fx_mul(self.y, o.y) + fx_mul(self.z, o.z)
    }

    /// The squared length of a moderately sized vector; never
    /// negative, and small enough for the square root stage.
    pub fn length_sq(self) -> (r: i64)
        requires
            -0x4000_0000 <= self.x <= 0x4000_0000,
            -0x4000_0000 <= self.y <= 0x4000_0000,
            -0x4000_0000 <= self.z <= 0x4000_0000,
        ensures
            r == self.dot_spec(self),
            0 <= r <= 0x3000_0000_0000,
    {
        proof {
            lemma_fx_square_nonneg(self.x as int);
            lemma_fx_square_nonneg(self.y as int);
            lemma_fx_square_nonneg(self.z as int);
            assert(self.x * self.x <= 0x1000_0000_0000int * (FX_ONE as int)) by (nonlinear_arith)
                requires
                    -0x4000_0000 <= self.x <= 0x4000_0000,
            ;
            assert(self.y * self.y <= 0x1000_0000_0000int * (FX_ONE as int)) by (nonlinear_arith)
                requires
                    -0x4000_0000 <= self.y <= 0x4000_0000,
            ;
            assert(self.z * self.z <= 0x1000_0000_0000int * (FX_ONE as int)) by (nonlinear_arith)
                requires
                    -0x4000_0000 <= self.z <= 0x4000_0000,
            ;
            crate::fixed::lemma_tdiv_abs_le(self.x * self.x, FX_ONE as int, 0x1000_0000_0000);
            crate::fixed::lemma_tdiv_abs_le(self.y * self.y, FX_ONE as int, 0x1000_0000_0000);
            crate::fixed::lemma_tdiv_abs_le(self.z * self.z, FX_ONE as int, 0x1000_0000_0000);
        }
        fx_mul(self.x, self.x) + fx_mul(self.y, self.y) + fx_mul(self.z, self.z)
    }

    /// The length of a moderately sized vector.
    pub fn length(self) -> (r: i64)
        requires
            -0x4000_0000 <= self.x <= 0x4000_0000,
            -0x4000_0000 <= self.y <= 0x4000_0000,
            -0x4000_0000 <= self.z <= 0x4000_0000,
        ensures
            r == fx_sqrt_spec(self.dot_spec(self)),
            0 <= r,
    {
        let sq = self.length_sq();
        fx_sqrt(sq)
    }
}

} // verus!
