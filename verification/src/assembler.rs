//! Primitive assembly: the transformed vertex stream, taken three at
//! a time in order, becomes triangles; one or two trailing vertices
//! are dropped, not an error.

use vstd::prelude::*;
use crate::vec3::Vec3;

verus! {

/// One assembled triangle: three screen-space points in stream order.
#[derive(Clone, Copy, PartialEq, Eq, Structural, Debug)]
pub struct Tri {
    pub a: Vec3,
    pub b: Vec3,
    pub c: Vec3,
}

/// Group every three consecutive points into a triangle, in order,
/// and drop the trailing one or two.
pub fn assemble_triangles(pts: &Vec<Vec3>) -> (tris: Vec<Tri>)
    ensures
        tris@.len() == pts@.len() / 3,
        forall|k: int|
            0 <= k < tris@.len() ==> #[trigger] tris@[k] == (Tri {
                a: pts@[3 * k],
                b: pts@[3 * k + 1],
                c: pts@[3 * k + 2],
            }),
{
    let mut tris: Vec<Tri> = Vec::new();
    let mut i: usize = 0;
    while pts.len() - i >= 3
        invariant
            i == 3 * tris@.len(),
            i <= pts@.len(),
            forall|k: int|
                0 <= k < tris@.len() ==> #[trigger] tris@[k] == (Tri {
                    a: pts@[3 * k],
                    b: pts@[3 * k + 1],
                    c: pts@[3 * k + 2],
                }),
        decreases pts@.len() - i,
    {
        tris.push(Tri { a: pts[i], b: pts[i + 1], c: pts[i + 2] });
        i = i + 3;
    }
    proof {
        vstd::arithmetic::div_mod::lemma_fundamental_div_mod_converse(
            pts@.len() as int,
            3,
            tris@.len() as int,
            pts@.len() - 3 * tris@.len(),
        );
    }
    tris
}

} // verus!
