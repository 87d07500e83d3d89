//! The per-entity render pass: displacement, transform, assembly,
//! rasterization, shading, and depth-tested writes into the
//! framebuffer.
//!
//! When any vertex of the stream cannot be placed (behind the eye, or
//! out of numeric range on the way), the pass skips the whole entity
//! for this frame and leaves the framebuffer's pixels untouched: the
//! documented discard policy for the missing frustum clip. Otherwise
//! the pass writes exactly the depth-tested fold of the shaded
//! fragments of every assembled triangle, in stream order, as the
//! contract states.

use vstd::prelude::*;
use crate::assembler::assemble_triangles;
use crate::displace::{apply_vertex_shader, apply_vshader_spec, VertexShader};
use crate::fixed::fx_ok;
use crate::framebuffer::{write_cells, Framebuffer};
use crate::matrix::{clip_of_spec, ndc_of_spec, screen_of_spec, transform_ok_spec, Mat4};
use crate::raster::{coord_ok, tri_frags_spec, triangle, Fragment};
use crate::shader::{fragment_shader, shade_spec, Material, Uniforms};
use crate::vec3::Vec3;

verus! {

fn coord_check(v: &Vec3) -> (b: bool)
    ensures
        b == coord_ok(*v),
{
    -crate::fixed::FX_BOUND <= v.x && v.x <= crate::fixed::FX_BOUND && -crate::fixed::FX_BOUND
        <= v.y && v.y <= crate::fixed::FX_BOUND && -crate::fixed::FX_BOUND <= v.z && v.z
        <= crate::fixed::FX_BOUND
}

/// One vertex's screen point, when the whole chain places it: the
/// displaced vertex carried through the matrices, kept only if the
/// screen point lands in the rasterizer's coordinate range.
pub open spec fn place_vertex_spec(
    v: Vec3,
    translation: Vec3,
    scale: i64,
    rotation: Vec3,
    view: Mat4,
    proj: Mat4,
    viewport: Mat4,
    vshader: VertexShader,
    time: int,
) -> Option<Vec3> {
    let d = apply_vshader_spec(v, vshader, time);
    if transform_ok_spec(d, translation, scale, rotation, view, proj) {
        let s = screen_of_spec(
            viewport,
            ndc_of_spec(clip_of_spec(d, translation, scale, rotation, view, proj)),
        );
        if coord_ok(s) {
            Some(s)
        } else {
            None
        }
    } else {
        None
    }
}

/// Every vertex of the stream places.
pub open spec fn all_placed_spec(
    va: Seq<Vec3>,
    translation: Vec3,
    scale: i64,
    rotation: Vec3,
    view: Mat4,
    proj: Mat4,
    viewport: Mat4,
    vshader: VertexShader,
    time: int,
) -> bool {
    forall|i: int|
        0 <= i < va.len() ==> place_vertex_spec(
            #[trigger] va[i],
            translation,
            scale,
            rotation,
            view,
            proj,
            viewport,
            vshader,
            time,
        ) is Some
}

/// The placed screen points, in stream order.
pub open spec fn placed_seq_spec(
    va: Seq<Vec3>,
    translation: Vec3,
    scale: i64,
    rotation: Vec3,
    view: Mat4,
    proj: Mat4,
    viewport: Mat4,
    vshader: VertexShader,
    time: int,
) -> Seq<Vec3> {
    Seq::new(
        va.len(),
        |i: int|
            place_vertex_spec(
                va[i],
                translation,
                scale,
                rotation,
                view,
                proj,
                viewport,
                vshader,
                time,
            )->Some_0,
    )
}

/// One fragment written through the depth test with a given color:
/// off-grid positions are dropped.
pub open spec fn write_frag_spec(
    colors: Seq<Vec3>,
    depths: Seq<i64>,
    w: int,
    h: int,
    frag: Fragment,
    color: Vec3,
) -> (Seq<Vec3>, Seq<i64>) {
    if 0 <= frag.x < w && 0 <= frag.y < h {
        write_cells(colors, depths, frag.y * w + frag.x, frag.depth, color)
    } else {
        (colors, depths)
    }
}

/// Two fragments at one pixel with distinct depths leave the same
/// cells whichever is written first: the nearer one's color and
/// depth. What `render` folds is therefore independent of the order
/// in which overlapping fragments arrive.
pub proof fn lemma_write_order_independent(
    colors: Seq<Vec3>,
    depths: Seq<i64>,
    w: int,
    h: int,
    f1: Fragment,
    c1: Vec3,
    f2: Fragment,
    c2: Vec3,
)
    requires
        colors.len() == depths.len(),
        depths.len() == w * h,
        0 <= f1.x < w,
        0 <= f1.y < h,
        f2.x == f1.x,
        f2.y == f1.y,
        f1.depth < f2.depth,
        f1.depth < depths[f1.y * w + f1.x],
        f2.depth < depths[f1.y * w + f1.x],
    ensures
        ({
            let idx = f1.y * w + f1.x;
            let (ca, da) = write_frag_spec(colors, depths, w, h, f1, c1);
            let (cb, db) = write_frag_spec(ca, da, w, h, f2, c2);
            cb[idx] == c1 && db[idx] == f1.depth
        }),
        ({
            let idx = f1.y * w + f1.x;
            let (ca, da) = write_frag_spec(colors, depths, w, h, f2, c2);
            let (cb, db) = write_frag_spec(ca, da, w, h, f1, c1);
            cb[idx] == c1 && db[idx] == f1.depth
        }),
{
    let idx = f1.y * w + f1.x;
    assert((f1.y as int) * w + f1.x < h * w) by (nonlinear_arith)
        requires
            0 <= f1.x < w,
            0 <= f1.y < h,
    ;
    assert(h * w == w * h) by (nonlinear_arith);
    crate::framebuffer::lemma_depth_test_order_independent(
        colors,
        depths,
        idx,
        f1.depth,
        c1,
        f2.depth,
        c2,
    );
}

/// The first `k` fragments of a stream, each shaded and written in
/// order.
pub open spec fn write_frags_spec(
    colors: Seq<Vec3>,
    depths: Seq<i64>,
    w: int,
    h: int,
    frags: Seq<Fragment>,
    u: Uniforms,
    l1: bool,
    l2: bool,
    l3: bool,
    l4: bool,
    mat: Material,
    k: nat,
) -> (Seq<Vec3>, Seq<i64>)
    decreases k,
{
    if k == 0 {
        (colors, depths)
    } else {
        let prev = write_frags_spec(colors, depths, w, h, frags, u, l1, l2, l3, l4, mat, (k
            - 1) as nat);
        write_frag_spec(
            prev.0,
            prev.1,
            w,
            h,
            frags[k - 1],
            shade_spec(frags[k - 1], u, l1, l2, l3, l4, mat),
        )
    }
}

/// The first `k` triangles of the assembled stream: each rasterized
/// to its exact fragment sequence, shaded, and written in order.
pub open spec fn write_tris_spec(
    colors: Seq<Vec3>,
    depths: Seq<i64>,
    w: int,
    h: int,
    pts: Seq<Vec3>,
    base: Vec3,
    u: Uniforms,
    l1: bool,
    l2: bool,
    l3: bool,
    l4: bool,
    mat: Material,
    k: nat,
) -> (Seq<Vec3>, Seq<i64>)
    decreases k,
{
    if k == 0 {
        (colors, depths)
    } else {
        let prev = write_tris_spec(colors, depths, w, h, pts, base, u, l1, l2, l3, l4, mat, (k
            - 1) as nat);
        let fr = tri_frags_spec(pts[3 * (k - 1)], pts[3 * (k - 1) + 1], pts[3 * (k - 1) + 2], base, base, base);
        write_frags_spec(prev.0, prev.1, w, h, fr, u, l1, l2, l3, l4, mat, fr.len())
    }
}

/// Render one entity's vertex stream into the framebuffer: displace,
/// transform, assemble into triangles, rasterize, shade each
/// fragment, and write it through the depth test. When every vertex
/// places, the pixels afterward are exactly the fold of the shaded
/// fragment writes of every assembled triangle, in stream order;
/// otherwise the whole entity is skipped and no pixel changes.
#[verifier::rlimit(100)]
#[verifier::spinoff_prover]
pub fn render(
    fb: &mut Framebuffer,
    translation: Vec3,
    scale: i64,
    rotation: Vec3,
    vertex_array: &Vec<Vec3>,
    view: &Mat4,
    projection: &Mat4,
    viewport: &Mat4,
    uniforms: &Uniforms,
    vshader: &VertexShader,
    layers: (bool, bool, bool, bool),
    mat: &Material,
    base_color: Vec3,
)
    requires
        old(fb).wf(),
        translation.ok(),
        fx_ok(scale as int),
        view.ok(),
        projection.ok(),
        viewport.ok(),
        uniforms.ok(),
        vshader.ok(),
        mat.ok(),
        coord_ok(base_color),
        forall|i: int|
            0 <= i < vertex_array@.len() ==> crate::displace::vertex_ok(
                #[trigger] vertex_array@[i],
            ),
    ensures
        final(fb).wf(),
        final(fb).width == old(fb).width,
        final(fb).height == old(fb).height,
        final(fb).background == old(fb).background,
        ({
            let placed = all_placed_spec(
                vertex_array@,
                translation,
                scale,
                rotation,
                *view,
                *projection,
                *viewport,
                *vshader,
                uniforms.time as int,
            );
            let pts = placed_seq_spec(
                vertex_array@,
                translation,
                scale,
                rotation,
                *view,
                *projection,
                *viewport,
                *vshader,
                uniforms.time as int,
            );
            if placed {
                (final(fb).colors@, final(fb).depths@) == write_tris_spec(
                    old(fb).colors@,
                    old(fb).depths@,
                    old(fb).width as int,
                    old(fb).height as int,
                    pts,
                    base_color,
                    *uniforms,
                    layers.0,
                    layers.1,
                    layers.2,
                    layers.3,
                    *mat,
                    pts.len() / 3,
                )
            } else {
                final(fb).colors@ == old(fb).colors@ && final(fb).depths@ == old(fb).depths@
            }
        }),
{
    let ghost time = uniforms.time as int;
    let mut transformed: Vec<Vec3> = Vec::new();
    let mut all_placed = true;
    let n = vertex_array.len();
    let mut i: usize = 0;
    while i < n
        invariant
            n == vertex_array@.len(),
            i <= n,
            translation.ok(),
            fx_ok(scale as int),
            view.ok(),
            projection.ok(),
            viewport.ok(),
            uniforms.ok(),
            vshader.ok(),
            time == uniforms.time as int,
            *fb == *old(fb),
            forall|j: int|
                0 <= j < n ==> crate::displace::vertex_ok(#[trigger] vertex_array@[j]),
            all_placed == forall|j: int|
                0 <= j < i ==> place_vertex_spec(
                    #[trigger] vertex_array@[j],
                    translation,
                    scale,
                    rotation,
                    *view,
                    *projection,
                    *viewport,
                    *vshader,
                    time,
                ) is Some,
            all_placed ==> transformed@.len() == i,
            all_placed ==> forall|j: int|
                0 <= j < i ==> transformed@[j] == place_vertex_spec(
                    #[trigger] vertex_array@[j],
                    translation,
                    scale,
                    rotation,
                    *view,
                    *projection,
                    *viewport,
                    *vshader,
                    time,
                )->Some_0,
            forall|j: int| 0 <= j < transformed@.len() ==> coord_ok(#[trigger] transformed@[j]),
        decreases n - i,
    {
        let displaced = apply_vertex_shader(vertex_array[i], vshader, uniforms.time);
        match crate::matrix::transform(
            displaced,
            translation,
            scale,
            rotation,
            view,
            projection,
            viewport,
        ) {
            Some(s) => {
                if coord_check(&s) {
                    transformed.push(s);
                } else {
                    all_placed = false;
                }
            },
            None => {
                all_placed = false;
            },
        }
        i = i + 1;
    }
    if !all_placed {
        return ;
    }
    let ghost pts = placed_seq_spec(
        vertex_array@,
        translation,
        scale,
        rotation,
        *view,
        *projection,
        *viewport,
        *vshader,
        time,
    );
    proof {
        assert(transformed@ =~= pts);
    }
    let tris = assemble_triangles(&transformed);
    proof {
        assert forall|j: int| 0 <= j < tris@.len() implies coord_ok(#[trigger] tris@[j].a)
            && coord_ok(tris@[j].b) && coord_ok(tris@[j].c) by {
            assert(tris@[j] == (crate::assembler::Tri {
                a: transformed@[3 * j],
                b: transformed@[3 * j + 1],
                c: transformed@[3 * j + 2],
            }));
        };
    }
    let ghost w = old(fb).width as int;
    let ghost h = old(fb).height as int;
    let mut k: usize = 0;
    while k < tris.len()
        invariant
            fb.wf(),
            fb.width == old(fb).width,
            fb.height == old(fb).height,
            fb.background == old(fb).background,
            uniforms.ok(),
            mat.ok(),
            coord_ok(base_color),
            w == old(fb).width as int,
            h == old(fb).height as int,
            k <= tris@.len(),
            tris@.len() == pts.len() / 3,
            forall|j: int|
                0 <= j < tris@.len() ==> #[trigger] tris@[j] == (crate::assembler::Tri {
                    a: pts[3 * j],
                    b: pts[3 * j + 1],
                    c: pts[3 * j + 2],
                }),
            forall|j: int| 0 <= j < tris@.len() ==> coord_ok(#[trigger] tris@[j].a) && coord_ok(
                tris@[j].b,
            ) && coord_ok(tris@[j].c),
            (fb.colors@, fb.depths@) == write_tris_spec(
                old(fb).colors@,
                old(fb).depths@,
                w,
                h,
                pts,
                base_color,
                *uniforms,
                layers.0,
                layers.1,
                layers.2,
                layers.3,
                *mat,
                k as nat,
            ),
        decreases tris@.len() - k,
    {
        let ghost cs_k = fb.colors@;
        let ghost ds_k = fb.depths@;
        let t = &tris[k];
        let frags = triangle(&t.a, &t.b, &t.c, base_color, base_color, base_color);
        proof {
            assert(frags@ == tri_frags_spec(pts[3 * (k as int)], pts[3 * (k as int) + 1], pts[3 * (
            k as int) + 2], base_color, base_color, base_color));
        }
        let mut f: usize = 0;
        while f < frags.len()
            invariant
                fb.wf(),
                fb.width == old(fb).width,
                fb.height == old(fb).height,
                fb.background == old(fb).background,
                uniforms.ok(),
                mat.ok(),
                w == old(fb).width as int,
                h == old(fb).height as int,
                f <= frags@.len(),
                forall|j: int|
                    0 <= j < frags@.len() ==> -0x80_0000 <= (#[trigger] frags@[j]).x <= 0x80_0000
                        && -0x80_0000 <= frags@[j].y <= 0x80_0000,
                (fb.colors@, fb.depths@) == write_frags_spec(
                    cs_k,
                    ds_k,
                    w,
                    h,
                    frags@,
                    *uniforms,
                    layers.0,
                    layers.1,
                    layers.2,
                    layers.3,
                    *mat,
                    f as nat,
                ),
            decreases frags@.len() - f,
        {
            let frag = &frags[f];
            let color = fragment_shader(frag, uniforms, layers, mat);
            fb.set_current_color(color);
            fb.set_pixel(frag.x, frag.y, frag.depth);
            f = f + 1;
        }
        proof {
            assert((fb.colors@, fb.depths@) == write_tris_spec(
                old(fb).colors@,
                old(fb).depths@,
                w,
                h,
                pts,
                base_color,
                *uniforms,
                layers.0,
                layers.1,
                layers.2,
                layers.3,
                *mat,
                (k + 1) as nat,
            ));
        }
        k = k + 1;
    }
}

} // verus!
