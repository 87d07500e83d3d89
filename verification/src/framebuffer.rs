//! The framebuffer: a color grid and a per-pixel depth grid.
//!
//! `set_pixel` performs the depth test — a write lands only when its
//! depth is strictly nearer (smaller, in normalized device
//! coordinates) than the depth stored at that pixel — and silently
//! drops coordinates outside the grid, since the rasterizer does not
//! pre-clip against the screen bounds.

use vstd::prelude::*;
use crate::vec3::Vec3;

verus! {

/// The depth stored in a fresh or cleared pixel: farther than any
/// representable fragment.
pub const DEPTH_FAR: i64 = 0x7fff_ffff_ffff_ffff;

/// One depth-tested write into the cell grids: the new color and
/// depth land only when the write is strictly nearer.
pub open spec fn write_cells(
    colors: Seq<Vec3>,
    depths: Seq<i64>,
    idx: int,
    d: i64,
    c: Vec3,
) -> (Seq<Vec3>, Seq<i64>) {
    if 0 <= idx < depths.len() && d < depths[idx] {
        (colors.update(idx, c), depths.update(idx, d))
    } else {
        (colors, depths)
    }
}

/// A color buffer and a depth buffer over a pixel rectangle, plus the
/// current draw color.
pub struct Framebuffer {
    pub width: usize,
    pub height: usize,
    pub background: Vec3,
    pub current: Vec3,
    pub colors: Vec<Vec3>,
    pub depths: Vec<i64>,
}

impl Framebuffer {
    /// Both grids cover exactly the pixel rectangle.
    pub open spec fn wf(self) -> bool {
        self.colors@.len() == self.width * self.height && self.depths@.len() == self.width
            * self.height && self.width <= 0x1000 && self.height <= 0x1000
    }

    /// A fresh framebuffer: every pixel holds the background color and
    /// the far depth.
    pub fn new(width: usize, height: usize, background: Vec3) -> (r: Framebuffer)
        requires
            width <= 0x1000,
            height <= 0x1000,
        ensures
            r.wf(),
            r.width == width,
            r.height == height,
            r.background == background,
            forall|i: int| 0 <= i < r.colors@.len() ==> r.colors@[i] == background,
            forall|i: int| 0 <= i < r.depths@.len() ==> r.depths@[i] == DEPTH_FAR,
    {
        proof {
            assert((width as int) * (height as int) <= 0x1000int * 0x1000int)
                by (nonlinear_arith)
                requires
                    0 <= width as int <= 0x1000,
                    0 <= height as int <= 0x1000,
            ;
        }
        let n = width * height;
        let mut colors: Vec<Vec3> = Vec::new();
        let mut depths: Vec<i64> = Vec::new();
        let mut i: usize = 0;
        while i < n
            invariant
                i <= n,
                colors@.len() == i,
                depths@.len() == i,
                forall|j: int| 0 <= j < i ==> colors@[j] == background,
                forall|j: int| 0 <= j < i ==> depths@[j] == DEPTH_FAR,
            decreases n - i,
        {
            colors.push(background);
            depths.push(DEPTH_FAR);
            i = i + 1;
        }
        Framebuffer { width, height, background, current: background, colors, depths }
    }

    /// Reset every pixel to the background color and the far depth.
    pub fn clear(&mut self)
        requires
            old(self).wf(),
        ensures
            final(self).wf(),
            final(self).width == old(self).width,
            final(self).height == old(self).height,
            final(self).background == old(self).background,
            final(self).current == old(self).current,
            forall|i: int|
                0 <= i < final(self).colors@.len() ==> final(self).colors@[i] == old(
                    self,
                ).background,
            forall|i: int| 0 <= i < final(self).depths@.len() ==> final(self).depths@[i] == DEPTH_FAR,
    {
        proof {
            assert((self.width as int) * (self.height as int) <= 0x1000int * 0x1000int)
                by (nonlinear_arith)
                requires
                    0 <= self.width as int <= 0x1000,
                    0 <= self.height as int <= 0x1000,
            ;
        }
        let n = self.width * self.height;
        let mut colors: Vec<Vec3> = Vec::new();
        let mut depths: Vec<i64> = Vec::new();
        let mut i: usize = 0;
        while i < n
            invariant
                i <= n,
                colors@.len() == i,
                depths@.len() == i,
                forall|j: int| 0 <= j < i ==> colors@[j] == old(self).background,
                forall|j: int| 0 <= j < i ==> depths@[j] == DEPTH_FAR,
                self == old(self),
            decreases n - i,
        {
            colors.push(self.background);
            depths.push(DEPTH_FAR);
            i = i + 1;
        }
        self.colors = colors;
        self.depths = depths;
    }

    /// Select the color that the next writes will carry.
    pub fn set_current_color(&mut self, c: Vec3)
        ensures
            *final(self) == (Framebuffer { current: c, ..*old(self) }),
    {
        self.current = c;
    }

    /// Write the current color at `(x, y)` with the given depth: the
    /// write lands only when the pixel is on the grid and the depth is
    /// strictly nearer than the one stored; anything else is silently
    /// dropped.
    pub fn set_pixel(&mut self, x: i64, y: i64, depth: i64)
        requires
            old(self).wf(),
        ensures
            final(self).wf(),
            final(self).width == old(self).width,
            final(self).height == old(self).height,
            final(self).background == old(self).background,
            final(self).current == old(self).current,
            ({
                let inb = 0 <= x < old(self).width && 0 <= y < old(self).height;
                let idx = y * old(self).width + x;
                if inb {
                    (final(self).colors@, final(self).depths@) == write_cells(
                        old(self).colors@,
                        old(self).depths@,
                        idx as int,
                        depth,
                        old(self).current,
                    )
                } else {
                    final(self).colors@ == old(self).colors@ && final(self).depths@ == old(
                        self,
                    ).depths@
                }
            }),
    {
        if x < 0 || y < 0 {
            return ;
        }
        if x >= self.width as i64 || y >= self.height as i64 {
            return ;
        }
        let xu = x as usize;
        let yu = y as usize;
        proof {
            let w = self.width as int;
            let h = self.height as int;
            assert((y as int) * w + (x as int) < h * w) by (nonlinear_arith)
                requires
                    0 <= x,
                    (x as int) < w,
                    0 <= y,
                    (y as int) < h,
            ;
            assert(h * w == w * h) by (nonlinear_arith);
            assert(0 <= h * w <= 0x1000int * 0x1000int) by (nonlinear_arith)
                requires
                    0 <= h <= 0x1000,
                    0 <= w <= 0x1000,
            ;
        }
        let idx: usize = yu * self.width + xu;
        if depth < self.depths[idx] {
            self.colors.set(idx, self.current);
            self.depths.set(idx, depth);
        }
    }
}

/// Of two fragments written at one pixel, the nearer one (the smaller
/// depth, in normalized device coordinates) is what the framebuffer
/// retains, whichever order they arrive in.
pub proof fn lemma_depth_test_order_independent(
    colors: Seq<Vec3>,
    depths: Seq<i64>,
    idx: int,
    d1: i64,
    c1: Vec3,
    d2: i64,
    c2: Vec3,
)
    requires
        0 <= idx < depths.len(),
        colors.len() == depths.len(),
        d1 < d2,
        d1 < depths[idx],
        d2 < depths[idx],
    ensures
        ({
            let (ca, da) = write_cells(colors, depths, idx, d1, c1);
            let (cb, db) = write_cells(ca, da, idx, d2, c2);
            cb[idx] == c1 && db[idx] == d1
        }),
        ({
            let (ca, da) = write_cells(colors, depths, idx, d2, c2);
            let (cb, db) = write_cells(ca, da, idx, d1, c1);
            cb[idx] == c1 && db[idx] == d1
        }),
{
}

} // verus!
