//! A rectangular pixel buffer that the rasterizer draws onto.

use vstd::prelude::*;
use crate::pixel::{Pixel, spec_transparent};

verus! {

/// The flat buffer index of the pixel at `(x, y)` in a row-major grid
/// `w` pixels wide.
pub open spec fn spec_idx(x: int, y: int, w: int) -> int {
    y * w + x
}

/// In a `w` by `h` grid, the flat index of an in-bounds `(x, y)` is a valid
/// position, and distinct in-bounds coordinates get distinct indices.
pub proof fn lemma_grid_index(x: int, y: int, w: int, h: int)
    requires
        0 <= x < w,
        0 <= y < h,
    ensures
        0 <= spec_idx(x, y, w) < w * h,
        forall|x2: int, y2: int|
            0 <= x2 < w && 0 <= y2 < h && (x2 != x || y2 != y)
                ==> #[trigger] spec_idx(x2, y2, w) != spec_idx(x, y, w),
{
    assert(0 <= y * w + x < w * h) by (nonlinear_arith)
        requires
            0 <= x < w,
            0 <= y < h,
    ;
    assert forall|x2: int, y2: int|
        0 <= x2 < w && 0 <= y2 < h && (x2 != x || y2 != y)
            implies #[trigger] spec_idx(x2, y2, w) != spec_idx(x, y, w) by {
        assert(y2 * w + x2 != y * w + x) by (nonlinear_arith)
            requires
                0 <= x < w,
                0 <= x2 < w,
                (x2 != x || y2 != y),
        ;
    }
}

/// A sprite: a `width` by `height` grid of pixels stored row-major.
#[derive(Debug, Clone)]
pub struct Sprite {
    /// Width in pixels; never negative.
    pub width: i32,
    /// Height in pixels; never negative.
    pub height: i32,
    /// Row-major pixel data, exactly `width * height` entries.
    pub pixels: Vec<Pixel>,
}

impl Sprite {
    /// The sprite's structural invariant: non-negative dimensions and a
    /// buffer of exactly `width * height` pixels.
    pub open spec fn wf(&self) -> bool {
        &&& 0 <= self.width <= 0xffff
        &&& 0 <= self.height <= 0xffff
        &&& self.pixels@.len() == self.width * self.height
    }

    /// Whether `(x, y)` lies inside the sprite.
    pub open spec fn spec_in_bounds(&self, x: int, y: int) -> bool {
        0 <= x < self.width && 0 <= y < self.height
    }

    /// The pixel at in-bounds `(x, y)`.
    pub open spec fn spec_pixel(&self, x: int, y: int) -> Pixel {
        self.pixels@[spec_idx(x, y, self.width as int)]
    }

    /// Constructs a sprite of the given dimensions with every pixel set to
    /// the transparent default.
    pub fn with_size(width: u32, height: u32) -> (s: Sprite)
        requires
            width <= 0xffff,
            height <= 0xffff,
        ensures
            s.wf(),
            s.width == width,
            s.height == height,
            forall|i: int| 0 <= i < s.pixels@.len() ==> s.pixels@[i] == spec_transparent(),
    {
        proof {
            assert(width * height <= 0xffff * 0xffff) by (nonlinear_arith)
                requires
                    width <= 0xffff,
                    height <= 0xffff,
            ;
        }
        let total: usize = width as usize * height as usize;
        let mut pixels: Vec<Pixel> = Vec::new();
        let mut i: usize = 0;
        while i < total
            invariant
                i <= total,
                pixels@.len() == i,
                forall|j: int| 0 <= j < i ==> pixels@[j] == spec_transparent(),
            decreases total - i,
        {
            pixels.push(Pixel::default());
            i = i + 1;
        }
        Sprite { width: width as i32, height: height as i32, pixels }
    }

    /// The sprite width in pixels.
    pub fn width(&self) -> (w: i32)
        ensures
            w == self.width,
    {
        self.width
    }

    /// The sprite height in pixels.
    pub fn height(&self) -> (h: i32)
        ensures
            h == self.height,
    {
        self.height
    }

    /// Writes `p` at `(x, y)` and reports whether the write landed inside
    /// the sprite; out-of-bounds writes change nothing.
    pub fn set_pixel(&mut self, x: i32, y: i32, p: Pixel) -> (hit: bool)
        requires
            old(self).wf(),
        ensures
            final(self).wf(),
            final(self).width == old(self).width,
            final(self).height == old(self).height,
            hit == old(self).spec_in_bounds(x as int, y as int),
            hit ==> final(self).pixels@ == old(self).pixels@.update(
                spec_idx(x as int, y as int, old(self).width as int),
                p,
            ),
            !hit ==> *final(self) == *old(self),
    {
        if x >= 0 && x < self.width && y >= 0 && y < self.height {
            proof {
                lemma_grid_index(x as int, y as int, self.width as int, self.height as int);
                assert(y as int * self.width as int <= spec_idx(x as int, y as int, self.width as int));
                assert(self.width * self.height <= 0xffff * 0xffff) by (nonlinear_arith)
                    requires
                        0 <= self.width <= 0xffff,
                        0 <= self.height <= 0xffff,
                ;
            }
            let idx: usize = y as usize * self.width as usize + x as usize;
            self.pixels.set(idx, p);
            true
        } else {
            false
        }
    }

    /// Reads the pixel at `(x, y)`, or the transparent default when the
    /// coordinates fall outside the sprite.
    pub fn get_pixel(&self, x: i32, y: i32) -> (p: Pixel)
        requires
            self.wf(),
        ensures
            self.spec_in_bounds(x as int, y as int) ==> p == self.spec_pixel(x as int, y as int),
            !self.spec_in_bounds(x as int, y as int) ==> p == spec_transparent(),
    {
        if x >= 0 && x < self.width && y >= 0 && y < self.height {
            proof {
                lemma_grid_index(x as int, y as int, self.width as int, self.height as int);
                assert(y as int * self.width as int <= spec_idx(x as int, y as int, self.width as int));
                assert(self.width * self.height <= 0xffff * 0xffff) by (nonlinear_arith)
                    requires
                        0 <= self.width <= 0xffff,
                        0 <= self.height <= 0xffff,
                ;
            }
            let idx: usize = y as usize * self.width as usize + x as usize;
            self.pixels[idx]
        } else {
            Pixel::default()
        }
    }
}

} // verus!
