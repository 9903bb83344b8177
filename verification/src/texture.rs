//! RGBA8 colors and a plain-value model of the offscreen target's contents,
//! with the nearest-texel, clamp-to-edge sampling the composite pass uses.

use vstd::prelude::*;

verus! {

/// One RGBA8 color value.
#[derive(Clone, Copy, Debug, PartialEq, Eq, Structural)]
pub struct Rgba {
    pub r: u8,
    pub g: u8,
    pub b: u8,
    pub a: u8,
}

/// Opaque black, the mask color for coordinates the warp pushes off the
/// texture.
pub open spec fn spec_black() -> Rgba {
    Rgba { r: 0, g: 0, b: 0, a: 255 }
}

/// Opaque black as a value.
pub fn black() -> (c: Rgba)
    ensures
        c == spec_black(),
{
    Rgba { r: 0, g: 0, b: 0, a: 255 }
}

/// Opaque white, the clear color of the composite pass.
pub open spec fn spec_white() -> Rgba {
    Rgba { r: 255, g: 255, b: 255, a: 255 }
}

/// Opaque white as a value.
pub fn white() -> (c: Rgba)
    ensures
        c == spec_white(),
{
    Rgba { r: 255, g: 255, b: 255, a: 255 }
}

/// A w-by-h RGBA8 image in row-major order: the contents of a color render
/// target as plain values.
pub struct TextureModel {
    pub width: usize,
    pub height: usize,
    pub pixels: Vec<Rgba>,
}

impl TextureModel {
    /// Dimensions are positive, bounded, and match the pixel count.
    pub open spec fn wf(self) -> bool {
        &&& 1 <= self.width <= 0x8000
        &&& 1 <= self.height <= 0x8000
        &&& self.pixels@.len() == self.width * self.height
    }

    /// The texel at column `col` of row `row`.
    pub open spec fn texel(self, col: int, row: int) -> Rgba {
        self.pixels@[row * self.width + col]
    }

    /// An image of the given size filled with one color.
    pub fn new_uniform(width: usize, height: usize, c: Rgba) -> (t: TextureModel)
        requires
            1 <= width <= 0x8000,
            1 <= height <= 0x8000,
        ensures
            t.wf(),
            t.width == width,
            t.height == height,
            forall|col: int, row: int|
                0 <= col < width && 0 <= row < height ==> t.texel(col, row) == c,
    {
        proof {
            assert(width * height <= 0x40000000) by (nonlinear_arith)
                requires
                    width <= 0x8000,
                    height <= 0x8000,
            ;
        }
        let n = width * height;
        let mut pixels: Vec<Rgba> = Vec::new();
        let mut i: usize = 0;
        while i < n
            invariant
                i <= n,
                pixels@.len() == i,
                forall|k: int| 0 <= k < i ==> pixels@[k] == c,
            decreases n - i,
        {
            pixels.push(c);
            i = i + 1;
        }
        let t = TextureModel { width, height, pixels };
        assert forall|col: int, row: int|
            0 <= col < width && 0 <= row < height implies t.texel(col, row) == c by {
            assert(0 <= row * width + col < width * height) by (nonlinear_arith)
                requires
                    0 <= col < width,
                    0 <= row < height,
            ;
        }
        t
    }

    /// Read the texel at (col, row).
    pub fn get(&self, col: usize, row: usize) -> (c: Rgba)
        requires
            self.wf(),
            col < self.width,
            row < self.height,
        ensures
            c == self.texel(col as int, row as int),
    {
        proof {
            assert(0 <= row * self.width + col < self.width * self.height && self.width
                * self.height <= 0x40000000) by (nonlinear_arith)
                requires
                    0 <= col < self.width,
                    0 <= row < self.height,
                    self.width <= 0x8000,
                    self.height <= 0x8000,
            ;
        }
        self.pixels[row * self.width + col]
    }

    /// Overwrite the texel at (col, row); the rest of the image is unchanged.
    pub fn set(&mut self, col: usize, row: usize, c: Rgba)
        requires
            old(self).wf(),
            col < old(self).width,
            row < old(self).height,
        ensures
            final(self).wf(),
            final(self).width == old(self).width,
            final(self).height == old(self).height,
            final(self).texel(col as int, row as int) == c,
            forall|c2: int, r2: int|
                0 <= c2 < old(self).width && 0 <= r2 < old(self).height && !(c2 == col && r2
                    == row) ==> final(self).texel(c2, r2) == old(self).texel(c2, r2),
    {
        proof {
            assert(0 <= row * self.width + col < self.width * self.height && self.width
                * self.height <= 0x40000000) by (nonlinear_arith)
                requires
                    0 <= col < self.width,
                    0 <= row < self.height,
                    self.width <= 0x8000,
                    self.height <= 0x8000,
            ;
        }
        let i = row * self.width + col;
        self.pixels.set(i, c);
        proof {
            assert forall|c2: int, r2: int|
                0 <= c2 < self.width && 0 <= r2 < self.height && !(c2 == col && r2
                    == row) implies self.texel(c2, r2) == old(self).texel(c2, r2) by {
                assert(0 <= r2 * self.width + c2 < self.width * self.height && r2 * self.width + c2
                    != row * self.width + col) by (nonlinear_arith)
                    requires
                        0 <= c2 < self.width,
                        0 <= r2 < self.height,
                        0 <= col < self.width,
                        0 <= row < self.height,
                        !(c2 == col && r2 == row),
                ;
            }
        }
    }
}

/// Clamp a texel index to the valid range [0, w-1] (clamp-to-edge).
pub open spec fn clamp_index(i: int, w: int) -> int {
    if i < 0 {
        0
    } else if i >= w {
        w - 1
    } else {
        i
    }
}

/// The texel index sampled at the rational coordinate num/den along a line of
/// w texels: the nearest texel floor(num * w / den), clamped to the edge.
pub open spec fn sample_index(num: int, den: int, w: int) -> int {
    clamp_index(num * w / den, w)
}

/// Bound on sampling numerators and denominators (2^100): far above anything
/// the warp produces, far below what overflows an i128 when multiplied by a
/// texture dimension.
pub open spec fn sample_bound() -> int {
    0x10000000000000000000000000
}

/// Compute the sampled texel index for the coordinate num/den.
pub fn sample_line(num: i128, den: i128, w: usize) -> (ix: usize)
    requires
        0 < den <= sample_bound(),
        -sample_bound() <= num <= sample_bound(),
        1 <= w <= 0x10000,
    ensures
        ix == sample_index(num as int, den as int, w as int),
        ix < w,
{
    if num < 0 {
        proof {
            assert(num * w < 0) by (nonlinear_arith)
                requires
                    num < 0,
                    w >= 1,
            ;
            assert((num as int) * (w as int) / (den as int) < 0) by (nonlinear_arith)
                requires
                    num * w < 0,
                    den > 0,
            ;
        }
        0
    } else {
        let nu = num as u128;
        let du = den as u128;
        let wu = w as u128;
        proof {
            assert(nu * wu <= 0x100000000000000000000000000000000 - 1) by (nonlinear_arith)
                requires
                    0 <= nu <= 0x10000000000000000000000000,
                    wu <= 0x10000,
            ;
        }
        let q = (nu * wu) / du;
        proof {
            assert(q == (num as int) * (w as int) / (den as int));
        }
        if q >= w as u128 {
            w - 1
        } else {
            q as usize
        }
    }
}

} // verus!
