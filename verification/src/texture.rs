//! Image texture storage.
//!
//! A texture sampled during shading is stored as a flat, row-major buffer
//! of RGBA bytes together with its pixel dimensions; the buffer length is
//! tied to the dimensions by a type invariant, so every in-bounds lookup
//! lands on the four bytes of exactly one pixel.

use vstd::prelude::*;

verus! {

/// A row-major RGBA pixel buffer with its dimensions.
#[derive(Debug)]
pub struct ImageTexture {
    width: usize,
    height: usize,
    pixels: Vec<u8>,
}

impl ImageTexture {
    #[verifier::type_invariant]
    spec fn well_formed(&self) -> bool {
        self.pixels@.len() == self.width * self.height * 4
    }

    /// The texture's width in pixels.
    pub closed spec fn spec_width(&self) -> usize {
        self.width
    }

    /// The texture's height in pixels.
    pub closed spec fn spec_height(&self) -> usize {
        self.height
    }

    /// The byte at offset `k` of the pixel buffer.
    pub closed spec fn spec_byte(&self, k: int) -> u8 {
        self.pixels@[k]
    }

    /// The four RGBA bytes of the pixel in column `i` of row `j`.
    pub open spec fn spec_pixel(&self, i: int, j: int) -> (u8, u8, u8, u8) {
        let k = (j * self.spec_width() + i) * 4;
        (self.spec_byte(k), self.spec_byte(k + 1), self.spec_byte(k + 2), self.spec_byte(k + 3))
    }

    /// Wraps a row-major RGBA buffer of the given dimensions.
    pub fn new(width: usize, height: usize, pixels: Vec<u8>) -> (r: Self)
        requires
            pixels@.len() == width * height * 4,
        ensures
            r.spec_width() == width,
            r.spec_height() == height,
            forall|k: int| 0 <= k < pixels@.len() ==> r.spec_byte(k) == pixels@[k],
    {
        Self { width, height, pixels }
    }

    /// The texture's width in pixels.
    pub fn width(&self) -> (r: usize)
        ensures
            r == self.spec_width(),
    {
        self.width
    }

    /// The texture's height in pixels.
    pub fn height(&self) -> (r: usize)
        ensures
            r == self.spec_height(),
    {
        self.height
    }

    /// The RGBA bytes of the pixel in column `i` of row `j`.
    pub fn pixel(&self, i: usize, j: usize) -> (r: (u8, u8, u8, u8))
        requires
            i < self.spec_width(),
            j < self.spec_height(),
        ensures
            r == self.spec_pixel(i as int, j as int),
    {
        let len = self.pixels.len();
        proof {
            use_type_invariant(self);
            assert(j * self.width <= usize::MAX && (j * self.width + i) * 4 + 4 <= self.width
                * self.height * 4) by (nonlinear_arith)
                requires
                    i < self.width,
                    j < self.height,
                    self.width * self.height * 4 <= usize::MAX,
            ;
        }
        let k = (j * self.width + i) * 4;
        (self.pixels[k], self.pixels[k + 1], self.pixels[k + 2], self.pixels[k + 3])
    }
}

} // verus!
