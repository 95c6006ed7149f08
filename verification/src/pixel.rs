use vstd::arithmetic::div_mod::lemma_fundamental_div_mod_converse;
use vstd::prelude::*;

use crate::error::Error;

verus! {

/// One RGBA pixel, 8 bits per channel. Alpha 0 is fully transparent, 255
/// fully opaque.
#[derive(Clone, Copy, Debug, PartialEq, Eq, Structural)]
pub struct Pixel {
    pub r: u8,
    pub g: u8,
    pub b: u8,
    pub a: u8,
}

impl Pixel {
    /// Fully transparent black: the value of every pixel a mask clears.
    pub open spec fn spec_clear() -> Pixel {
        Pixel { r: 0, g: 0, b: 0, a: 0 }
    }

    /// Executable counterpart of [`Pixel::spec_clear`].
    pub fn clear() -> (r: Pixel)
        ensures
            r == Pixel::spec_clear(),
    {
        Pixel { r: 0, g: 0, b: 0, a: 0 }
    }
}

/// Row-major flat index of the pixel at column `x`, row `y` of a grid
/// `w` pixels wide.
pub open spec fn flat_index(w: int, x: int, y: int) -> int {
    y * w + x
}

/// Every in-range coordinate pair lands strictly inside a `w` by `h` grid.
pub proof fn lemma_flat_index_bounds(w: int, h: int, x: int, y: int)
    by (nonlinear_arith)
    requires
        0 <= x < w,
        0 <= y < h,
    ensures
        0 <= flat_index(w, x, y) < w * h,
{
}

/// Quotient and remainder of a row-major index by the width recover the row
/// and the column.
pub proof fn lemma_flat_index_div_mod(w: int, x: int, y: int)
    requires
        0 <= x < w,
        0 <= y,
    ensures
        flat_index(w, x, y) / w == y,
        flat_index(w, x, y) % w == x,
{
    lemma_fundamental_div_mod_converse(y * w + x, w, y, x);
}

/// A width by height grid of RGBA pixels, row-major, origin top-left.
pub struct PixelBuffer {
    width: u32,
    height: u32,
    data: Vec<Pixel>,
}

impl PixelBuffer {
    /// Well-formedness: the buffer holds exactly one pixel per grid cell,
    /// and the cell count is addressable.
    pub open spec fn wf(self) -> bool {
        self.pixels().len() == self.spec_width() * self.spec_height()
            && self.spec_width() * self.spec_height() <= usize::MAX
    }

    pub closed spec fn spec_width(self) -> u32 {
        self.width
    }

    pub closed spec fn spec_height(self) -> u32 {
        self.height
    }

    /// The pixels in row-major order.
    pub closed spec fn pixels(self) -> Seq<Pixel> {
        self.data@
    }

    /// The pixel at column `x`, row `y`.
    pub open spec fn pixel_at(self, x: int, y: int) -> Pixel {
        self.pixels()[flat_index(self.spec_width() as int, x, y)]
    }

    pub fn width(&self) -> (r: u32)
        ensures
            r == self.spec_width(),
    {
        self.width
    }

    pub fn height(&self) -> (r: u32)
        ensures
            r == self.spec_height(),
    {
        self.height
    }

    /// A fully transparent buffer of the given dimensions.
    pub fn new(width: u32, height: u32) -> (r: PixelBuffer)
        requires
            width * height <= usize::MAX,
        ensures
            r.wf(),
            r.spec_width() == width,
            r.spec_height() == height,
            forall|i: int| 0 <= i < r.pixels().len() ==> r.pixels()[i] == Pixel::spec_clear(),
    {
        let n: usize = (width as usize) * (height as usize);
        let mut data: Vec<Pixel> = Vec::new();
        while data.len() < n
            invariant
                data@.len() <= n,
                forall|i: int| 0 <= i < data@.len() ==> data@[i] == Pixel::spec_clear(),
            decreases n - data@.len(),
        {
            data.push(Pixel { r: 0, g: 0, b: 0, a: 0 });
        }
        PixelBuffer { width, height, data }
    }

    /// Build a buffer from a row-major pixel vector whose length matches the
    /// dimensions; otherwise report the mismatch.
    pub fn from_pixels(width: u32, height: u32, data: Vec<Pixel>) -> (r: Result<
        PixelBuffer,
        Error,
    >)
        ensures
            data@.len() == width * height ==> (r matches Ok(b) && b.wf()
                && b.spec_width() == width && b.spec_height() == height && b.pixels() == data@),
            data@.len() != width * height ==> r == Err::<PixelBuffer, Error>(
                Error::DimensionMismatch,
            ),
    {
        proof {
            lemma_dims_fit_u64(width, height);
        }
        let need: u64 = (width as u64) * (height as u64);
        if (data.len() as u64) == need {
            Ok(PixelBuffer { width, height, data })
        } else {
            Err(Error::DimensionMismatch)
        }
    }

    /// The number of pixels the buffer holds.
    pub fn pixel_count(&self) -> (r: usize)
        ensures
            r == self.pixels().len(),
    {
        self.data.len()
    }

    /// Hand back the row-major pixel vector.
    pub fn into_pixels(self) -> (r: Vec<Pixel>)
        ensures
            r@ == self.pixels(),
    {
        self.data
    }

    pub fn get_pixel(&self, x: u32, y: u32) -> (r: Pixel)
        requires
            self.wf(),
            x < self.spec_width(),
            y < self.spec_height(),
        ensures
            r == self.pixel_at(x as int, y as int),
    {
        proof {
            lemma_flat_index_bounds(
                self.spec_width() as int,
                self.spec_height() as int,
                x as int,
                y as int,
            );
        }
        let i: usize = (y as usize) * (self.width as usize) + (x as usize);
        self.data[i]
    }

    pub fn set_pixel(&mut self, x: u32, y: u32, p: Pixel)
        requires
            old(self).wf(),
            x < old(self).spec_width(),
            y < old(self).spec_height(),
        ensures
            final(self).wf(),
            final(self).spec_width() == old(self).spec_width(),
            final(self).spec_height() == old(self).spec_height(),
            final(self).pixels() == old(self).pixels().update(
                flat_index(old(self).spec_width() as int, x as int, y as int),
                p,
            ),
    {
        proof {
            lemma_flat_index_bounds(
                self.spec_width() as int,
                self.spec_height() as int,
                x as int,
                y as int,
            );
        }
        let i: usize = (y as usize) * (self.width as usize) + (x as usize);
        self.data[i] = p;
    }
}

/// The product of two `u32` dimensions fits in a `u64`.
proof fn lemma_dims_fit_u64(w: u32, h: u32)
    by (nonlinear_arith)
    ensures
        w * h <= u64::MAX,
{
}

} // verus!
