use vstd::arithmetic::div_mod::{lemma_div_pos_is_pos, lemma_fundamental_div_mod,
    lemma_mod_division_less_than_divisor, lemma_multiply_divide_lt};
use vstd::arithmetic::mul::lemma_mul_is_commutative;
use vstd::prelude::*;

use crate::error::Error;
use crate::opacity::Opacity;
use crate::pixel::{flat_index, lemma_flat_index_bounds, lemma_flat_index_div_mod, Pixel,
    PixelBuffer};

verus! {

/// Height of one band: the ceiling of `height / bands`.
pub open spec fn seg_size(height: int, bands: int) -> int {
    (height + bands - 1) / bands
}

/// Index of the band that row `y` falls in, for bands of height `seg`.
pub open spec fn band_of(y: int, seg: int) -> int {
    y / seg
}

/// The pixel drawn in row `y`: the palette color of the band that the row
/// falls in, carrying the given alpha.
pub open spec fn band_pixel(palette: Seq<(u8, u8, u8)>, alpha: u8, seg: int, y: int) -> Pixel {
    let c = palette[band_of(y, seg)];
    Pixel { r: c.0, g: c.1, b: c.2, a: alpha }
}

/// The rendered flag, as a row-major pixel sequence: every pixel of row `y`
/// is `band_pixel` of `y`.
pub open spec fn bands_pixels(w: int, h: int, palette: Seq<(u8, u8, u8)>, alpha: u8) -> Seq<
    Pixel,
> {
    Seq::new(
        (w * h) as nat,
        |i: int| band_pixel(palette, alpha, seg_size(h, palette.len() as int), i / w),
    )
}

/// The band height is at least 1 for a non-empty image, at most the image
/// height, and `bands` bands of that height cover every row.
proof fn lemma_seg_size_bounds(height: int, bands: int)
    by (nonlinear_arith)
    requires
        1 <= bands,
        0 <= height,
    ensures
        0 <= seg_size(height, bands) <= height,
        bands * seg_size(height, bands) >= height,
        1 <= height ==> 1 <= seg_size(height, bands),
{
}

/// Every row of the image falls in a band whose index is within the palette.
pub proof fn lemma_band_of_in_range(height: int, bands: int, y: int)
    requires
        1 <= bands,
        0 <= y < height,
    ensures
        1 <= seg_size(height, bands) <= height,
        0 <= band_of(y, seg_size(height, bands)) < bands,
{
    let seg = seg_size(height, bands);
    lemma_seg_size_bounds(height, bands);
    lemma_div_pos_is_pos(y, seg);
    lemma_mul_is_commutative(bands, seg);
    lemma_multiply_divide_lt(y, seg, bands);
}

/// Row `y` lies in the row range of band `i`: `[i * seg, (i + 1) * seg)`
/// clipped to the image rows `[0, height)`.
pub open spec fn row_in_band(y: int, i: int, seg: int, height: int) -> bool {
    i * seg <= y < (i + 1) * seg && 0 <= y < height
}

/// Band rendering partitions the rows `[0, height)` into `bands` contiguous
/// groups, the last group possibly clipped short: every row lies in the row
/// range of the band `band_of` assigns it — an index within the palette —
/// and in no other band's row range.
pub proof fn lemma_bands_partition(height: int, bands: int, y: int)
    requires
        1 <= bands,
        0 <= y < height,
    ensures
        1 <= seg_size(height, bands),
        0 <= band_of(y, seg_size(height, bands)) < bands,
        row_in_band(y, band_of(y, seg_size(height, bands)), seg_size(height, bands), height),
        forall|i: int|
            0 <= i < bands && i != band_of(y, seg_size(height, bands)) ==> !row_in_band(
                y,
                i,
                seg_size(height, bands),
                height,
            ),
{
    let seg = seg_size(height, bands);
    let b = band_of(y, seg);
    lemma_band_of_in_range(height, bands, y);
    lemma_fundamental_div_mod(y, seg);
    lemma_mod_division_less_than_divisor(y, seg);
    assert(b * seg == seg * b) by (nonlinear_arith);
    assert((b + 1) * seg == seg * b + seg) by (nonlinear_arith);
    assert(b * seg <= y < (b + 1) * seg);
    assert forall|i: int| 0 <= i < bands && i != b implies !row_in_band(y, i, seg, height) by {
        if i < b {
            assert((i + 1) * seg <= b * seg) by (nonlinear_arith)
                requires
                    i + 1 <= b,
                    1 <= seg,
            ;
        } else {
            assert((b + 1) * seg <= i * seg) by (nonlinear_arith)
                requires
                    b + 1 <= i,
                    1 <= seg,
            ;
        }
    }
}

/// Rasterize a palette into a `width` by `height` buffer of horizontal
/// bands, every pixel carrying the alpha of `opacity`. An empty palette is
/// rejected before anything is rendered.
pub fn render_bands(
    width: u32,
    height: u32,
    palette: &Vec<(u8, u8, u8)>,
    opacity: Opacity,
) -> (r: Result<PixelBuffer, Error>)
    requires
        width * height <= usize::MAX,
    ensures
        palette@.len() == 0 ==> r == Err::<PixelBuffer, Error>(Error::EmptyPalette),
        palette@.len() >= 1 ==> (r matches Ok(b) && b.wf() && b.spec_width() == width
            && b.spec_height() == height && b.pixels() == bands_pixels(
            width as int,
            height as int,
            palette@,
            opacity.0,
        )),
{
    if palette.len() == 0 {
        return Err(Error::EmptyPalette);
    }
    let count: usize = palette.len();
    let seg_wide: u128 = (height as u128 + count as u128 - 1) / (count as u128);
    proof {
        lemma_seg_size_bounds(height as int, count as int);
    }
    let seg: u32 = seg_wide as u32;

    let ghost w = width as int;
    let ghost h = height as int;
    let ghost expected = bands_pixels(w, h, palette@, opacity.0);

    let mut buf = PixelBuffer::new(width, height);
    let mut y: u32 = 0;
    while y < height
        invariant
            buf.wf(),
            buf.spec_width() == width,
            buf.spec_height() == height,
            y <= height,
            w == width as int,
            h == height as int,
            count == palette@.len(),
            1 <= count,
            width * height <= usize::MAX,
            seg == seg_size(h, count as int),
            expected == bands_pixels(w, h, palette@, opacity.0),
            forall|i: int| 0 <= i < y * w ==> buf.pixels()[i] == expected[i],
        decreases height - y,
    {
        proof {
            lemma_band_of_in_range(h, count as int, y as int);
        }
        let band: usize = (y / seg) as usize;
        let c: (u8, u8, u8) = palette[band];
        let px = Pixel { r: c.0, g: c.1, b: c.2, a: opacity.0 };
        assert(px == band_pixel(palette@, opacity.0, seg as int, y as int));

        let mut x: u32 = 0;
        while x < width
            invariant
                buf.wf(),
                buf.spec_width() == width,
                buf.spec_height() == height,
                x <= width,
                y < height,
                w == width as int,
                h == height as int,
                count == palette@.len(),
                1 <= count,
                seg == seg_size(h, count as int),
                expected == bands_pixels(w, h, palette@, opacity.0),
                px == band_pixel(palette@, opacity.0, seg as int, y as int),
                forall|i: int| 0 <= i < y * w + x ==> buf.pixels()[i] == expected[i],
            decreases width - x,
        {
            proof {
                lemma_flat_index_bounds(w, h, x as int, y as int);
                lemma_flat_index_div_mod(w, x as int, y as int);
                assert(expected[flat_index(w, x as int, y as int)] == px);
            }
            buf.set_pixel(x, y, px);
            x += 1;
        }
        proof {
            assert((y + 1) * w == y * w + w) by (nonlinear_arith);
        }
        y += 1;
    }
    proof {
        assert(h * w == w * h) by (nonlinear_arith);
        assert(buf.pixels() =~= expected);
    }
    Ok(buf)
}

} // verus!
