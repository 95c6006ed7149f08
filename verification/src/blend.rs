use vstd::arithmetic::div_mod::lemma_div_multiples_vanish;
use vstd::prelude::*;

use crate::error::Error;
use crate::pixel::{flat_index, lemma_flat_index_bounds, Pixel, PixelBuffer};

verus! {

/// One color channel of the "over" operator with byte alpha: the source
/// weighted by `a`, the destination by `255 - a`, scaled back to a byte.
pub open spec fn blend_channel(dst: u8, src: u8, a: u8) -> u8 {
    ((src * a + dst * (255 - a)) / 255) as u8
}

/// The alpha of the "over" operator: the source alpha, plus the destination
/// alpha weighted by what the source lets through.
pub open spec fn blend_alpha(dst: u8, src: u8) -> u8 {
    (src + dst * (255 - src) / 255) as u8
}

/// Standard "over" alpha compositing of a source pixel onto a destination
/// pixel, channel by channel.
pub open spec fn blend_pixel_spec(dst: Pixel, src: Pixel) -> Pixel {
    Pixel {
        r: blend_channel(dst.r, src.r, src.a),
        g: blend_channel(dst.g, src.g, src.a),
        b: blend_channel(dst.b, src.b, src.a),
        a: blend_alpha(dst.a, src.a),
    }
}

/// Pointwise blend of a source sequence over a destination sequence of the
/// same length.
pub open spec fn blend_pixels(dst: Seq<Pixel>, src: Seq<Pixel>) -> Seq<Pixel> {
    Seq::new(dst.len(), |i: int| blend_pixel_spec(dst[i], src[i]))
}

/// The weighted channel sum stays within a byte after scaling.
proof fn lemma_blend_channel_bounds(dst: int, src: int, a: int)
    by (nonlinear_arith)
    requires
        0 <= dst <= 255,
        0 <= src <= 255,
        0 <= a <= 255,
    ensures
        0 <= src * a + dst * (255 - a) <= 255 * 255,
        0 <= (src * a + dst * (255 - a)) / 255 <= 255,
{
}

/// The blended alpha stays within a byte.
proof fn lemma_blend_alpha_bounds(dst: int, src: int)
    by (nonlinear_arith)
    requires
        0 <= dst <= 255,
        0 <= src <= 255,
    ensures
        0 <= dst * (255 - src) <= 255 * 255,
        0 <= src + dst * (255 - src) / 255 <= 255,
{
}

/// Blend one source pixel over one destination pixel.
pub fn blend_pixel(dst: Pixel, src: Pixel) -> (r: Pixel)
    ensures
        r == blend_pixel_spec(dst, src),
{
    proof {
        lemma_blend_channel_bounds(dst.r as int, src.r as int, src.a as int);
        lemma_blend_channel_bounds(dst.g as int, src.g as int, src.a as int);
        lemma_blend_channel_bounds(dst.b as int, src.b as int, src.a as int);
        lemma_blend_alpha_bounds(dst.a as int, src.a as int);
    }
    let a: u32 = src.a as u32;
    let na: u32 = 255 - a;
    Pixel {
        r: ((src.r as u32 * a + dst.r as u32 * na) / 255) as u8,
        g: ((src.g as u32 * a + dst.g as u32 * na) / 255) as u8,
        b: ((src.b as u32 * a + dst.b as u32 * na) / 255) as u8,
        a: (a + dst.a as u32 * na / 255) as u8,
    }
}

/// A source pixel with alpha 0 leaves the destination pixel unchanged.
pub proof fn lemma_blend_transparent_source_identity(dst: Pixel, src: Pixel)
    requires
        src.a == 0,
    ensures
        blend_pixel_spec(dst, src) == dst,
{
    lemma_div_multiples_vanish(dst.r as int, 255);
    lemma_div_multiples_vanish(dst.g as int, 255);
    lemma_div_multiples_vanish(dst.b as int, 255);
    lemma_div_multiples_vanish(dst.a as int, 255);
}

/// A source pixel with alpha 255 replaces the destination's color channels
/// and leaves the result fully opaque.
pub proof fn lemma_blend_opaque_source_replaces(dst: Pixel, src: Pixel)
    requires
        src.a == 255,
    ensures
        blend_pixel_spec(dst, src) == (Pixel { r: src.r, g: src.g, b: src.b, a: 255 }),
{
    lemma_div_multiples_vanish(src.r as int, 255);
    lemma_div_multiples_vanish(src.g as int, 255);
    lemma_div_multiples_vanish(src.b as int, 255);
    lemma_div_multiples_vanish(0, 255);
}

/// Idempotence of blending at opacity 0: compositing a fully transparent
/// flag buffer onto a base leaves the base pixel-for-pixel unchanged.
pub proof fn lemma_composite_transparent_identity(dst: Seq<Pixel>, src: Seq<Pixel>)
    requires
        src.len() == dst.len(),
        forall|i: int| 0 <= i < src.len() ==> src[i].a == 0,
    ensures
        blend_pixels(dst, src) == dst,
{
    assert forall|i: int| 0 <= i < dst.len() implies blend_pixels(dst, src)[i] == dst[i] by {
        lemma_blend_transparent_source_identity(dst[i], src[i]);
    }
    assert(blend_pixels(dst, src) =~= dst);
}

/// Full replacement at opacity 255: compositing an everywhere-opaque flag
/// buffer onto an everywhere-opaque base replaces every pixel with the
/// flag's, alpha included.
pub proof fn lemma_composite_opaque_replaces(dst: Seq<Pixel>, src: Seq<Pixel>)
    requires
        src.len() == dst.len(),
        forall|i: int| 0 <= i < src.len() ==> src[i].a == 255,
        forall|i: int| 0 <= i < dst.len() ==> dst[i].a == 255,
    ensures
        blend_pixels(dst, src) == src,
{
    assert forall|i: int| 0 <= i < dst.len() implies blend_pixels(dst, src)[i] == src[i] by {
        lemma_blend_opaque_source_replaces(dst[i], src[i]);
    }
    assert(blend_pixels(dst, src) =~= src);
}

/// Alpha-blend `flag` onto `base`, pixel by pixel, in place. The buffers
/// must share dimensions; on a mismatch the base is left untouched.
pub fn composite(base: &mut PixelBuffer, flag: &PixelBuffer) -> (r: Result<(), Error>)
    requires
        old(base).wf(),
        flag.wf(),
    ensures
        final(base).wf(),
        final(base).spec_width() == old(base).spec_width(),
        final(base).spec_height() == old(base).spec_height(),
        (old(base).spec_width() == flag.spec_width() && old(base).spec_height()
            == flag.spec_height()) ==> (r == Ok::<(), Error>(()) && final(base).pixels()
            == blend_pixels(old(base).pixels(), flag.pixels())),
        (old(base).spec_width() != flag.spec_width() || old(base).spec_height()
            != flag.spec_height()) ==> (r == Err::<(), Error>(Error::DimensionMismatch)
            && *final(base) == *old(base)),
{
    if base.width() != flag.width() || base.height() != flag.height() {
        return Err(Error::DimensionMismatch);
    }
    let width = base.width();
    let height = base.height();
    let ghost w = width as int;
    let ghost h = height as int;
    let ghost orig = old(base).pixels();
    let ghost expected = blend_pixels(old(base).pixels(), flag.pixels());

    let mut y: u32 = 0;
    while y < height
        invariant
            base.wf(),
            flag.wf(),
            base.spec_width() == width,
            base.spec_height() == height,
            flag.spec_width() == width,
            flag.spec_height() == height,
            y <= height,
            w == width as int,
            h == height as int,
            orig.len() == w * h,
            expected == blend_pixels(orig, flag.pixels()),
            forall|i: int| 0 <= i < y * w ==> base.pixels()[i] == expected[i],
            forall|i: int| y * w <= i < w * h ==> base.pixels()[i] == orig[i],
        decreases height - y,
    {
        let mut x: u32 = 0;
        while x < width
            invariant
                base.wf(),
                flag.wf(),
                base.spec_width() == width,
                base.spec_height() == height,
                flag.spec_width() == width,
                flag.spec_height() == height,
                x <= width,
                y < height,
                w == width as int,
                h == height as int,
                orig.len() == w * h,
                expected == blend_pixels(orig, flag.pixels()),
                forall|i: int| 0 <= i < y * w + x ==> base.pixels()[i] == expected[i],
                forall|i: int| y * w + x <= i < w * h ==> base.pixels()[i] == orig[i],
            decreases width - x,
        {
            proof {
                lemma_flat_index_bounds(w, h, x as int, y as int);
            }
            let d = base.get_pixel(x, y);
            let s = flag.get_pixel(x, y);
            let p = blend_pixel(d, s);
            proof {
                assert(d == orig[flat_index(w, x as int, y as int)]);
                assert(expected[flat_index(w, x as int, y as int)] == p);
            }
            base.set_pixel(x, y, p);
            x += 1;
        }
        proof {
            assert((y + 1) * w == y * w + w) by (nonlinear_arith);
        }
        y += 1;
    }
    proof {
        assert(h * w == w * h) by (nonlinear_arith);
        assert(base.pixels() =~= expected);
    }
    Ok(())
}

} // verus!
