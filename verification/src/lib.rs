//! Overlay a stylized pride-flag pattern — horizontal color bands, optionally
//! reshaped into a ring — onto a raster image, with configurable transparency.
//!
//! The pipeline renders a palette into a buffer of bands sized to the base
//! image, optionally clips it to a ring, and alpha-blends it onto the base
//! image in place. Image decoding and encoding stay outside: callers hand in
//! an already-decoded [`PixelBuffer`] and take one back.

use vstd::prelude::*;

mod bands;
mod blend;
mod error;
mod flags;
mod opacity;
mod pixel;
mod ring;

pub use bands::{band_of, band_pixel, bands_pixels, lemma_band_of_in_range, lemma_bands_partition,
    render_bands, row_in_band, seg_size};
pub use blend::{blend_alpha, blend_channel, blend_pixel, blend_pixel_spec, blend_pixels,
    composite, lemma_blend_opaque_source_replaces, lemma_blend_transparent_source_identity,
    lemma_composite_opaque_replaces, lemma_composite_transparent_identity};
pub use error::Error;
pub use flags::{flag_colors, Flags};
pub use opacity::Opacity;
pub use pixel::{flat_index, Pixel, PixelBuffer};
pub use ring::{dist_sq, ring_keeps, ring_mask, ring_pixels, thickness_px};

verus! {

/// Optional reshaping of the rendered flag before compositing.
#[derive(Clone, Copy, Debug, PartialEq, Eq, Structural)]
pub enum ShapeMask {
    /// Keep the full rectangular flag.
    Plain,
    /// Keep only a ring; the payload is the optional ring thickness.
    Ring(Option<u8>),
}

/// The alpha an optional opacity resolves to: 127 (about half) when the
/// caller leaves it unspecified.
pub open spec fn resolved_alpha(opacity: Option<Opacity>) -> u8 {
    match opacity {
        Some(o) => o.0,
        None => 127,
    }
}

/// The flag buffer that `draw` composites: the rendered bands, reshaped by
/// the mask.
pub open spec fn flag_pixels(
    w: int,
    h: int,
    palette: Seq<(u8, u8, u8)>,
    alpha: u8,
    mask: ShapeMask,
) -> Seq<Pixel> {
    match mask {
        ShapeMask::Plain => bands_pixels(w, h, palette, alpha),
        ShapeMask::Ring(t) => ring_pixels(bands_pixels(w, h, palette, alpha), w, h, t),
    }
}

/// Render the palette as horizontal bands sized to `image`, reshape the
/// result by `mask`, and alpha-blend it onto `image` in place. An empty
/// palette is rejected before anything is rendered, leaving the image
/// untouched.
pub fn draw(
    image: &mut PixelBuffer,
    flag: &Vec<(u8, u8, u8)>,
    opacity: Option<Opacity>,
    mask: ShapeMask,
) -> (r: Result<(), Error>)
    requires
        old(image).wf(),
    ensures
        final(image).wf(),
        final(image).spec_width() == old(image).spec_width(),
        final(image).spec_height() == old(image).spec_height(),
        flag@.len() == 0 ==> r == Err::<(), Error>(Error::EmptyPalette) && *final(image) == *old(
            image,
        ),
        flag@.len() >= 1 ==> r == Ok::<(), Error>(()) && final(image).pixels() == blend_pixels(
            old(image).pixels(),
            flag_pixels(
                old(image).spec_width() as int,
                old(image).spec_height() as int,
                flag@,
                resolved_alpha(opacity),
                mask,
            ),
        ),
{
    let width = image.width();
    let height = image.height();
    let alpha = match opacity {
        Some(o) => o,
        None => Opacity(127),
    };
    let mut flag_buf = match render_bands(width, height, flag, alpha) {
        Ok(b) => b,
        Err(e) => {
            return Err(e);
        },
    };
    match mask {
        ShapeMask::Plain => {},
        ShapeMask::Ring(t) => {
            ring_mask(&mut flag_buf, t);
        },
    }
    composite(image, &flag_buf)
}

/// Overlay a pride flag over an image
pub fn overlay(
    image: &mut PixelBuffer,
    flag: &Vec<(u8, u8, u8)>,
    opacity: Option<Opacity>,
) -> (r: Result<(), Error>)
    requires
        old(image).wf(),
    ensures
        final(image).wf(),
        final(image).spec_width() == old(image).spec_width(),
        final(image).spec_height() == old(image).spec_height(),
        flag@.len() == 0 ==> r == Err::<(), Error>(Error::EmptyPalette) && *final(image) == *old(
            image,
        ),
        flag@.len() >= 1 ==> r == Ok::<(), Error>(()) && final(image).pixels() == blend_pixels(
            old(image).pixels(),
            bands_pixels(
                old(image).spec_width() as int,
                old(image).spec_height() as int,
                flag@,
                resolved_alpha(opacity),
            ),
        ),
{
    draw(image, flag, opacity, ShapeMask::Plain)
}

/// Overlay a pride flag ring over an image
pub fn circle(
    image: &mut PixelBuffer,
    flag: &Vec<(u8, u8, u8)>,
    thickness: Option<u8>,
) -> (r: Result<(), Error>)
    requires
        old(image).wf(),
    ensures
        final(image).wf(),
        final(image).spec_width() == old(image).spec_width(),
        final(image).spec_height() == old(image).spec_height(),
        flag@.len() == 0 ==> r == Err::<(), Error>(Error::EmptyPalette) && *final(image) == *old(
            image,
        ),
        flag@.len() >= 1 ==> r == Ok::<(), Error>(()) && final(image).pixels() == blend_pixels(
            old(image).pixels(),
            ring_pixels(
                bands_pixels(
                    old(image).spec_width() as int,
                    old(image).spec_height() as int,
                    flag@,
                    255,
                ),
                old(image).spec_width() as int,
                old(image).spec_height() as int,
                thickness,
            ),
        ),
{
    draw(image, flag, Some(Opacity(255)), ShapeMask::Ring(thickness))
}


} // verus!
