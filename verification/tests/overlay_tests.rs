use pride_overlay::{circle, composite, overlay, Error, Flags, Opacity, Pixel, PixelBuffer};

fn px(r: u8, g: u8, b: u8, a: u8) -> Pixel {
    Pixel { r, g, b, a }
}

fn solid(width: u32, height: u32, p: Pixel) -> PixelBuffer {
    let n = (width as usize) * (height as usize);
    PixelBuffer::from_pixels(width, height, vec![p; n]).unwrap()
}

#[test]
fn opacity_new_keeps_byte() {
    assert_eq!(Opacity::new(0).0, 0);
    assert_eq!(Opacity::new(127).0, 127);
    assert_eq!(Opacity::new(255).0, 255);
}

#[test]
fn opacity_from_percentage_floors() {
    assert_eq!(Opacity::from_percentage(0).unwrap().0, 0);
    assert_eq!(Opacity::from_percentage(1).unwrap().0, 2);
    assert_eq!(Opacity::from_percentage(25).unwrap().0, 63);
    assert_eq!(Opacity::from_percentage(50).unwrap().0, 127);
    assert_eq!(Opacity::from_percentage(100).unwrap().0, 255);
}

#[test]
fn opacity_from_percentage_rejects_out_of_range() {
    assert_eq!(Opacity::from_percentage(101), Err(Error::InvalidOpacity));
    assert_eq!(Opacity::from_percentage(255), Err(Error::InvalidOpacity));
}

#[test]
fn bands_partition_rows_with_short_last_band() {
    // Height 4 split over 3 colors: band height ceil(4/3) = 2, so rows 0-1
    // take the first color, rows 2-3 the second, and the third is clipped
    // away entirely; every row is covered exactly once.
    let mut img = solid(1, 4, px(0, 0, 0, 255));
    let pal = vec![(10u8, 0u8, 0u8), (0u8, 20u8, 0u8), (0u8, 0u8, 30u8)];
    overlay(&mut img, &pal, Some(Opacity::new(255))).unwrap();
    assert_eq!(img.get_pixel(0, 0), px(10, 0, 0, 255));
    assert_eq!(img.get_pixel(0, 1), px(10, 0, 0, 255));
    assert_eq!(img.get_pixel(0, 2), px(0, 20, 0, 255));
    assert_eq!(img.get_pixel(0, 3), px(0, 20, 0, 255));
}

#[test]
fn transparent_flag_leaves_base_unchanged() {
    let mut img = PixelBuffer::from_pixels(
        2,
        2,
        vec![px(1, 2, 3, 4), px(5, 6, 7, 8), px(9, 10, 11, 12), px(13, 14, 15, 16)],
    )
    .unwrap();
    let pal = vec![(200u8, 200u8, 200u8)];
    overlay(&mut img, &pal, Some(Opacity::new(0))).unwrap();
    assert_eq!(img.get_pixel(0, 0), px(1, 2, 3, 4));
    assert_eq!(img.get_pixel(1, 0), px(5, 6, 7, 8));
    assert_eq!(img.get_pixel(0, 1), px(9, 10, 11, 12));
    assert_eq!(img.get_pixel(1, 1), px(13, 14, 15, 16));
}

#[test]
fn opaque_flag_replaces_opaque_base() {
    let mut img = solid(3, 2, px(40, 50, 60, 255));
    let pal = vec![(210u8, 220u8, 230u8)];
    overlay(&mut img, &pal, Some(Opacity::new(255))).unwrap();
    for y in 0..2 {
        for x in 0..3 {
            assert_eq!(img.get_pixel(x, y), px(210, 220, 230, 255));
        }
    }
}

#[test]
fn end_to_end_three_bands_at_full_opacity() {
    // 10 x 6 base, three bands, opacity 255: rows 0-1 red, 2-3 green,
    // 4-5 blue, nothing transparent.
    let mut img = solid(10, 6, px(17, 34, 51, 255));
    let pal = vec![(255u8, 0u8, 0u8), (0u8, 255u8, 0u8), (0u8, 0u8, 255u8)];
    overlay(&mut img, &pal, Some(Opacity::new(255))).unwrap();
    for y in 0..6u32 {
        let want = match y / 2 {
            0 => px(255, 0, 0, 255),
            1 => px(0, 255, 0, 255),
            _ => px(0, 0, 255, 255),
        };
        for x in 0..10u32 {
            assert_eq!(img.get_pixel(x, y), want, "row {}", y);
        }
    }
}

#[test]
fn default_opacity_is_half() {
    // Opacity left unspecified resolves to 127: white over black gives
    // (255 * 127 + 0 * 128) / 255 = 127 in each channel.
    let mut img = solid(1, 1, px(0, 0, 0, 255));
    let pal = vec![(255u8, 255u8, 255u8)];
    overlay(&mut img, &pal, None).unwrap();
    assert_eq!(img.get_pixel(0, 0), px(127, 127, 127, 255));
}

#[test]
fn blend_formula_exact_values() {
    let out = pride_overlay::blend_pixel(px(100, 150, 200, 255), px(50, 60, 70, 128));
    // channel = (src * 128 + dst * 127) / 255, truncated
    assert_eq!(out, px(74, 104, 134, 255));
}

#[test]
fn empty_palette_rejected_and_base_untouched() {
    let mut img = solid(4, 3, px(9, 8, 7, 6));
    let pal: Vec<(u8, u8, u8)> = Vec::new();
    assert_eq!(overlay(&mut img, &pal, None), Err(Error::EmptyPalette));
    assert_eq!(circle(&mut img, &pal, Some(3)), Err(Error::EmptyPalette));
    for y in 0..3 {
        for x in 0..4 {
            assert_eq!(img.get_pixel(x, y), px(9, 8, 7, 6));
        }
    }
}

#[test]
fn composite_rejects_mismatched_dimensions() {
    let mut base = solid(2, 2, px(1, 1, 1, 255));
    let flag = solid(3, 2, px(2, 2, 2, 255));
    assert_eq!(composite(&mut base, &flag), Err(Error::DimensionMismatch));
    assert_eq!(base.get_pixel(0, 0), px(1, 1, 1, 255));
}

#[test]
fn ring_mask_keeps_ring_and_clears_center() {
    // 100 x 100, thickness 10 -> ring width 80 pixels: the outer radius is
    // 50 and the signed inner radius 50 - 80 = -30, so its square carves a
    // disk of radius 30 out of the center. The exact center goes
    // transparent; a pixel at distance 49 keeps its band color.
    let mut buf =
        pride_overlay::render_bands(100, 100, &vec![(7u8, 8u8, 9u8)], Opacity::new(255)).unwrap();
    pride_overlay::ring_mask(&mut buf, Some(10));
    assert_eq!(buf.get_pixel(50, 50), px(0, 0, 0, 0));
    assert_eq!(buf.get_pixel(99, 50), px(7, 8, 9, 255));
    // Just inside the carved disk and just outside the outer radius are
    // transparent too: (50 + 29, 50) is at distance 29 < 30.
    assert_eq!(buf.get_pixel(79, 50), px(0, 0, 0, 0));
}

#[test]
fn ring_thickness_clamps_at_ten() {
    // Thickness 200 clamps to 10, so the result equals thickness 10.
    let pal = vec![(1u8, 2u8, 3u8)];
    let mut a =
        pride_overlay::render_bands(40, 40, &pal, Opacity::new(255)).unwrap();
    let mut b =
        pride_overlay::render_bands(40, 40, &pal, Opacity::new(255)).unwrap();
    pride_overlay::ring_mask(&mut a, Some(200));
    pride_overlay::ring_mask(&mut b, Some(10));
    for y in 0..40 {
        for x in 0..40 {
            assert_eq!(a.get_pixel(x, y), b.get_pixel(x, y));
        }
    }
}

#[test]
fn circle_draws_full_opacity_ring() {
    // 40 x 40, thickness 1 -> ring width 8: outer radius 20, inner 12.
    // (39, 20) is at distance 19 from the center (20, 20): on the ring.
    // (20, 20) is at distance 0: inside the cutout, base shows through.
    let mut img = solid(40, 40, px(100, 100, 100, 255));
    let pal = vec![(250u8, 240u8, 230u8)];
    circle(&mut img, &pal, Some(1)).unwrap();
    assert_eq!(img.get_pixel(39, 20), px(250, 240, 230, 255));
    assert_eq!(img.get_pixel(20, 20), px(100, 100, 100, 255));
    assert_eq!(img.get_pixel(0, 0), px(100, 100, 100, 255));
}

#[test]
fn circle_default_thickness_on_tiny_image_clears_everything() {
    // With no thickness the ring is 24 pixels wide; on a 10 x 10 image the
    // outer radius is 5, the signed inner radius -19, and 19 * 19 > 5 * 5,
    // so no pixel is kept: the flag buffer is fully transparent and the
    // base shows through unchanged.
    let mut img = solid(10, 10, px(3, 1, 4, 255));
    let pal = vec![(200u8, 100u8, 50u8)];
    circle(&mut img, &pal, None).unwrap();
    for y in 0..10 {
        for x in 0..10 {
            assert_eq!(img.get_pixel(x, y), px(3, 1, 4, 255));
        }
    }
}

#[test]
fn from_pixels_checks_length() {
    assert!(matches!(
        PixelBuffer::from_pixels(2, 2, vec![px(0, 0, 0, 0); 3]),
        Err(Error::DimensionMismatch)
    ));
    let buf = PixelBuffer::from_pixels(2, 2, vec![px(0, 0, 0, 0); 4]).unwrap();
    assert_eq!(buf.width(), 2);
    assert_eq!(buf.height(), 2);
    assert_eq!(buf.pixel_count(), 4);
}

#[test]
fn into_pixels_round_trips() {
    let pixels = vec![px(1, 2, 3, 4), px(5, 6, 7, 8)];
    let buf = PixelBuffer::from_pixels(2, 1, pixels.clone()).unwrap();
    assert_eq!(buf.into_pixels(), pixels);
}

#[test]
fn new_buffer_is_transparent() {
    let buf = PixelBuffer::new(3, 2);
    for y in 0..2 {
        for x in 0..3 {
            assert_eq!(buf.get_pixel(x, y), px(0, 0, 0, 0));
        }
    }
}

#[test]
fn builtin_palettes_match_catalog() {
    let rainbow = Flags::Rainbow.palette();
    assert_eq!(rainbow.len(), 6);
    assert_eq!(rainbow[0], (229, 0, 0));
    assert_eq!(rainbow[5], (119, 0, 136));
    let trans = Flags::Transgender.palette();
    assert_eq!(trans.len(), 5);
    assert_eq!(trans[2], (255, 255, 255));
    assert_eq!(Flags::Bisexual.palette(), vec![(214, 2, 112), (155, 79, 150), (0, 56, 168)]);
    assert_eq!(Flags::Polyamory.palette(), vec![(0, 0, 255), (255, 0, 0), (0, 0, 0)]);
    assert_eq!(Flags::Agender.palette().len(), 7);
}

#[test]
fn draw_with_plain_mask_matches_overlay() {
    let pal = vec![(12u8, 34u8, 56u8), (78u8, 90u8, 12u8)];
    let mut a = solid(5, 4, px(200, 100, 50, 255));
    let mut b = solid(5, 4, px(200, 100, 50, 255));
    pride_overlay::draw(&mut a, &pal, Some(Opacity::new(99)), pride_overlay::ShapeMask::Plain)
        .unwrap();
    overlay(&mut b, &pal, Some(Opacity::new(99))).unwrap();
    for y in 0..4 {
        for x in 0..5 {
            assert_eq!(a.get_pixel(x, y), b.get_pixel(x, y));
        }
    }
}

#[test]
fn empty_image_succeeds_with_nonempty_palette() {
    let mut img = PixelBuffer::new(0, 0);
    let pal = vec![(1u8, 2u8, 3u8)];
    assert_eq!(overlay(&mut img, &pal, None), Ok(()));
    assert_eq!(img.pixel_count(), 0);
}

#[test]
fn overlay_with_builtin_flag() {
    // Pansexual: three bands over six rows, two rows each.
    let mut img = solid(4, 6, px(0, 0, 0, 255));
    let pal = Flags::Pansexual.palette();
    overlay(&mut img, &pal, Some(Opacity::new(255))).unwrap();
    assert_eq!(img.get_pixel(0, 0), px(255, 28, 141, 255));
    assert_eq!(img.get_pixel(3, 2), px(255, 215, 0, 255));
    assert_eq!(img.get_pixel(2, 5), px(26, 179, 255, 255));
}
