use vstd::prelude::*;

use crate::pixel::{flat_index, lemma_flat_index_bounds, lemma_flat_index_div_mod, Pixel,
    PixelBuffer};

verus! {

/// Width in pixels of the ring: eight times the thickness argument clamped
/// to at most 10, or a default of 24 when none is supplied.
pub open spec fn thickness_px(thickness: Option<u8>) -> int {
    match thickness {
        Some(t) => (if t > 10 {
            10 as int
        } else {
            t as int
        }) * 8,
        None => 24,
    }
}

/// Squared distance of pixel `(x, y)` from the center of a `w` by `h` grid.
pub open spec fn dist_sq(w: int, h: int, x: int, y: int) -> int {
    let dx = x - w / 2;
    let dy = y - h / 2;
    dx * dx + dy * dy
}

/// The ring mask keeps a pixel when its distance from the center is neither
/// beyond the outer radius (half the width) nor within the inner cutout
/// radius (the outer radius less the ring width), both compared as squares.
/// A ring wider than the outer radius makes the signed inner radius
/// negative, so its square carves a disk out of the center.
pub open spec fn ring_keeps(w: int, h: int, x: int, y: int, thickness: Option<u8>) -> bool {
    let outer = w / 2;
    let inner = outer - thickness_px(thickness);
    inner * inner <= dist_sq(w, h, x, y) <= outer * outer
}

/// The ring-masked image: pixels the ring keeps are unchanged, all others
/// are cleared to transparent black.
pub open spec fn ring_pixels(px: Seq<Pixel>, w: int, h: int, thickness: Option<u8>) -> Seq<
    Pixel,
> {
    Seq::new(
        px.len(),
        |i: int|
            if ring_keeps(w, h, i % w, i / w, thickness) {
                px[i]
            } else {
                Pixel::spec_clear()
            },
    )
}

/// A value bounded in magnitude has a bounded square.
proof fn lemma_square_bound(v: int, m: int)
    by (nonlinear_arith)
    requires
        -m <= v <= m,
        0 <= m,
    ensures
        0 <= v * v <= m * m,
{
}

/// Clip the buffer to an annulus centered in it: clear every pixel outside
/// the ring to transparent black, leaving the ring's pixels as they were.
pub fn ring_mask(buf: &mut PixelBuffer, thickness: Option<u8>)
    requires
        old(buf).wf(),
    ensures
        final(buf).wf(),
        final(buf).spec_width() == old(buf).spec_width(),
        final(buf).spec_height() == old(buf).spec_height(),
        final(buf).pixels() == ring_pixels(
            old(buf).pixels(),
            old(buf).spec_width() as int,
            old(buf).spec_height() as int,
            thickness,
        ),
{
    let width = buf.width();
    let height = buf.height();
    let ghost w = width as int;
    let ghost h = height as int;
    let ghost orig = old(buf).pixels();
    let ghost expected = ring_pixels(orig, w, h, thickness);

    let t_px: u32 = match thickness {
        Some(t) => (if t > 10 {
            10u32
        } else {
            t as u32
        }) * 8,
        None => 24,
    };
    let half_w: u32 = width / 2;
    let half_h: u32 = height / 2;
    let outer: i128 = half_w as i128;
    let inner: i128 = outer - t_px as i128;
    proof {
        lemma_square_bound(outer as int, 0x8000_0000);
        lemma_square_bound(inner as int, 0x8000_0000);
    }
    let outer_sq: i128 = outer * outer;
    let inner_sq: i128 = inner * inner;

    let mut y: u32 = 0;
    while y < height
        invariant
            buf.wf(),
            buf.spec_width() == width,
            buf.spec_height() == height,
            y <= height,
            w == width as int,
            h == height as int,
            orig.len() == w * h,
            expected == ring_pixels(orig, w, h, thickness),
            half_w == width / 2,
            half_h == height / 2,
            outer == w / 2,
            inner == w / 2 - thickness_px(thickness),
            outer_sq == outer * outer,
            inner_sq == inner * inner,
            forall|i: int| 0 <= i < y * w ==> buf.pixels()[i] == expected[i],
            forall|i: int| y * w <= i < w * h ==> buf.pixels()[i] == orig[i],
        decreases height - y,
    {
        let mut x: u32 = 0;
        while x < width
            invariant
                buf.wf(),
                buf.spec_width() == width,
                buf.spec_height() == height,
                x <= width,
                y < height,
                w == width as int,
                h == height as int,
                orig.len() == w * h,
                expected == ring_pixels(orig, w, h, thickness),
                half_w == width / 2,
                half_h == height / 2,
                outer == w / 2,
                inner == w / 2 - thickness_px(thickness),
                outer_sq == outer * outer,
                inner_sq == inner * inner,
                forall|i: int| 0 <= i < y * w + x ==> buf.pixels()[i] == expected[i],
                forall|i: int| y * w + x <= i < w * h ==> buf.pixels()[i] == orig[i],
            decreases width - x,
        {
            let dx: i128 = x as i128 - half_w as i128;
            let dy: i128 = y as i128 - half_h as i128;
            proof {
                lemma_square_bound(dx as int, 0x1_0000_0000);
                lemma_square_bound(dy as int, 0x1_0000_0000);
            }
            let d2: i128 = dx * dx + dy * dy;
            let keep: bool = inner_sq <= d2 && d2 <= outer_sq;
            proof {
                lemma_flat_index_bounds(w, h, x as int, y as int);
                lemma_flat_index_div_mod(w, x as int, y as int);
                assert(keep == ring_keeps(w, h, x as int, y as int, thickness));
            }
            if !keep {
                buf.set_pixel(x, y, Pixel::clear());
            }
            x += 1;
        }
        proof {
            assert((y + 1) * w == y * w + w) by (nonlinear_arith);
        }
        y += 1;
    }
    proof {
        assert(h * w == w * h) by (nonlinear_arith);
        assert(buf.pixels() =~= expected);
    }
}

} // verus!
