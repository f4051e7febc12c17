//! What the X11 subject paints into its 32-bit ARGB window: vertical alpha bands, clear
//! on the left to opaque on the right, inside a fully opaque frame.
//!
//! The colours are premultiplied, which is what an X ARGB visual means by alpha: every
//! channel is scaled by the alpha rather than left at full strength. A compositor that
//! reads them as straight alpha washes the ramp out toward the transparent end instead of
//! fading it, so that mistake is visible rather than merely wrong.

use vstd::prelude::*;

verus! {

/// How many alpha bands the ramp has.
pub const BANDS: u16 = 24;

/// One solid rectangle to fill, with the pixel value to fill it with.
#[derive(Clone, Copy, Debug, PartialEq, Eq, Structural)]
pub struct Fill {
    pub x: i16,
    pub y: i16,
    pub w: u16,
    pub h: u16,
    pub pixel: u32,
}

/// Width of one band: a 24th of the window, at least one pixel.
pub open spec fn band_width(width: u16) -> int {
    if width / BANDS < 1 {
        1
    } else {
        (width / BANDS) as int
    }
}

/// Alpha of band `i`: 0 for the first band up to 255 for the last.
pub open spec fn band_alpha(i: int) -> u32 {
    (i * 255 / 23) as u32
}

/// Channel byte `shift / 8` of `colour` scaled by `alpha`, back in its place.
pub open spec fn premul(colour: u32, shift: u32, alpha: u32) -> u32 {
    ((((colour >> shift) & 0xff) * alpha / 255) as u32) << shift
}

/// The premultiplied pixel of band `i` in `colour`.
pub open spec fn band_pixel(colour: u32, i: int) -> u32 {
    let a = band_alpha(i);
    (a << 24u32) | premul(colour, 16, a) | premul(colour, 8, a) | premul(colour, 0, a)
}

/// Band `i`: starting `i` band widths from the left, a band wide but cut at the window's
/// right edge, the full height.
pub open spec fn band_fill(colour: u32, width: u16, height: u16, i: int) -> Fill {
    let x = i * band_width(width);
    Fill {
        x: #[verifier::truncate] (x as i16),
        y: 0,
        w: (if band_width(width) < width - x {
            band_width(width)
        } else {
            width - x
        }) as u16,
        h: height,
        pixel: band_pixel(colour, i),
    }
}

/// The bands from `i` on, left to right, while they start inside the width.
pub open spec fn bands_from(colour: u32, width: u16, height: u16, i: int) -> Seq<Fill>
    decreases BANDS - i,
{
    if i < 0 || i >= BANDS || i * band_width(width) >= width {
        Seq::empty()
    } else {
        seq![band_fill(colour, width, height, i)] + bands_from(colour, width, height, i + 1)
    }
}

/// The frame: four strips three pixels thick (less in a smaller window) along the top,
/// bottom, left and right edges, opaque in `colour`.
pub open spec fn frame_fills(colour: u32, width: u16, height: u16) -> Seq<Fill> {
    let t = if width < 3 && width <= height {
        width
    } else if height < 3 {
        height
    } else {
        3
    };
    let px = 0xff00_0000u32 | colour;
    seq![
        Fill { x: 0, y: 0, w: width, h: t as u16, pixel: px },
        Fill { x: 0, y: #[verifier::truncate] ((height - t) as i16), w: width, h: t as u16, pixel: px },
        Fill { x: 0, y: 0, w: t as u16, h: height, pixel: px },
        Fill { x: #[verifier::truncate] ((width - t) as i16), y: 0, w: t as u16, h: height, pixel: px },
    ]
}

/// Everything painted into the ARGB window, in order: the bands, then the frame over
/// them.
pub open spec fn alpha_ramp_spec(colour: u32, width: u16, height: u16) -> Seq<Fill> {
    bands_from(colour, width, height, 0) + frame_fills(colour, width, height)
}

/// Channel byte `shift / 8` of `colour` scaled by `alpha`, [`premul`].
fn premul_of(colour: u32, shift: u32, alpha: u32) -> (r: u32)
    requires
        shift == 0 || shift == 8 || shift == 16,
        alpha <= 255,
    ensures
        r == premul(colour, shift, alpha),
{
    let c = (colour >> shift) & 0xff;
    proof {
        assert(c <= 255) by (bit_vector)
            requires
                c == (colour >> shift) & 0xff,
        ;
        assert(c * alpha <= 255 * 255) by (nonlinear_arith)
            requires
                c <= 255,
                alpha <= 255,
        ;
    }
    (c * alpha / 255) << shift
}

/// The premultiplied pixel of band `i`, [`band_pixel`].
fn band_pixel_of(colour: u32, i: u16) -> (r: u32)
    requires
        i < BANDS,
    ensures
        r == band_pixel(colour, i as int),
{
    let alpha = (i as u32 * 255) / 23;
    (alpha << 24) | premul_of(colour, 16, alpha) | premul_of(colour, 8, alpha) | premul_of(
        colour,
        0,
        alpha,
    )
}

/// Everything painted into an ARGB window of `width` × `height` in `colour`,
/// [`alpha_ramp_spec`].
pub fn alpha_ramp(colour: u32, width: u16, height: u16) -> (r: Vec<Fill>)
    ensures
        r@ == alpha_ramp_spec(colour, width, height),
{
    let band = if width / BANDS < 1 {
        1
    } else {
        width / BANDS
    };
    let mut v: Vec<Fill> = Vec::new();
    let mut i: u16 = 0;
    let mut x: u16 = 0;
    while i < BANDS && x < width
        invariant
            i <= BANDS,
            band as int == band_width(width),
            1 <= band <= 2730,
            x as int == i * band,
            v@ + bands_from(colour, width, height, i as int) == bands_from(colour, width, height, 0),
        decreases BANDS - i,
    {
        let w = if band < width - x {
            band
        } else {
            width - x
        };
        let f = Fill {
            x: #[verifier::truncate] (x as i16),
            y: 0,
            w,
            h: height,
            pixel: band_pixel_of(colour, i),
        };
        proof {
            assert(f == band_fill(colour, width, height, i as int));
            assert(bands_from(colour, width, height, i as int) == seq![f] + bands_from(
                colour,
                width,
                height,
                i + 1,
            ));
            assert(v@.push(f) + bands_from(colour, width, height, i + 1) =~= v@ + bands_from(
                colour,
                width,
                height,
                i as int,
            ));
            assert(x + band <= 65520 && x + band == (i + 1) * band) by (nonlinear_arith)
                requires
                    x == i * band,
                    i < 24,
                    band <= 2730,
            ;
        }
        v.push(f);
        i += 1;
        x += band;
    }
    proof {
        assert(bands_from(colour, width, height, i as int) =~= Seq::<Fill>::empty());
        assert(v@ =~= bands_from(colour, width, height, 0));
    }
    let t = if width < 3 && width <= height {
        width
    } else if height < 3 {
        height
    } else {
        3
    };
    let px = 0xff00_0000 | colour;
    v.push(Fill { x: 0, y: 0, w: width, h: t, pixel: px });
    v.push(Fill { x: 0, y: #[verifier::truncate] ((height - t) as i16), w: width, h: t, pixel: px });
    v.push(Fill { x: 0, y: 0, w: t, h: height, pixel: px });
    v.push(Fill { x: #[verifier::truncate] ((width - t) as i16), y: 0, w: t, h: height, pixel: px });
    assert(v@ =~= alpha_ramp_spec(colour, width, height));
    v
}

} // verus!
