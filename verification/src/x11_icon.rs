//! The `_NET_WM_ICON` payloads the X11 subject publishes.
//!
//! An EWMH icon property is a run of images, each a width word, a height word and then
//! `width × height` ARGB pixels (alpha in the high byte, an arithmetic layout rather than
//! a memory one). Every test image is framed: a border in the owning window's colour so
//! the icon can be matched back to its window, and a centre in a colour that names the
//! image size, so what a compositor shows says which image it picked.

use vstd::prelude::*;

use crate::x11_protocol::IconSpec;

verus! {

/// Width of the border around a test image: a sixth of the edge, at least one pixel.
pub open spec fn border_of(edge: int) -> int {
    if edge / 6 < 1 {
        1
    } else {
        edge / 6
    }
}

/// Whether the pixel at column `x`, row `y` of an `edge`-sized image is on its border.
pub open spec fn on_border(edge: int, x: int, y: int) -> bool {
    let b = border_of(edge);
    x < b || y < b || x + b >= edge || y + b >= edge
}

/// Pixel `i` (row-major) of a framed image: opaque, the outer colour on the border and
/// the inner one inside.
pub open spec fn framed_pixel(edge: u32, outer: u32, inner: u32, i: int) -> u32 {
    let rgb = if on_border(edge as int, i % (edge as int), i / (edge as int)) {
        outer
    } else {
        inner
    };
    0xff00_0000u32 | (rgb & 0x00ff_ffffu32)
}

/// A framed `edge` × `edge` image: its size words, then its pixels row by row.
pub open spec fn framed_words(edge: u32, outer: u32, inner: u32) -> Seq<u32> {
    seq![edge, edge] + Seq::new(
        (edge * edge) as nat,
        |i: int| framed_pixel(edge, outer, inner, i),
    )
}

/// The centre colour of an image of `edge` pixels, which names its size: red 16, orange
/// 32, yellow 48, green 64, blue 128, purple 256, white for any other.
pub open spec fn size_colour_spec(edge: u32) -> u32 {
    if edge == 16 {
        0xd62828
    } else if edge == 32 {
        0xf77f00
    } else if edge == 48 {
        0xfcbf49
    } else if edge == 64 {
        0x2a9d8f
    } else if edge == 128 {
        0x264653
    } else if edge == 256 {
        0x7b2cbf
    } else {
        0xf5f5f5
    }
}

/// The image of one size for a window: framed in the window's colour, centred in the
/// size's colour.
pub open spec fn image_words(edge: u32, window: u32) -> Seq<u32> {
    framed_words(edge, window, size_colour_spec(edge))
}

/// Pixel `i` of the alpha-ramp image: the window's colour, alpha rising from 0 at the
/// left column to 255 at the right one.
pub open spec fn ramp_pixel(window: u32, i: int) -> u32 {
    let x = (i % 64) as u32;
    let a = ((x * 255) / 63) as u32 & 0xff;
    (a << 24u32) | (window & 0x00ff_ffffu32)
}

/// The `_NET_WM_ICON` payload for a test icon; empty means "delete the property".
/// - a single 64 × 64 image;
/// - a pyramid of 16, 32, 48, 64 and 128, ascending;
/// - 1024 then 48, the large one first;
/// - a 2048 × 2048 header followed by only 64 opaque words, then a 48 image;
/// - a good 64 image, then a 32 × 32 header followed by only 10 words;
/// - a 0 × 0 header, then a 64 image;
/// - one 64 × 64 image in the window's colour, its alpha ramping across the width.
pub open spec fn icon_words_spec(spec: IconSpec, window: u32) -> Seq<u32> {
    match spec {
        IconSpec::Absent => Seq::empty(),
        IconSpec::Single => image_words(64, window),
        IconSpec::Pyramid => image_words(16, window) + image_words(32, window) + image_words(
            48,
            window,
        ) + image_words(64, window) + image_words(128, window),
        IconSpec::LargeFirst => image_words(1024, window) + image_words(48, window),
        IconSpec::Oversize => seq![2048u32, 2048u32] + Seq::new(64, |i: int| 0xff00_0000u32)
            + image_words(48, window),
        IconSpec::Truncated => image_words(64, window) + seq![32u32, 32u32] + Seq::new(
            10,
            |i: int| 0xff00_0000u32,
        ),
        IconSpec::Zero => seq![0u32, 0u32] + image_words(64, window),
        IconSpec::Alpha => seq![64u32, 64u32] + Seq::new(4096, |i: int| ramp_pixel(window, i)),
    }
}

/// A framed image of edge at least 3 shows the outer colour at its corner and the inner
/// colour at its centre, both opaque: the border names the window, the centre the size.
pub proof fn lemma_framed_colours(edge: u32, outer: u32, inner: u32)
    requires
        3 <= edge <= 0xffff,
    ensures
        framed_words(edge, outer, inner)[2] == 0xff00_0000u32 | (outer & 0x00ff_ffffu32),
        framed_words(edge, outer, inner)[2 + (edge / 2) * edge + edge / 2] == 0xff00_0000u32 | (
        inner & 0x00ff_ffffu32),
{
    let e = edge as int;
    let c = e / 2;
    let i = c * e + c;
    assert(0 <= c < e);
    assert(0 <= c * e <= (e - 1) * e) by (nonlinear_arith)
        requires
            0 <= c < e,
    ;
    assert(i < e * e) by (nonlinear_arith)
        requires
            i == c * e + c,
            0 <= c < e,
    ;
    vstd::arithmetic::div_mod::lemma_fundamental_div_mod_converse(i, e, c, c);
    vstd::arithmetic::div_mod::lemma_fundamental_div_mod_converse(0, e, 0, 0);
    assert(!on_border(e, c, c));
    assert(on_border(e, 0, 0));
}

/// A framed `edge` × `edge` image, [`framed_words`].
pub fn framed(edge: u32, outer: u32, inner: u32) -> (r: Vec<u32>)
    requires
        edge <= 0xffff,
    ensures
        r@ == framed_words(edge, outer, inner),
{
    let border = if edge / 6 < 1 {
        1
    } else {
        edge / 6
    };
    let ghost f = |i: int| framed_pixel(edge, outer, inner, i);
    let ghost head = seq![edge, edge];
    let mut v: Vec<u32> = Vec::new();
    v.push(edge);
    v.push(edge);
    let mut y: u32 = 0;
    while y < edge
        invariant
            y <= edge <= 0xffff,
            border as int == border_of(edge as int),
            head == seq![edge, edge],
            forall|i: int| #[trigger] f(i) == framed_pixel(edge, outer, inner, i),
            v@ == head + Seq::new((y * edge) as nat, f),
        decreases edge - y,
    {
        let mut x: u32 = 0;
        while x < edge
            invariant
                y < edge <= 0xffff,
                x <= edge,
                border as int == border_of(edge as int),
                head == seq![edge, edge],
                forall|i: int| #[trigger] f(i) == framed_pixel(edge, outer, inner, i),
                v@ == head + Seq::new((y * edge + x) as nat, f),
            decreases edge - x,
        {
            let edge_px = x < border || y < border || x + border >= edge || y + border >= edge;
            let rgb = if edge_px {
                outer
            } else {
                inner
            };
            let px = 0xff00_0000 | (rgb & 0x00ff_ffff);
            proof {
                let i = y * edge + x;
                vstd::arithmetic::div_mod::lemma_fundamental_div_mod_converse(
                    i as int,
                    edge as int,
                    y as int,
                    x as int,
                );
                assert(px == f(i as int));
            }
            v.push(px);
            proof {
                let n = (y * edge + x) as nat;
                assert(v@ =~= head + Seq::new(n + 1, f));
            }
            x += 1;
        }
        proof {
            assert((y + 1) * edge == y * edge + edge) by (nonlinear_arith);
        }
        y += 1;
    }
    proof {
        assert(y * edge == edge * edge);
        assert(v@ =~= framed_words(edge, outer, inner));
    }
    v
}

/// The centre colour of an image of `edge` pixels, [`size_colour_spec`].
pub fn size_colour(edge: u32) -> (r: u32)
    ensures
        r == size_colour_spec(edge),
{
    match edge {
        16 => 0xd62828,
        32 => 0xf77f00,
        48 => 0xfcbf49,
        64 => 0x2a9d8f,
        128 => 0x264653,
        256 => 0x7b2cbf,
        _ => 0xf5f5f5,
    }
}

/// Appends the image of one size for a window, [`image_words`].
fn push_image(v: &mut Vec<u32>, edge: u32, window: u32)
    requires
        edge <= 0xffff,
    ensures
        final(v)@ == old(v)@ + image_words(edge, window),
{
    let mut img = framed(edge, window, size_colour(edge));
    v.append(&mut img);
}

/// Appends `n` copies of `w`.
fn push_repeat(v: &mut Vec<u32>, w: u32, n: usize)
    ensures
        final(v)@ == old(v)@ + Seq::new(n as nat, |i: int| w),
{
    let mut k: usize = 0;
    while k < n
        invariant
            k <= n,
            v@ == old(v)@ + Seq::new(k as nat, |i: int| w),
        decreases n - k,
    {
        v.push(w);
        k += 1;
        assert(v@ =~= old(v)@ + Seq::new(k as nat, |i: int| w));
    }
}

/// The `_NET_WM_ICON` payload for a test icon, [`icon_words_spec`]; `window` is the
/// owning window's background colour.
pub fn icon_words(spec: IconSpec, window: u32) -> (r: Vec<u32>)
    ensures
        r@ == icon_words_spec(spec, window),
{
    let mut v: Vec<u32> = Vec::new();
    match spec {
        IconSpec::Absent => {},
        IconSpec::Single => {
            push_image(&mut v, 64, window);
        },
        IconSpec::Pyramid => {
            push_image(&mut v, 16, window);
            push_image(&mut v, 32, window);
            push_image(&mut v, 48, window);
            push_image(&mut v, 64, window);
            push_image(&mut v, 128, window);
        },
        IconSpec::LargeFirst => {
            push_image(&mut v, 1024, window);
            push_image(&mut v, 48, window);
        },
        IconSpec::Oversize => {
            v.push(2048);
            v.push(2048);
            push_repeat(&mut v, 0xff00_0000, 64);
            push_image(&mut v, 48, window);
        },
        IconSpec::Truncated => {
            push_image(&mut v, 64, window);
            v.push(32);
            v.push(32);
            push_repeat(&mut v, 0xff00_0000, 10);
        },
        IconSpec::Zero => {
            v.push(0);
            v.push(0);
            push_image(&mut v, 64, window);
        },
        IconSpec::Alpha => {
            v.push(64);
            v.push(64);
            let ghost head = v@;
            let mut y: u32 = 0;
            while y < 64
                invariant
                    y <= 64,
                    head == seq![64u32, 64u32],
                    v@ == head + Seq::new((y * 64) as nat, |i: int| ramp_pixel(window, i)),
                decreases 64 - y,
            {
                let mut x: u32 = 0;
                while x < 64
                    invariant
                        y < 64,
                        x <= 64,
                        head == seq![64u32, 64u32],
                        v@ == head + Seq::new((y * 64 + x) as nat, |i: int| ramp_pixel(window, i)),
                    decreases 64 - x,
                {
                    let a = (x * 255 / 63) & 0xff;
                    let px = (a << 24) | (window & 0x00ff_ffff);
                    proof {
                        let i = (y * 64 + x) as int;
                        assert(i % 64 == x);
                        assert(px == ramp_pixel(window, i));
                    }
                    v.push(px);
                    assert(v@ =~= head + Seq::new((y * 64 + x + 1) as nat, |i: int| ramp_pixel(window, i)));
                    x += 1;
                }
                y += 1;
            }
        },
    }
    assert(v@ =~= icon_words_spec(spec, window));
    v
}

} // verus!
