//! Small pieces of the test harnesses' controllers and subjects: the controllers'
//! adjustable parameters and protocol toggles, and the subjects' overlay text and pixel
//! helpers.

use vstd::prelude::*;

use crate::canvas::{
    fits, frame_shape, painted, rect_shape, ring_pixels, Canvas, BLACK, CYAN, GREEN, MAGENTA, RED,
    WHITE,
};
use crate::text::{chars_of, push_char, string_from};

verus! {

/// The wlr foreign-toplevel `maximized` state value.
pub const ST_MAXIMIZED: u32 = 0;
/// The `minimized` state value.
pub const ST_MINIMIZED: u32 = 1;
/// The `activated` state value.
pub const ST_ACTIVATED: u32 = 2;
/// The `fullscreen` state value.
pub const ST_FULLSCREEN: u32 = 3;

/// The overlay letter of a foreign-toplevel state.
pub open spec fn state_letter(st: u32) -> char {
    if st == ST_MAXIMIZED {
        'M'
    } else if st == ST_MINIMIZED {
        'm'
    } else if st == ST_ACTIVATED {
        'A'
    } else if st == ST_FULLSCREEN {
        'F'
    } else {
        '?'
    }
}

/// The states as one letter each (`M`aximized, `m`inimized, `A`ctivated, `F`ullscreen,
/// `?` for another), or `-` when there is none.
pub fn states_str(states: &[u32]) -> (r: String)
    ensures
        r@ == if states@.len() == 0 {
            seq!['-']
        } else {
            states@.map_values(|st: u32| state_letter(st))
        },
{
    let mut s = String::new();
    let mut i: usize = 0;
    while i < states.len()
        invariant
            i <= states.len(),
            s@ == states@.take(i as int).map_values(|st: u32| state_letter(st)),
        decreases states.len() - i,
    {
        let st = states[i];
        let c = if st == ST_MAXIMIZED {
            'M'
        } else if st == ST_MINIMIZED {
            'm'
        } else if st == ST_ACTIVATED {
            'A'
        } else if st == ST_FULLSCREEN {
            'F'
        } else {
            '?'
        };
        push_char(&mut s, c);
        i += 1;
        assert(s@ =~= states@.take(i as int).map_values(|st: u32| state_letter(st)));
    }
    assert(states@.take(states@.len() as int) =~= states@);
    if states.len() == 0 {
        push_char(&mut s, '-');
        assert(s@ =~= seq!['-']);
    }
    s
}

/// At most the first `n` characters of `s`.
pub fn trunc(s: &str, n: usize) -> (r: String)
    ensures
        r@ == if s@.len() <= n {
            s@
        } else {
            s@.take(n as int)
        },
{
    let c = chars_of(s);
    if c.len() <= n {
        return string_from(s);
    }
    let mut out = String::new();
    let mut i: usize = 0;
    while i < n
        invariant
            i <= n < c.len(),
            c@ == s@,
            out@ == s@.take(i as int),
        decreases n - i,
    {
        push_char(&mut out, c[i]);
        i += 1;
        assert(out@ =~= s@.take(i as int));
    }
    out
}

/// `on` or `off`.
pub fn on(b: bool) -> (r: &'static str)
    ensures
        r@ == if b {
            "on"@
        } else {
            "off"@
        },
{
    if b {
        "on"
    } else {
        "off"
    }
}

/// A protocol toggle's label text: the name, a space, and `+` when enabled or `-`.
pub open spec fn proto_text(name: Seq<char>, on: bool) -> Seq<char> {
    name + seq![' ', if on {
        '+'
    } else {
        '-'
    }]
}

/// A protocol toggle's button label, [`proto_text`].
pub fn proto_label(name: &str, on: bool) -> (r: String)
    ensures
        r@ == proto_text(name@, on),
{
    let mut s = string_from(name);
    push_char(&mut s, ' ');
    push_char(
        &mut s,
        if on {
            '+'
        } else {
            '-'
        },
    );
    s
}

/// Expands an 8-bit channel to the 32-bit value the single-pixel protocol wants: the
/// byte in each of the four bytes.
pub fn scale8(v: u8) -> (r: u32)
    ensures
        r == v * 0x0101_0101,
{
    (v as u32) * 0x0101_0101
}

/// The colour per icon size, so the size the compositor chose can be read off the
/// pixels: red, amber, green, blue, magenta, then again.
pub open spec fn tint_of(index: int) -> u32 {
    let k = index % 5;
    if k == 0 {
        0xFFE0_4038
    } else if k == 1 {
        0xFFE0_A020
    } else if k == 2 {
        0xFF30_C060
    } else if k == 3 {
        0xFF30_70E0
    } else {
        0xFFC0_40C0
    }
}

/// The colour for icon size `index`.
pub fn icon_tint(index: usize) -> (r: u32)
    ensures
        r == tint_of(index as int),
{
    let k = index % 5;
    if k == 0 {
        0xFFE0_4038
    } else if k == 1 {
        0xFFE0_A020
    } else if k == 2 {
        0xFF30_C060
    } else if k == 3 {
        0xFF30_70E0
    } else {
        0xFFC0_40C0
    }
}

/// Byte `k` (0 = lowest) of `x`.
pub open spec fn byte_of(x: u32, k: u32) -> u32 {
    (x >> (8 * k)) & 0xFF
}

/// An opaque `0xFFRRGGBB` scaled to alpha `a` with premultiplied channels, as `wl_shm`'s
/// `argb8888` means: the alpha byte is `a`, and each colour byte `c` becomes
/// `c * a / 255`.
pub fn premultiply(argb: u32, a: u8) -> (r: u32)
    ensures
        byte_of(r, 3) == a,
        byte_of(r, 2) == byte_of(argb, 2) * (a as u32) / 255,
        byte_of(r, 1) == byte_of(argb, 1) * (a as u32) / 255,
        byte_of(r, 0) == byte_of(argb, 0) * (a as u32) / 255,
{
    let a32 = a as u32;
    proof {
        assert(((argb >> 16) & 0xFF) <= 255 && ((argb >> 8) & 0xFF) <= 255 && (argb & 0xFF) <= 255)
            by (bit_vector);
        assert(((argb >> 16) & 0xFF) * a32 <= 255 * 255) by (nonlinear_arith)
            requires
                ((argb >> 16) & 0xFF) <= 255,
                a32 <= 255,
        ;
        assert(((argb >> 8) & 0xFF) * a32 <= 255 * 255) by (nonlinear_arith)
            requires
                ((argb >> 8) & 0xFF) <= 255,
                a32 <= 255,
        ;
        assert((argb & 0xFF) * a32 <= 255 * 255) by (nonlinear_arith)
            requires
                (argb & 0xFF) <= 255,
                a32 <= 255,
        ;
    }
    let red = ((argb >> 16) & 0xFF) * a32 / 255;
    let green = ((argb >> 8) & 0xFF) * a32 / 255;
    let blue = (argb & 0xFF) * a32 / 255;
    let r = (a32 << 24) | ((red & 0xFF) << 16) | ((green & 0xFF) << 8) | (blue & 0xFF);
    proof {
        assert(red <= 255 && green <= 255 && blue <= 255);
        assert(a32 <= 255 && red <= 255 && green <= 255 && blue <= 255 && r == (a32 << 24) | ((red
            & 0xFF) << 16) | ((green & 0xFF) << 8) | (blue & 0xFF) ==> ((r >> 24) & 0xFF) == a32
            && ((r >> 16) & 0xFF) == red && ((r >> 8) & 0xFF) == green && (r & 0xFF) == blue) by (
        bit_vector);
        assert(byte_of(argb, 2) == (argb >> 16) & 0xFF);
        assert(byte_of(argb, 1) == (argb >> 8) & 0xFF);
        assert(byte_of(argb, 0) == argb & 0xFF) by (bit_vector);
        assert(byte_of(r, 0) == r & 0xFF) by (bit_vector);
    }
    r
}

/// How a subject frame is resolved: buffer size, buffer scale, and the viewport
/// destination, if any.
#[derive(Clone, Copy, Debug)]
pub struct Render {
    pub buf_w: i32,
    pub buf_h: i32,
    pub buffer_scale: i32,
    pub dest: Option<(i32, i32)>,
}

impl Render {
    /// A render resolution.
    pub fn new(buf_w: i32, buf_h: i32, buffer_scale: i32, dest: Option<(i32, i32)>) -> (r: Render)
        ensures
            r == (Render { buf_w, buf_h, buffer_scale, dest }),
    {
        Render { buf_w, buf_h, buffer_scale, dest }
    }
}

/// How many frames a click marker stays on screen (about 16 ms a frame).
pub const CLICK_TTL: u32 = 18;

/// The centre colour of a click marker, which says which button was pressed: red for
/// the left one, green for the right, cyan for the middle, magenta for any other.
pub open spec fn button_colour_spec(button: u32) -> u32 {
    if button == 0x110 {
        RED
    } else if button == 0x111 {
        GREEN
    } else if button == 0x112 {
        CYAN
    } else {
        MAGENTA
    }
}

/// The centre colour of a click marker, [`button_colour_spec`].
pub fn button_colour(button: u32) -> (r: u32)
    ensures
        r == button_colour_spec(button),
{
    if button == 0x110 {
        RED
    } else if button == 0x111 {
        GREEN
    } else if button == 0x112 {
        CYAN
    } else {
        MAGENTA
    }
}

/// The radius of a click marker with `ttl` frames left: it grows from 3 as it ages.
pub open spec fn marker_radius(ttl: u32) -> int {
    3 + (CLICK_TTL - if ttl < CLICK_TTL {
        ttl
    } else {
        CLICK_TTL
    })
}

/// The pixels of a ring of radius `r` around (`cx`, `cy`).
pub open spec fn ring_shape(cx: int, cy: int, r: int) -> spec_fn(int, int) -> bool {
    |px: int, py: int| ring_pixels(cx, cy, r).contains((px, py))
}

/// `new` is `old` with a click marker drawn at (`cx`, `cy`) through the intermediate
/// canvases `a`, `b`, `c`: a black ring, a white ring just inside it, a 5 × 5 square in
/// the button's colour, and the square's black outline.
pub open spec fn marker_drawn(
    old: Canvas,
    a: Canvas,
    b: Canvas,
    c: Canvas,
    new: Canvas,
    cx: int,
    cy: int,
    ttl: u32,
    button: u32,
) -> bool {
    &&& painted(old, a, ring_shape(cx, cy, marker_radius(ttl) + 1), BLACK)
    &&& painted(a, b, ring_shape(cx, cy, marker_radius(ttl)), WHITE)
    &&& painted(b, c, rect_shape(cx - 2, cy - 2, 5, 5), button_colour_spec(button))
    &&& painted(c, new, frame_shape(cx - 2, cy - 2, 5, 5, 1), BLACK)
}

/// Draws a click marker at (`cx`, `cy`): a white ring inside a black one, growing as the
/// marker ages, around a 5 × 5 square in the button's colour with a black outline.
pub fn click_marker(cv: &mut Canvas, cx: i32, cy: i32, ttl: u32, button: u32)
    requires
        old(cv).wf(),
        fits(cx - 22) && fits(cx + 22) && fits(cy - 22) && fits(cy + 22),
    ensures
        exists|a: Canvas, b: Canvas, c: Canvas|
            #[trigger] marker_drawn(*old(cv), a, b, c, *final(cv), cx as int, cy as int, ttl, button),
{
    let age = if ttl < CLICK_TTL {
        ttl
    } else {
        CLICK_TTL
    };
    let rad = 3 + (CLICK_TTL - age) as i32;
    let ghost c0 = *cv;
    assert(2 * (rad + 3) * (rad + 3) <= i32::MAX && 2 * (rad + 2) * (rad + 2) <= i32::MAX)
        by (nonlinear_arith)
        requires
            3 <= rad <= 21,
    ;
    cv.ring(cx, cy, rad + 1, BLACK);
    let ghost a = *cv;
    cv.ring(cx, cy, rad, WHITE);
    let ghost b = *cv;
    cv.rect(cx - 2, cy - 2, 5, 5, button_colour(button));
    let ghost c = *cv;
    cv.frame(cx - 2, cy - 2, 5, 5, 1, BLACK);
    assert(rad == marker_radius(ttl));
    assert(marker_drawn(c0, a, b, c, *cv, cx as int, cy as int, ttl, button));
}

/// Rust's `%` on signed integers: the remainder takes the sign of the dividend.
pub open spec fn rem_toward_zero(a: int, n: int) -> int {
    if a >= 0 {
        a % n
    } else {
        -((-a) % n)
    }
}

/// One frame of a click marker's life: a live marker loses a frame (and its surface is
/// redrawn), an expired one is removed (and its surface redrawn once more, clear).
/// Gives the new remaining life, `None` when there is no marker, and whether to redraw.
pub fn age_click(ttl: Option<u32>) -> (r: (Option<u32>, bool))
    ensures
        r == match ttl {
            Some(n) => if n > 0 {
                (Some((n - 1) as u32), true)
            } else {
                (None, true)
            },
            None => (None, false),
        },
{
    match ttl {
        Some(n) => if n > 0 {
            (Some(n - 1), true)
        } else {
            (None, true)
        },
        None => (None, false),
    }
}

} // verus!
