//! A small software ARGB8888 canvas.
//!
//! Wayland `wl_shm` `Argb8888` is a 32-bit native-endian pixel `0xAARRGGBB`; on the
//! little-endian targets the tools run on that is the byte order `[B, G, R, A]`, which is
//! what [`Canvas::put`] writes. Colors are `u32` `0xAARRGGBB`.
//!
//! Every drawing operation is stated as a painting: the pixels of a shape, clipped to the
//! canvas, take the color; every other pixel and every byte past the pixel area keep
//! their value.

use vstd::prelude::*;

verus! {

/// Common opaque colors (`0xAARRGGBB`).
pub const BLACK: u32 = 0xFF000000;
pub const WHITE: u32 = 0xFFFFFFFF;
pub const RED: u32 = 0xFFE0_4040;
pub const GREEN: u32 = 0xFF40_C040;
pub const BLUE: u32 = 0xFF40_60E0;
pub const YELLOW: u32 = 0xFFE0_C040;
pub const CYAN: u32 = 0xFF40_C0E0;
pub const MAGENTA: u32 = 0xFFE0_40C0;
pub const ORANGE: u32 = 0xFFE0_8030;
pub const GREY: u32 = 0xFF80_8080;
pub const DKGREY: u32 = 0xFF30_3030;
pub const LTGREY: u32 = 0xFFB0_B0B0;
pub const PANEL: u32 = 0xFF20_2428;
pub const BTN: u32 = 0xFF3A_4048;
pub const BTN_HOT: u32 = 0xFF55_6070;

/// A drawing surface over a `width * height * 4` byte buffer, one row of `width`
/// pixels after the other.
pub struct Canvas {
    data: Vec<u8>,
    width: i32,
    height: i32,
    stride: i32,
}

/// Byte `j` (0 = blue, 1 = green, 2 = red, 3 = alpha) of a `0xAARRGGBB` color.
pub open spec fn argb_byte(argb: u32, j: int) -> u8 {
    if j == 0 {
        (argb & 0xFF) as u8
    } else if j == 1 {
        ((argb >> 8) & 0xFF) as u8
    } else if j == 2 {
        ((argb >> 16) & 0xFF) as u8
    } else {
        ((argb >> 24) & 0xFF) as u8
    }
}

impl Canvas {
    /// Width in pixels.
    pub closed spec fn w(self) -> int {
        self.width as int
    }

    /// Height in pixels.
    pub closed spec fn h(self) -> int {
        self.height as int
    }

    /// The whole buffer.
    pub closed spec fn bytes(self) -> Seq<u8> {
        self.data@
    }

    /// Byte `j` of pixel (`x`, `y`).
    pub closed spec fn pix(self, x: int, y: int, j: int) -> u8 {
        self.data@[(y * self.width + x) * 4 + j]
    }

    /// The canvas is consistent: a non-negative size whose pixel area fits both the
    /// buffer and `i32` byte offsets.
    pub closed spec fn wf(self) -> bool {
        &&& 0 <= self.width
        &&& 0 <= self.height
        &&& self.stride == self.width * 4
        &&& self.width * self.height * 4 <= i32::MAX
        &&& self.width * self.height * 4 <= self.data@.len()
    }

    /// The byte at `k` of the buffer is the byte `j` of pixel (`x`, `y`).
    pub proof fn lemma_pix(self, x: int, y: int, j: int)
        requires
            self.wf(),
            0 <= x < self.w(),
            0 <= y < self.h(),
            0 <= j < 4,
        ensures
            0 <= (y * self.w() + x) * 4 + j < self.w() * self.h() * 4,
            self.pix(x, y, j) == self.bytes()[(y * self.w() + x) * 4 + j],
    {
        lemma_index_in_area(self.w(), self.h(), x, y);
    }
}

/// Pixel (`x`, `y`) lies in a `w` × `h` area: its index row-major is below `w * h`.
proof fn lemma_index_in_area(w: int, h: int, x: int, y: int)
    requires
        0 <= x < w,
        0 <= y < h,
    ensures
        0 <= y * w + x,
        y * w + x < w * h,
        (y * w + x) * 4 + 3 < w * h * 4,
{
    assert(0 <= y * w) by (nonlinear_arith)
        requires
            0 <= y,
            0 <= w,
    ;
    assert(y * w + x < w * h) by (nonlinear_arith)
        requires
            0 <= x < w,
            0 <= y < h,
    ;
    assert((y * w + x) * 4 + 3 < w * h * 4) by (nonlinear_arith)
        requires
            y * w + x < w * h,
    ;
}

/// Distinct pixels have distinct row-major indices.
proof fn lemma_index_unique(w: int, x: int, y: int, x2: int, y2: int)
    requires
        0 <= x < w,
        0 <= x2 < w,
        y * w + x == y2 * w + x2,
    ensures
        x == x2 && y == y2,
{
    if y < y2 {
        assert(y * w + x < y2 * w + x2) by (nonlinear_arith)
            requires
                y < y2,
                0 <= x < w,
                0 <= x2,
        ;
    } else if y2 < y {
        assert(y2 * w + x2 < y * w + x) by (nonlinear_arith)
            requires
                y2 < y,
                0 <= x2 < w,
                0 <= x,
        ;
    }
}

/// `new` is `old` with the pixels for which `shape` holds, clipped to the canvas, set to
/// `argb`: every other pixel and every byte past the pixel area is unchanged.
pub open spec fn painted(old: Canvas, new: Canvas, shape: spec_fn(int, int) -> bool, argb: u32) -> bool {
    &&& new.wf()
    &&& new.w() == old.w()
    &&& new.h() == old.h()
    &&& new.bytes().len() == old.bytes().len()
    &&& forall|x: int, y: int, j: int|
        0 <= x < old.w() && 0 <= y < old.h() && 0 <= j < 4 ==> #[trigger] new.pix(x, y, j) == if shape(
            x,
            y,
        ) {
            argb_byte(argb, j)
        } else {
            old.pix(x, y, j)
        }
    &&& forall|k: int|
        old.w() * old.h() * 4 <= k < old.bytes().len() ==> #[trigger] new.bytes()[k]
            == old.bytes()[k]
}

/// Painting twice with one color paints the union of the two shapes; a third shape that
/// holds exactly where either does describes the result.
pub proof fn lemma_paint_union(
    a: Canvas,
    b: Canvas,
    c: Canvas,
    p: spec_fn(int, int) -> bool,
    q: spec_fn(int, int) -> bool,
    u: spec_fn(int, int) -> bool,
    argb: u32,
)
    requires
        painted(a, b, p, argb),
        painted(b, c, q, argb),
        forall|x: int, y: int| #[trigger] u(x, y) == (p(x, y) || q(x, y)),
    ensures
        painted(a, c, u, argb),
{
    assert forall|x: int, y: int, j: int|
        0 <= x < a.w() && 0 <= y < a.h() && 0 <= j < 4 implies #[trigger] c.pix(x, y, j) == if u(
            x,
            y,
        ) {
            argb_byte(argb, j)
        } else {
            a.pix(x, y, j)
        } by {
        assert(c.pix(x, y, j) == if q(x, y) {
            argb_byte(argb, j)
        } else {
            b.pix(x, y, j)
        });
        assert(b.pix(x, y, j) == if p(x, y) {
            argb_byte(argb, j)
        } else {
            a.pix(x, y, j)
        });
        assert(u(x, y) == (p(x, y) || q(x, y)));
    }
    assert forall|k: int| a.w() * a.h() * 4 <= k < a.bytes().len() implies #[trigger] c.bytes()[k]
        == a.bytes()[k] by {
        assert(c.bytes()[k] == b.bytes()[k]);
    }
}

/// Painting an empty shape changes nothing.
pub(crate) proof fn lemma_paint_nothing(a: Canvas, shape: spec_fn(int, int) -> bool, argb: u32)
    requires
        a.wf(),
        forall|x: int, y: int| !(#[trigger] shape(x, y)),
    ensures
        painted(a, a, shape, argb),
{
}

impl Canvas {
    /// Wraps a buffer of at least `width * height * 4` bytes.
    pub fn new(data: Vec<u8>, width: i32, height: i32) -> (r: Canvas)
        requires
            0 <= width,
            0 <= height,
            width * 4 <= i32::MAX,
            width * height * 4 <= i32::MAX,
            width * height * 4 <= data@.len(),
        ensures
            r.wf(),
            r.w() == width,
            r.h() == height,
            r.bytes() == data@,
    {
        Canvas { data, width, height, stride: width * 4 }
    }

    /// Width in pixels.
    pub fn width(&self) -> (r: i32)
        ensures
            r == self.w(),
    {
        self.width
    }

    /// Height in pixels.
    pub fn height(&self) -> (r: i32)
        ensures
            r == self.h(),
    {
        self.height
    }

    /// The buffer, given back.
    pub fn into_data(self) -> (r: Vec<u8>)
        ensures
            r@ == self.bytes(),
    {
        self.data
    }

    /// Writes one pixel, overwriting it (alpha is not blended). Out of bounds is a no-op.
    pub fn put(&mut self, x: i32, y: i32, argb: u32)
        requires
            old(self).wf(),
        ensures
            painted(*old(self), *final(self), |px: int, py: int| px == x && py == y, argb),
    {
        if x < 0 || y < 0 || x >= self.width || y >= self.height {
            return;
        }
        proof {
            lemma_index_in_area(self.width as int, self.height as int, x as int, y as int);
            assert(y * self.stride + x * 4 == (y * self.width + x) * 4) by (nonlinear_arith)
                requires
                    self.stride == self.width * 4,
            ;
        }
        let ghost before = *self;
        let i = (y * self.stride + x * 4) as usize;
        self.data.set(i, (argb & 0xFF) as u8);
        self.data.set(i + 1, ((argb >> 8) & 0xFF) as u8);
        self.data.set(i + 2, ((argb >> 16) & 0xFF) as u8);
        self.data.set(i + 3, ((argb >> 24) & 0xFF) as u8);
        proof {
            let w = self.width as int;
            assert forall|px: int, py: int, j: int|
                0 <= px < w && 0 <= py < self.h() && 0 <= j < 4 implies #[trigger] self.pix(
                px,
                py,
                j,
            ) == if px == x && py == y {
                argb_byte(argb, j)
            } else {
                before.pix(px, py, j)
            } by {
                lemma_index_in_area(w, self.h(), px, py);
                if !(px == x && py == y) {
                    if py * w + px == y * w + x {
                        lemma_index_unique(w, px as int, py, x as int, y as int);
                    }
                    assert((py * w + px) * 4 + j != i + 0 && (py * w + px) * 4 + j != i + 1 && (py
                        * w + px) * 4 + j != i + 2 && (py * w + px) * 4 + j != i + 3) by (
                    nonlinear_arith)
                        requires
                            py * w + px != y * w + x,
                            i == (y * w + x) * 4,
                            0 <= j < 4,
                    ;
                }
            }
        }
    }
}

/// A value that fits an `i32`.
pub open spec fn fits(v: int) -> bool {
    i32::MIN <= v <= i32::MAX
}

/// The `w` × `h` rectangle whose top-left pixel is (`x`, `y`).
pub open spec fn rect_shape(x: int, y: int, w: int, h: int) -> spec_fn(int, int) -> bool {
    |px: int, py: int| x <= px < x + w && y <= py < y + h
}

/// The outline of width `t` of a rectangle: its top, bottom, left and right bands.
pub open spec fn frame_shape(x: int, y: int, w: int, h: int, t: int) -> spec_fn(int, int) -> bool {
    |px: int, py: int|
        rect_shape(x, y, w, t)(px, py) || rect_shape(x, y + h - t, w, t)(px, py) || rect_shape(
            x,
            y,
            t,
            h,
        )(px, py) || rect_shape(x + w - t, y, t, h)(px, py)
}

/// A crosshair of arm length `arm` at (`x`, `y`): a horizontal and a vertical bar
/// through the centre and a 7 × 7 square outline around it.
pub open spec fn crosshair_shape(x: int, y: int, arm: int) -> spec_fn(int, int) -> bool {
    |px: int, py: int|
        rect_shape(x - arm, y, arm * 2 + 1, 1)(px, py) || rect_shape(x, y - arm, 1, arm * 2 + 1)(
            px,
            py,
        ) || frame_shape(x - 3, y - 3, 7, 7, 1)(px, py)
}

/// A painting described by one shape is described by any shape that holds at the same
/// pixels.
pub(crate) proof fn lemma_paint_same(
    a: Canvas,
    b: Canvas,
    p: spec_fn(int, int) -> bool,
    q: spec_fn(int, int) -> bool,
    argb: u32,
)
    requires
        painted(a, b, p, argb),
        forall|x: int, y: int| 0 <= x < a.w() && 0 <= y < a.h() ==> #[trigger] q(x, y) == p(x, y),
    ensures
        painted(a, b, q, argb),
{
    assert forall|x: int, y: int, j: int|
        0 <= x < a.w() && 0 <= y < a.h() && 0 <= j < 4 implies #[trigger] b.pix(x, y, j) == if q(
            x,
            y,
        ) {
            argb_byte(argb, j)
        } else {
            a.pix(x, y, j)
        } by {
        assert(q(x, y) == p(x, y));
    }
}

impl Canvas {
    /// Fills the `w` × `h` rectangle at (`x`, `y`), clipped to the canvas.
    pub fn rect(&mut self, x: i32, y: i32, w: i32, h: i32, argb: u32)
        requires
            old(self).wf(),
            fits(x + w),
            fits(y + h),
        ensures
            painted(*old(self), *final(self), rect_shape(x as int, y as int, w as int, h as int), argb),
    {
        let ghost start = *self;
        let end_x = x + w;
        let end_y = y + h;
        let mut yy = y;
        proof {
            lemma_paint_nothing(start, |px: int, py: int| x <= px < end_x && y <= py < yy, argb);
        }
        while yy < end_y
            invariant
                self.wf(),
                end_x == x + w,
                end_y == y + h,
                y <= yy,
                yy <= end_y || yy == y,
                painted(start, *self, |px: int, py: int| x <= px < end_x && y <= py < yy, argb),
            decreases end_y - yy,
        {
            let mut xx = x;
            proof {
                lemma_paint_same(
                    start,
                    *self,
                    |px: int, py: int| x <= px < end_x && y <= py < yy,
                    |px: int, py: int| (x <= px < end_x && y <= py < yy) || (py == yy && x <= px
                        < xx),
                    argb,
                );
            }
            while xx < end_x
                invariant
                    self.wf(),
                    end_x == x + w,
                    end_y == y + h,
                    y <= yy < end_y,
                    x <= xx,
                    xx <= end_x || xx == x,
                    painted(
                        start,
                        *self,
                        |px: int, py: int| (x <= px < end_x && y <= py < yy) || (py == yy && x
                            <= px < xx),
                        argb,
                    ),
                decreases end_x - xx,
            {
                let ghost before = *self;
                self.put(xx, yy, argb);
                proof {
                    lemma_paint_union(
                        start,
                        before,
                        *self,
                        |px: int, py: int| (x <= px < end_x && y <= py < yy) || (py == yy && x
                            <= px < xx),
                        |px: int, py: int| px == xx && py == yy,
                        |px: int, py: int| (x <= px < end_x && y <= py < yy) || (py == yy && x
                            <= px < xx + 1),
                        argb,
                    );
                }
                xx += 1;
            }
            proof {
                lemma_paint_same(
                    start,
                    *self,
                    |px: int, py: int| (x <= px < end_x && y <= py < yy) || (py == yy && x <= px
                        < xx),
                    |px: int, py: int| x <= px < end_x && y <= py < yy + 1,
                    argb,
                );
            }
            yy += 1;
        }
        proof {
            lemma_paint_same(
                start,
                *self,
                |px: int, py: int| x <= px < end_x && y <= py < yy,
                rect_shape(x as int, y as int, w as int, h as int),
                argb,
            );
        }
    }

    /// Fills the whole canvas.
    pub fn clear(&mut self, argb: u32)
        requires
            old(self).wf(),
        ensures
            painted(*old(self), *final(self), |px: int, py: int| true, argb),
    {
        let w = self.width;
        let h = self.height;
        self.rect(0, 0, w, h, argb);
        proof {
            lemma_paint_same(
                *old(self),
                *self,
                rect_shape(0, 0, w as int, h as int),
                |px: int, py: int| true,
                argb,
            );
        }
    }
}

/// A disc of radius `r` centred at (`cx`, `cy`); a single pixel when `r <= 0`.
pub open spec fn disc_shape(cx: int, cy: int, r: int) -> spec_fn(int, int) -> bool {
    |px: int, py: int|
        if r <= 0 {
            px == cx && py == cy
        } else {
            (px - cx) * (px - cx) + (py - cy) * (py - cy) <= r * r
        }
}

/// A point of a disc of positive radius is within the radius on each axis.
proof fn lemma_disc_bounds(a: int, b: int, r: int)
    requires
        r > 0,
        a * a + b * b <= r * r,
    ensures
        -r <= a <= r,
        -r <= b <= r,
{
    assert(-r <= a <= r) by (nonlinear_arith)
        requires
            r > 0,
            a * a + b * b <= r * r,
    ;
    assert(-r <= b <= r) by (nonlinear_arith)
        requires
            r > 0,
            a * a + b * b <= r * r,
    ;
}

impl Canvas {
    /// A rectangle outline of width `t` (clipped): top, bottom, left and right bands.
    pub fn frame(&mut self, x: i32, y: i32, w: i32, h: i32, t: i32, argb: u32)
        requires
            old(self).wf(),
            fits(x + w),
            fits(y + h),
            fits(x + t),
            fits(y + t),
            fits(x + w - t),
            fits(y + h - t),
        ensures
            painted(
                *old(self),
                *final(self),
                frame_shape(x as int, y as int, w as int, h as int, t as int),
                argb,
            ),
    {
        let ghost s0 = *self;
        self.rect(x, y, w, t, argb);
        let ghost s1 = *self;
        self.rect(x, y + h - t, w, t, argb);
        let ghost s2 = *self;
        self.rect(x, y, t, h, argb);
        let ghost s3 = *self;
        self.rect(x + w - t, y, t, h, argb);
        proof {
            let (xi, yi, wi, hi, ti) = (x as int, y as int, w as int, h as int, t as int);
            let a = rect_shape(xi, yi, wi, ti);
            let b = rect_shape(xi, yi + hi - ti, wi, ti);
            let c = rect_shape(xi, yi, ti, hi);
            let d = rect_shape(xi + wi - ti, yi, ti, hi);
            let ab = |px: int, py: int| a(px, py) || b(px, py);
            let abc = |px: int, py: int| ab(px, py) || c(px, py);
            lemma_paint_union(s0, s1, s2, a, b, ab, argb);
            lemma_paint_union(s0, s2, s3, ab, c, abc, argb);
            lemma_paint_union(s0, s3, *self, abc, d, frame_shape(xi, yi, wi, hi, ti), argb);
        }
    }

    /// A crosshair marker centred at (`x`, `y`): bars of arm length `arm` through the
    /// centre and a 7 × 7 square outline around it.
    pub fn crosshair(&mut self, x: i32, y: i32, arm: i32, argb: u32)
        requires
            old(self).wf(),
            fits(arm * 2),
            fits(arm * 2 + 1),
            fits(x - arm),
            fits(y - arm),
            fits(x + arm + 1),
            fits(y + arm + 1),
            fits(x - 3),
            fits(y - 3),
            fits(x + 4),
            fits(y + 4),
        ensures
            painted(*old(self), *final(self), crosshair_shape(x as int, y as int, arm as int), argb),
    {
        let ghost s0 = *self;
        self.rect(x - arm, y, arm * 2 + 1, 1, argb);
        let ghost s1 = *self;
        self.rect(x, y - arm, 1, arm * 2 + 1, argb);
        let ghost s2 = *self;
        self.frame(x - 3, y - 3, 7, 7, 1, argb);
        proof {
            let (xi, yi, ai) = (x as int, y as int, arm as int);
            let a = rect_shape(xi - ai, yi, ai * 2 + 1, 1);
            let b = rect_shape(xi, yi - ai, 1, ai * 2 + 1);
            let ab = |px: int, py: int| a(px, py) || b(px, py);
            lemma_paint_union(s0, s1, s2, a, b, ab, argb);
            lemma_paint_union(
                s0,
                s2,
                *self,
                ab,
                frame_shape(xi - 3, yi - 3, 7, 7, 1),
                crosshair_shape(xi, yi, ai),
                argb,
            );
        }
    }

    /// A filled disc of radius `r` centred at (`cx`, `cy`), the ink nib; `r <= 0` draws
    /// a single pixel.
    pub fn disc(&mut self, cx: i32, cy: i32, r: i32, argb: u32)
        requires
            old(self).wf(),
            r <= 0 || 2 * r * r <= i32::MAX,
            r <= 0 || (fits(cx - r) && fits(cx + r) && fits(cy - r) && fits(cy + r)),
        ensures
            painted(*old(self), *final(self), disc_shape(cx as int, cy as int, r as int), argb),
    {
        if r <= 0 {
            self.put(cx, cy, argb);
            return;
        }
        let ghost start = *self;
        proof {
            assert(r * r <= 2 * r * r) by (nonlinear_arith)
                requires
                    r > 0,
            ;
            assert(r < 40000) by (nonlinear_arith)
                requires
                    r > 0,
                    2 * r * r <= i32::MAX,
            ;
        }
        let r2 = r * r;
        let mut dy = -r;
        let ghost inside = disc_shape(cx as int, cy as int, r as int);
        proof {
            let first = |px: int, py: int| inside(px, py) && py - cy < dy;
            assert forall|px: int, py: int| !(#[trigger] first(px, py)) by {
                if inside(px, py) {
                    lemma_disc_bounds(px - cx, py - cy, r as int);
                }
            }
            lemma_paint_nothing(start, first, argb);
        }
        while dy <= r
            invariant
                self.wf(),
                0 < r,
                2 * r * r <= i32::MAX,
                r < 40000,
                r2 == r * r,
                fits(cx - r) && fits(cx + r) && fits(cy - r) && fits(cy + r),
                -r <= dy <= r + 1,
                inside == disc_shape(cx as int, cy as int, r as int),
                painted(start, *self, |px: int, py: int| inside(px, py) && py - cy < dy, argb),
            decreases r + 1 - dy,
        {
            let mut dx = -r;
            proof {
                assert forall|px: int, py: int| #[trigger] inside(px, py) implies px - cx >= dx by {
                    lemma_disc_bounds(px - cx, py - cy, r as int);
                }
                lemma_paint_same(
                    start,
                    *self,
                    |px: int, py: int| inside(px, py) && py - cy < dy,
                    |px: int, py: int| inside(px, py) && (py - cy < dy || (py - cy == dy && px
                        - cx < dx)),
                    argb,
                );
            }
            while dx <= r
                invariant
                    self.wf(),
                    0 < r,
                    2 * r * r <= i32::MAX,
                    r < 40000,
                    r2 == r * r,
                    fits(cx - r) && fits(cx + r) && fits(cy - r) && fits(cy + r),
                    -r <= dy <= r,
                    -r <= dx <= r + 1,
                    inside == disc_shape(cx as int, cy as int, r as int),
                    painted(
                        start,
                        *self,
                        |px: int, py: int| inside(px, py) && (py - cy < dy || (py - cy == dy && px
                            - cx < dx)),
                        argb,
                    ),
                decreases r + 1 - dx,
            {
                proof {
                    assert(0 <= dx * dx <= r * r && 0 <= dy * dy <= r * r && dx * dx + dy * dy <= 2
                        * r * r) by (nonlinear_arith)
                        requires
                            -r <= dx <= r,
                            -r <= dy <= r,
                    ;
                }
                let ghost before = *self;
                let ghost cur = |px: int, py: int| inside(px, py) && (py - cy < dy || (py - cy
                    == dy && px - cx < dx));
                let ghost next = |px: int, py: int| inside(px, py) && (py - cy < dy || (py - cy
                    == dy && px - cx < dx + 1));
                if dx * dx + dy * dy <= r2 {
                    self.put(cx + dx, cy + dy, argb);
                    proof {
                        lemma_paint_union(
                            start,
                            before,
                            *self,
                            cur,
                            |px: int, py: int| px == cx + dx && py == cy + dy,
                            next,
                            argb,
                        );
                    }
                } else {
                    proof {
                        lemma_paint_same(start, *self, cur, next, argb);
                    }
                }
                dx += 1;
            }
            proof {
                assert forall|px: int, py: int| #[trigger] inside(px, py) && py - cy == dy implies px
                    - cx < dx by {
                    lemma_disc_bounds(px - cx, py - cy, r as int);
                }
                lemma_paint_same(
                    start,
                    *self,
                    |px: int, py: int| inside(px, py) && (py - cy < dy || (py - cy == dy && px
                        - cx < dx)),
                    |px: int, py: int| inside(px, py) && py - cy < dy + 1,
                    argb,
                );
            }
            dy += 1;
        }
        proof {
            assert forall|px: int, py: int| #[trigger] inside(px, py) implies py - cy < dy by {
                lemma_disc_bounds(px - cx, py - cy, r as int);
            }
            lemma_paint_same(
                start,
                *self,
                |px: int, py: int| inside(px, py) && py - cy < dy,
                inside,
                argb,
            );
        }
    }
}

/// One step of the Bresenham walk from (`x`, `y`) with error term `err`, for the run
/// `dx` = |x1 - x0|, rise `dy` = -|y1 - y0| and directions `sx`, `sy`.
pub open spec fn bresenham_step(
    x: int,
    y: int,
    err: int,
    dx: int,
    dy: int,
    sx: int,
    sy: int,
) -> (int, int, int) {
    let e2 = 2 * err;
    let (x1, err1) = if e2 >= dy {
        (x + sx, err + dy)
    } else {
        (x, err)
    };
    if e2 <= dx {
        (x1, y + sy, err1 + dx)
    } else {
        (x1, y, err1)
    }
}

/// The pixels the Bresenham walk visits from (`x`, `y`) with error `err` until it reaches
/// (`x1`, `y1`), taking at most `n` more pixels.
pub open spec fn bresenham_from(
    x: int,
    y: int,
    err: int,
    x1: int,
    y1: int,
    dx: int,
    dy: int,
    sx: int,
    sy: int,
    n: nat,
) -> Set<(int, int)>
    decreases n,
{
    if n == 0 {
        Set::empty()
    } else if x == x1 && y == y1 {
        set![(x, y)]
    } else {
        let (nx, ny, ne) = bresenham_step(x, y, err, dx, dy, sx, sy);
        bresenham_from(nx, ny, ne, x1, y1, dx, dy, sx, sy, (n - 1) as nat).insert((x, y))
    }
}

/// The pixels of the 1px Bresenham line from (`x0`, `y0`) to (`x1`, `y1`), both ends
/// included.
pub open spec fn line_pixels(x0: int, y0: int, x1: int, y1: int) -> Set<(int, int)> {
    let dx = if x1 >= x0 {
        x1 - x0
    } else {
        x0 - x1
    };
    let dy = if y1 >= y0 {
        y0 - y1
    } else {
        y1 - y0
    };
    let sx: int = if x0 < x1 {
        1
    } else {
        -1
    };
    let sy: int = if y0 < y1 {
        1
    } else {
        -1
    };
    bresenham_from(x0, y0, dx + dy, x1, y1, dx, dy, sx, sy, (dx - dy + 1) as nat)
}

/// The walk's error term after `a` steps along x and `b` along y; at most `dx` and
/// `-dy` of each, and the walk stops there.
proof fn lemma_bresenham_progress(err: int, a: int, b: int, d: int, e: int)
    requires
        0 <= a <= d,
        0 <= b <= e,
        err == d - e - a * e + b * d,
    ensures
        a == d && b < e ==> 2 * err < -e,
        b == e && a < d ==> 2 * err > d,
        (a + 1) * e == a * e + e,
        (b + 1) * d == b * d + d,
{
    assert(a == d && b < e ==> 2 * err < -e) by (nonlinear_arith)
        requires
            0 <= a <= d,
            0 <= b <= e,
            err == d - e - a * e + b * d,
    ;
    assert(b == e && a < d ==> 2 * err > d) by (nonlinear_arith)
        requires
            0 <= a <= d,
            0 <= b <= e,
            err == d - e - a * e + b * d,
    ;
    assert((a + 1) * e == a * e + e) by (nonlinear_arith);
    assert((b + 1) * d == b * d + d) by (nonlinear_arith);
}

impl Canvas {
    /// A 1px line (Bresenham) from (`x0`, `y0`) to (`x1`, `y1`), clipped.
    pub fn line(&mut self, x0: i32, y0: i32, x1: i32, y1: i32, argb: u32)
        requires
            old(self).wf(),
            -(i32::MAX / 4) <= x1 - x0 <= i32::MAX / 4,
            -(i32::MAX / 4) <= y1 - y0 <= i32::MAX / 4,
        ensures
            painted(
                *old(self),
                *final(self),
                |px: int, py: int| line_pixels(x0 as int, y0 as int, x1 as int, y1 as int).contains(
                    (px, py),
                ),
                argb,
            ),
    {
        let dx = if x1 >= x0 {
            x1 - x0
        } else {
            x0 - x1
        };
        let dy = if y1 >= y0 {
            y0 - y1
        } else {
            y1 - y0
        };
        let sx: i32 = if x0 < x1 {
            1
        } else {
            -1
        };
        let sy: i32 = if y0 < y1 {
            1
        } else {
            -1
        };
        let ghost d = dx as int;
        let ghost e = -dy;
        let ghost full = line_pixels(x0 as int, y0 as int, x1 as int, y1 as int);
        let ghost start = *self;
        let mut x = x0;
        let mut y = y0;
        let mut err = dx + dy;
        let ghost mut a: int = 0;
        let ghost mut b: int = 0;
        let ghost mut n: nat = (dx - dy + 1) as nat;
        let ghost mut done: Set<(int, int)> = Set::empty();
        proof {
            lemma_paint_nothing(start, |px: int, py: int| done.contains((px, py)), argb);
        }
        loop
            invariant
                self.wf(),
                d == dx,
                e == -dy,
                0 <= d <= i32::MAX / 4,
                0 <= e <= i32::MAX / 4,
                sx == (if x0 < x1 {
                    1int
                } else {
                    -1int
                }),
                sy == (if y0 < y1 {
                    1int
                } else {
                    -1int
                }),
                sx == 1 ==> x1 - x0 == d && x == x0 + a,
                sx == -1 ==> x0 - x1 == d && x == x0 - a,
                sy == 1 ==> y1 - y0 == e && y == y0 + b,
                sy == -1 ==> y0 - y1 == e && y == y0 - b,
                0 <= a <= d,
                0 <= b <= e,
                err == d - e - a * e + b * d,
                -2 * e <= err <= 2 * d,
                n >= (d - a) + (e - b) + 1,
                full == line_pixels(x0 as int, y0 as int, x1 as int, y1 as int),
                done + bresenham_from(x as int, y as int, err as int, x1 as int, y1 as int, d, -e, sx as int, sy as int, n) == full,
                painted(start, *self, |px: int, py: int| done.contains((px, py)), argb),
            ensures
                painted(start, *self, |px: int, py: int| full.contains((px, py)), argb),
            decreases (d - a) + (e - b),
        {
            let ghost before = *self;
            self.put(x, y, argb);
            proof {
                lemma_paint_union(
                    start,
                    before,
                    *self,
                    |px: int, py: int| done.contains((px, py)),
                    |px: int, py: int| px == x && py == y,
                    |px: int, py: int| done.insert((x as int, y as int)).contains((px, py)),
                    argb,
                );
                done = done.insert((x as int, y as int));
            }
            if x == x1 && y == y1 {
                proof {
                    assert(done =~= full);
                    lemma_paint_same(
                        start,
                        *self,
                        |px: int, py: int| done.contains((px, py)),
                        |px: int, py: int| full.contains((px, py)),
                        argb,
                    );
                }
                break;
            }
            proof {
                lemma_bresenham_progress(err as int, a, b, d, e);
                assert(a == d ==> x == x1);
                assert(b == e ==> y == y1);
            }
            let e2 = 2 * err;
            let ghost (nx, ny, ne) = bresenham_step(x as int, y as int, err as int, d, -e, sx as int, sy as int);
            if e2 >= dy {
                err += dy;
                x += sx;
                proof {
                    a = a + 1;
                }
            }
            if e2 <= dx {
                err += dx;
                y += sy;
                proof {
                    b = b + 1;
                }
            }
            proof {
                assert(x == nx && y == ny && err == ne);
                n = (n - 1) as nat;
            }
        }
    }
}

/// The Bresenham walk reaches its end point within its step budget.
proof fn lemma_walk_reaches(
    x0: int,
    y0: int,
    x1: int,
    y1: int,
    d: int,
    e: int,
    sx: int,
    sy: int,
    x: int,
    y: int,
    err: int,
    a: int,
    b: int,
    n: nat,
)
    requires
        sx == 1 || sx == -1,
        sy == 1 || sy == -1,
        sx == 1 ==> x1 - x0 == d && x == x0 + a,
        sx == -1 ==> x0 - x1 == d && x == x0 - a,
        sy == 1 ==> y1 - y0 == e && y == y0 + b,
        sy == -1 ==> y0 - y1 == e && y == y0 - b,
        0 <= a <= d,
        0 <= b <= e,
        err == d - e - a * e + b * d,
        n >= (d - a) + (e - b) + 1,
    ensures
        bresenham_from(x, y, err, x1, y1, d, -e, sx, sy, n).contains((x1, y1)),
        bresenham_from(x, y, err, x1, y1, d, -e, sx, sy, n).contains((x, y)),
    decreases (d - a) + (e - b),
{
    if !(x == x1 && y == y1) {
        lemma_bresenham_progress(err, a, b, d, e);
        let (nx, ny, ne) = bresenham_step(x, y, err, d, -e, sx, sy);
        let e2 = 2 * err;
        let na = if e2 >= -e {
            a + 1
        } else {
            a
        };
        let nb = if e2 <= d {
            b + 1
        } else {
            b
        };
        lemma_walk_reaches(x0, y0, x1, y1, d, e, sx, sy, nx, ny, ne, na, nb, (n - 1) as nat);
    }
}

/// A line holds both of its end points.
pub proof fn lemma_line_ends(x0: int, y0: int, x1: int, y1: int)
    ensures
        line_pixels(x0, y0, x1, y1).contains((x0, y0)),
        line_pixels(x0, y0, x1, y1).contains((x1, y1)),
{
    let d = if x1 >= x0 {
        x1 - x0
    } else {
        x0 - x1
    };
    let e = if y1 >= y0 {
        y1 - y0
    } else {
        y0 - y1
    };
    let sx: int = if x0 < x1 {
        1
    } else {
        -1
    };
    let sy: int = if y0 < y1 {
        1
    } else {
        -1
    };
    lemma_walk_reaches(x0, y0, x1, y1, d, e, sx, sy, x0, y0, d - e, 0, 0, (d + e + 1) as nat);
}

/// The eight symmetric points (±`x`, ±`y`) and (±`y`, ±`x`) around (`cx`, `cy`).
pub open spec fn octant_points(cx: int, cy: int, x: int, y: int) -> Set<(int, int)> {
    set![
        (cx + x, cy + y),
        (cx + y, cy + x),
        (cx - x, cy + y),
        (cx - y, cy + x),
        (cx + x, cy - y),
        (cx + y, cy - x),
        (cx - x, cy - y),
        (cx - y, cy - x),
    ]
}

/// The pixels the midpoint circle walk plots from octant position (`x`, `y`) with
/// decision value `err`, until `x < y`.
pub open spec fn midpoint_from(cx: int, cy: int, x: int, y: int, err: int) -> Set<(int, int)>
    decreases x - y + 2,
{
    if x < y {
        Set::empty()
    } else {
        let ny = y + 1;
        let (nx, ne) = if err < 0 {
            (x, err + 2 * ny + 1)
        } else {
            (x - 1, err + 2 * (ny - (x - 1)) + 1)
        };
        octant_points(cx, cy, x, y).union(midpoint_from(cx, cy, nx, ny, ne))
    }
}

/// The pixels of a 1px circle of radius `r` centred at (`cx`, `cy`) (midpoint
/// algorithm); the centre pixel alone when `r <= 0`.
pub open spec fn ring_pixels(cx: int, cy: int, r: int) -> Set<(int, int)> {
    if r <= 0 {
        set![(cx, cy)]
    } else {
        midpoint_from(cx, cy, r, 0, 1 - r)
    }
}

impl Canvas {
    /// Plots the eight symmetric points of one midpoint step.
    fn put8(&mut self, cx: i32, cy: i32, x: i32, y: i32, argb: u32)
        requires
            old(self).wf(),
            0 <= y <= x,
            fits(cx - x) && fits(cx + x) && fits(cy - x) && fits(cy + x),
        ensures
            painted(
                *old(self),
                *final(self),
                |px: int, py: int| octant_points(cx as int, cy as int, x as int, y as int).contains(
                    (px, py),
                ),
                argb,
            ),
    {
        let ghost (c, d, u, v) = (cx as int, cy as int, x as int, y as int);
        let ghost s0 = *self;
        self.put(cx + x, cy + y, argb);
        let ghost s1 = *self;
        let ghost p1 = set![(c + u, d + v)];
        self.put(cx + y, cy + x, argb);
        let ghost s2 = *self;
        let ghost p2 = p1.insert((c + v, d + u));
        proof {
            lemma_paint_union(s0, s1, s2, |px: int, py: int| px == c + u && py == d + v,
                |px: int, py: int| px == c + v && py == d + u,
                |px: int, py: int| p2.contains((px, py)), argb);
        }
        self.put(cx - x, cy + y, argb);
        let ghost s3 = *self;
        let ghost p3 = p2.insert((c - u, d + v));
        proof {
            lemma_paint_union(s0, s2, s3, |px: int, py: int| p2.contains((px, py)),
                |px: int, py: int| px == c - u && py == d + v,
                |px: int, py: int| p3.contains((px, py)), argb);
        }
        self.put(cx - y, cy + x, argb);
        let ghost s4 = *self;
        let ghost p4 = p3.insert((c - v, d + u));
        proof {
            lemma_paint_union(s0, s3, s4, |px: int, py: int| p3.contains((px, py)),
                |px: int, py: int| px == c - v && py == d + u,
                |px: int, py: int| p4.contains((px, py)), argb);
        }
        self.put(cx + x, cy - y, argb);
        let ghost s5 = *self;
        let ghost p5 = p4.insert((c + u, d - v));
        proof {
            lemma_paint_union(s0, s4, s5, |px: int, py: int| p4.contains((px, py)),
                |px: int, py: int| px == c + u && py == d - v,
                |px: int, py: int| p5.contains((px, py)), argb);
        }
        self.put(cx + y, cy - x, argb);
        let ghost s6 = *self;
        let ghost p6 = p5.insert((c + v, d - u));
        proof {
            lemma_paint_union(s0, s5, s6, |px: int, py: int| p5.contains((px, py)),
                |px: int, py: int| px == c + v && py == d - u,
                |px: int, py: int| p6.contains((px, py)), argb);
        }
        self.put(cx - x, cy - y, argb);
        let ghost s7 = *self;
        let ghost p7 = p6.insert((c - u, d - v));
        proof {
            lemma_paint_union(s0, s6, s7, |px: int, py: int| p6.contains((px, py)),
                |px: int, py: int| px == c - u && py == d - v,
                |px: int, py: int| p7.contains((px, py)), argb);
        }
        self.put(cx - y, cy - x, argb);
        proof {
            let p8 = p7.insert((c - v, d - u));
            assert(p8 =~= octant_points(c, d, u, v));
            lemma_paint_union(s0, s7, *self, |px: int, py: int| p7.contains((px, py)),
                |px: int, py: int| px == c - v && py == d - u,
                |px: int, py: int| octant_points(c, d, u, v).contains((px, py)), argb);
        }
    }

    /// A 1px circle outline (midpoint algorithm, clipped) of radius `r` centred at
    /// (`cx`, `cy`); `r <= 0` draws the centre pixel.
    pub fn ring(&mut self, cx: i32, cy: i32, r: i32, argb: u32)
        requires
            old(self).wf(),
            r <= 0 || 2 * (r + 2) * (r + 2) <= i32::MAX,
            r <= 0 || (fits(cx - r) && fits(cx + r) && fits(cy - r) && fits(cy + r)),
        ensures
            painted(
                *old(self),
                *final(self),
                |px: int, py: int| ring_pixels(cx as int, cy as int, r as int).contains((px, py)),
                argb,
            ),
    {
        if r <= 0 {
            self.put(cx, cy, argb);
            proof {
                lemma_paint_same(
                    *old(self),
                    *self,
                    |px: int, py: int| px == cx && py == cy,
                    |px: int, py: int| ring_pixels(cx as int, cy as int, r as int).contains(
                        (px, py),
                    ),
                    argb,
                );
            }
            return;
        }
        proof {
            assert(r < 40000) by (nonlinear_arith)
                requires
                    r > 0,
                    2 * (r + 2) * (r + 2) <= i32::MAX,
            ;
        }
        let ghost start = *self;
        let ghost full = ring_pixels(cx as int, cy as int, r as int);
        let ghost mut done: Set<(int, int)> = Set::empty();
        let mut x: i32 = r;
        let mut y: i32 = 0;
        let mut err: i32 = 1 - r;
        proof {
            lemma_paint_nothing(start, |px: int, py: int| done.contains((px, py)), argb);
        }
        while x >= y
            invariant
                self.wf(),
                0 < r < 40000,
                2 * (r + 2) * (r + 2) <= i32::MAX,
                fits(cx - r) && fits(cx + r) && fits(cy - r) && fits(cy + r),
                0 <= y <= x + 2,
                x <= r,
                -1 <= x,
                err == (y + 1) * (y + 1) + x * x - x - r * r,
                full == ring_pixels(cx as int, cy as int, r as int),
                done + midpoint_from(cx as int, cy as int, x as int, y as int, err as int) == full,
                painted(start, *self, |px: int, py: int| done.contains((px, py)), argb),
            decreases x - y + 2,
        {
            let ghost before = *self;
            let ghost here = octant_points(cx as int, cy as int, x as int, y as int);
            self.put8(cx, cy, x, y, argb);
            proof {
                lemma_paint_union(
                    start,
                    before,
                    *self,
                    |px: int, py: int| done.contains((px, py)),
                    |px: int, py: int| here.contains((px, py)),
                    |px: int, py: int| done.union(here).contains((px, py)),
                    argb,
                );
            }
            let ghost (ox, oy, oe) = (x as int, y as int, err as int);
            proof {
                assert(0 <= (y + 2) * (y + 2) <= (r + 2) * (r + 2)) by (nonlinear_arith)
                    requires
                        0 <= y <= r,
                ;
                assert(0 <= x * x <= r * r) by (nonlinear_arith)
                    requires
                        0 <= x <= r,
                ;
                assert(r * r <= (r + 2) * (r + 2)) by (nonlinear_arith)
                    requires
                        0 <= r,
                ;
                assert((y + 2) * (y + 2) == (y + 1) * (y + 1) + 2 * y + 3) by (nonlinear_arith);
                assert((x - 1) * (x - 1) == x * x - 2 * x + 1) by (nonlinear_arith);
                assert(0 <= (x - 1) * (x - 1) <= r * r) by (nonlinear_arith)
                    requires
                        0 <= x <= r,
                        1 <= r,
                ;
            }
            y += 1;
            if err < 0 {
                err += 2 * y + 1;
            } else {
                x -= 1;
                proof {
                    assert(x * x == (ox - 1) * (ox - 1));
                    assert((y + 1) * (y + 1) == (oy + 2) * (oy + 2));
                    assert(err + 2 * (y - x) + 1 == (y + 1) * (y + 1) + x * x - x - r * r);
                    assert((y + 1) * (y + 1) + x * x - x - r * r <= 2 * (r + 2) * (r + 2)) by (
                    nonlinear_arith)
                        requires
                            0 <= (y + 1) * (y + 1) <= (r + 2) * (r + 2),
                            0 <= x * x <= r * r,
                            r * r <= (r + 2) * (r + 2),
                            -1 <= x,
                    ;
                }
                err += 2 * (y - x) + 1;
            }
            proof {
                assert(done.union(here) + midpoint_from(cx as int, cy as int, x as int, y as int, err as int) =~= full);
                done = done.union(here);
            }
        }
        proof {
            assert(done =~= full);
            lemma_paint_same(
                start,
                *self,
                |px: int, py: int| done.contains((px, py)),
                |px: int, py: int| full.contains((px, py)),
                argb,
            );
        }
    }
}

/// Integer division rounding toward zero, as `i32` division does.
pub open spec fn tdiv(a: int, b: int) -> int {
    if a >= 0 {
        a / b
    } else {
        -((-a) / b)
    }
}

/// The number of disc steps of a thick line: the longer axis run, at least 1.
pub open spec fn thick_steps(x0: int, y0: int, x1: int, y1: int) -> int {
    let adx = if x1 >= x0 {
        x1 - x0
    } else {
        x0 - x1
    };
    let ady = if y1 >= y0 {
        y1 - y0
    } else {
        y0 - y1
    };
    let m = if adx >= ady {
        adx
    } else {
        ady
    };
    if m >= 1 {
        m
    } else {
        1
    }
}

/// A round-capped thick line: discs of radius `r` at `steps + 1` evenly spaced points
/// from (`x0`, `y0`) to (`x1`, `y1`).
pub open spec fn thick_shape(x0: int, y0: int, x1: int, y1: int, r: int) -> spec_fn(int, int) -> bool {
    |px: int, py: int|
        exists|i: int|
            0 <= i <= thick_steps(x0, y0, x1, y1) && #[trigger] disc_shape(
                x0 + tdiv((x1 - x0) * i, thick_steps(x0, y0, x1, y1)),
                y0 + tdiv((y1 - y0) * i, thick_steps(x0, y0, x1, y1)),
                r,
            )(px, py)
}

/// A fraction `i / s` of the run `d` stays within the run.
proof fn lemma_tdiv_within(d: int, i: int, s: int)
    requires
        0 <= i <= s,
        0 < s,
        -s <= d <= s,
    ensures
        d >= 0 ==> 0 <= tdiv(d * i, s) <= d,
        d < 0 ==> d <= tdiv(d * i, s) <= 0,
        -(s * s) <= d * i <= s * s,
{
    if d >= 0 {
        assert(0 <= d * i <= d * s) by (nonlinear_arith)
            requires
                0 <= i <= s,
                0 <= d,
        ;
        assert(0 <= (d * i) / s <= d) by (nonlinear_arith)
            requires
                0 <= d * i <= d * s,
                0 < s,
        ;
    } else {
        assert(0 <= (-d) * i <= (-d) * s) by (nonlinear_arith)
            requires
                0 <= i <= s,
                d < 0,
        ;
        assert(0 <= ((-d) * i) / s <= -d) by (nonlinear_arith)
            requires
                0 <= (-d) * i <= (-d) * s,
                0 < s,
        ;
        assert(-(d * i) == (-d) * i) by (nonlinear_arith);
    }
    assert(-(s * s) <= d * i <= s * s) by (nonlinear_arith)
        requires
            0 <= i <= s,
            -s <= d <= s,
    ;
}

impl Canvas {
    /// A round-capped thick line for one pen motion step: discs of radius `r` walked along
    /// the span, so a fast flick still lays down a continuous stroke.
    pub fn thick_line(&mut self, x0: i32, y0: i32, x1: i32, y1: i32, r: i32, argb: u32)
        requires
            old(self).wf(),
            -46340 <= x1 - x0 <= 46340,
            -46340 <= y1 - y0 <= 46340,
            r <= 0 || 2 * r * r <= i32::MAX,
            r <= 0 || (fits(x0 - r) && fits(x0 + r) && fits(y0 - r) && fits(y0 + r)),
            r <= 0 || (fits(x1 - r) && fits(x1 + r) && fits(y1 - r) && fits(y1 + r)),
        ensures
            painted(
                *old(self),
                *final(self),
                thick_shape(x0 as int, y0 as int, x1 as int, y1 as int, r as int),
                argb,
            ),
    {
        let adx = if x1 >= x0 {
            x1 - x0
        } else {
            x0 - x1
        };
        let ady = if y1 >= y0 {
            y1 - y0
        } else {
            y0 - y1
        };
        let mut steps = if adx >= ady {
            adx
        } else {
            ady
        };
        if steps < 1 {
            steps = 1;
        }
        let ghost s = thick_steps(x0 as int, y0 as int, x1 as int, y1 as int);
        assert(steps == s);
        let ghost start = *self;
        let ghost shape = thick_shape(x0 as int, y0 as int, x1 as int, y1 as int, r as int);
        let ghost sofar = |px: int, py: int|
            exists|k: int|
                0 <= k < 0 && #[trigger] disc_shape(
                    x0 + tdiv((x1 - x0) * k, s),
                    y0 + tdiv((y1 - y0) * k, s),
                    r as int,
                )(px, py);
        proof {
            lemma_paint_nothing(start, sofar, argb);
        }
        let mut i: i32 = 0;
        while i <= steps
            invariant
                self.wf(),
                steps == s,
                1 <= s <= 46340,
                -s <= x1 - x0 <= s,
                -s <= y1 - y0 <= s,
                0 <= i <= s + 1,
                r <= 0 || 2 * r * r <= i32::MAX,
                r <= 0 || (fits(x0 - r) && fits(x0 + r) && fits(y0 - r) && fits(y0 + r)),
                r <= 0 || (fits(x1 - r) && fits(x1 + r) && fits(y1 - r) && fits(y1 + r)),
                painted(
                    start,
                    *self,
                    |px: int, py: int|
                        exists|k: int|
                            0 <= k < i && #[trigger] disc_shape(
                                x0 + tdiv((x1 - x0) * k, s),
                                y0 + tdiv((y1 - y0) * k, s),
                                r as int,
                            )(px, py),
                    argb,
                ),
            decreases s + 1 - i,
        {
            proof {
                lemma_tdiv_within((x1 - x0) as int, i as int, s);
                lemma_tdiv_within((y1 - y0) as int, i as int, s);
                assert(s * s <= 46340 * 46340) by (nonlinear_arith)
                    requires
                        1 <= s <= 46340,
                ;
            }
            let ddx = x1 - x0;
            let ddy = y1 - y0;
            assert(-(s * s) <= ddx * i <= s * s);
            assert(-(s * s) <= ddy * i <= s * s);
            let x = x0 + ddx * i / steps;
            let y = y0 + ddy * i / steps;
            assert(x == x0 + tdiv((x1 - x0) * i, s));
            assert(y == y0 + tdiv((y1 - y0) * i, s));
            let ghost before = *self;
            self.disc(x, y, r, argb);
            proof {
                let cur = |px: int, py: int|
                    exists|k: int|
                        0 <= k < i && #[trigger] disc_shape(
                            x0 + tdiv((x1 - x0) * k, s),
                            y0 + tdiv((y1 - y0) * k, s),
                            r as int,
                        )(px, py);
                let next = |px: int, py: int|
                    exists|k: int|
                        0 <= k < i + 1 && #[trigger] disc_shape(
                            x0 + tdiv((x1 - x0) * k, s),
                            y0 + tdiv((y1 - y0) * k, s),
                            r as int,
                        )(px, py);
                let one = disc_shape(x as int, y as int, r as int);
                assert forall|px: int, py: int| #[trigger] next(px, py) == (cur(px, py) || one(
                    px,
                    py,
                )) by {
                    if next(px, py) {
                        let k = choose|k: int|
                            0 <= k < i + 1 && #[trigger] disc_shape(
                                x0 + tdiv((x1 - x0) * k, s),
                                y0 + tdiv((y1 - y0) * k, s),
                                r as int,
                            )(px, py);
                        if k < i {
                            assert(cur(px, py));
                        }
                    }
                    if one(px, py) {
                        assert(disc_shape(
                            x0 + tdiv((x1 - x0) * i, s),
                            y0 + tdiv((y1 - y0) * i, s),
                            r as int,
                        )(px, py));
                    }
                }
                lemma_paint_union(start, before, *self, cur, one, next, argb);
            }
            i += 1;
        }
        proof {
            lemma_paint_same(
                start,
                *self,
                |px: int, py: int|
                    exists|k: int|
                        0 <= k < i && #[trigger] disc_shape(
                            x0 + tdiv((x1 - x0) * k, s),
                            y0 + tdiv((y1 - y0) * k, s),
                            r as int,
                        )(px, py),
                shape,
                argb,
            );
        }
    }
}

/// `d * s` divided by `s` (rounding toward zero) is `d`.
proof fn lemma_tdiv_whole(d: int, s: int)
    requires
        s > 0,
    ensures
        tdiv(d * s, s) == d,
        tdiv(0 * s, s) == 0,
{
    if d >= 0 {
        assert(d * s >= 0) by (nonlinear_arith)
            requires
                d >= 0,
                s > 0,
        ;
        vstd::arithmetic::div_mod::lemma_div_by_multiple(d, s);
    } else {
        assert(d * s < 0 && -(d * s) == (-d) * s) by (nonlinear_arith)
            requires
                d < 0,
                s > 0,
        ;
        vstd::arithmetic::div_mod::lemma_div_by_multiple(-d, s);
    }
    assert(0 * s == 0);
}

/// A thick line is capped by a full disc at each end: every pixel of the disc of radius
/// `r` around either endpoint belongs to the line's shape.
pub proof fn lemma_thick_caps(x0: int, y0: int, x1: int, y1: int, r: int, px: int, py: int)
    ensures
        disc_shape(x0, y0, r)(px, py) ==> thick_shape(x0, y0, x1, y1, r)(px, py),
        disc_shape(x1, y1, r)(px, py) ==> thick_shape(x0, y0, x1, y1, r)(px, py),
{
    let s = thick_steps(x0, y0, x1, y1);
    assert(s >= 1);
    lemma_tdiv_whole(x1 - x0, s);
    lemma_tdiv_whole(y1 - y0, s);
    assert((x1 - x0) * 0 == 0 && (y1 - y0) * 0 == 0);
    assert(tdiv((x1 - x0) * 0, s) == 0);
    assert(tdiv((y1 - y0) * 0, s) == 0);
    if disc_shape(x0, y0, r)(px, py) {
        assert(disc_shape(
            x0 + tdiv((x1 - x0) * 0, s),
            y0 + tdiv((y1 - y0) * 0, s),
            r,
        )(px, py));
    }
    if disc_shape(x1, y1, r)(px, py) {
        assert(x0 + tdiv((x1 - x0) * s, s) == x1);
        assert(y0 + tdiv((y1 - y0) * s, s) == y1);
        assert(disc_shape(
            x0 + tdiv((x1 - x0) * s, s),
            y0 + tdiv((y1 - y0) * s, s),
            r,
        )(px, py));
    }
}

} // verus!
