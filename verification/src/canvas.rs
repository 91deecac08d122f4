//! Software pixel drawing into a `0x00RRGGBB` pixel buffer.
//!
//! A canvas is `width` × `height` pixels laid out row by row, `stride` words per row, so a
//! buffer may carry padding beyond `width` (as some presentation backends require). Pixel
//! `(x, y)` is word `y * stride + x`. Top-left origin, `x` right, `y` down, positions already in
//! pixels. This module holds the integer geometry: solid fills, clipping, and reading and writing
//! single pixels; anti-aliased shapes are blended on top of it by the renderer.
use vstd::prelude::*;

use crate::color::Rgb;
use vstd::arithmetic::div_mod::lemma_fundamental_div_mod_converse;

verus! {

/// An axis-aligned pixel rectangle. Signed so callers can pass rectangles that extend past the
/// canvas edges (in either direction) and rely on clipping.
#[derive(Debug, Clone, Copy, PartialEq, Eq, Structural)]
pub struct PixelRect {
    /// Left edge.
    pub x: i32,
    /// Top edge.
    pub y: i32,
    /// Width in pixels.
    pub width: i32,
    /// Height in pixels.
    pub height: i32,
}

impl PixelRect {
    /// Creates a pixel rectangle.
    pub fn new(x: i32, y: i32, width: i32, height: i32) -> (r: PixelRect)
        ensures
            r == (PixelRect { x, y, width, height }),
    {
        PixelRect { x, y, width, height }
    }
}

/// The packed `0x00RRGGBB` word of `c`.
pub open spec fn word_of(c: Rgb) -> int {
    c.r * 65536 + c.g * 256 + c.b
}

/// Unpacking a written pixel word gives back the color's channels: what
/// [`Canvas::set_pixel`] writes, [`Canvas::pixel`] reads back.
pub proof fn lemma_read_after_write(c: Rgb)
    ensures
        0 <= word_of(c) < 0x1_0000_0000,
        ((word_of(c) as u32) / 65536) % 256 == c.r,
        ((word_of(c) as u32) / 256) % 256 == c.g,
        (word_of(c) as u32) % 256 == c.b,
{
}

/// Whether buffer word `k` is a pixel (not padding, not past the last row) of a `width` ×
/// `height` canvas with `stride` words per row.
pub open spec fn in_canvas(k: int, width: int, height: int, stride: int) -> bool {
    0 <= k < stride * height && k % stride < width
}

/// `a` or `b`, whichever is larger.
pub open spec fn max_int(a: int, b: int) -> int {
    if a >= b {
        a
    } else {
        b
    }
}

/// `a` or `b`, whichever is smaller.
pub open spec fn min_int(a: int, b: int) -> int {
    if a <= b {
        a
    } else {
        b
    }
}

/// `rect` clipped to a canvas of `w` × `h` pixels (as `i32`): `(x0, y0, x1, y1)` with
/// `x0 < x1`, `y0 < y1`, or `None` where nothing of it lies on the canvas. The far edges are
/// computed with `i32` saturation.
pub open spec fn clip_spec(rect: PixelRect, w: int, h: int) -> Option<(int, int, int, int)> {
    if rect.width <= 0 || rect.height <= 0 {
        None
    } else {
        let x0 = max_int(rect.x as int, 0);
        let y0 = max_int(rect.y as int, 0);
        let x1 = min_int(min_int(rect.x + rect.width, i32::MAX as int), w);
        let y1 = min_int(min_int(rect.y + rect.height, i32::MAX as int), h);
        if x0 >= x1 || y0 >= y1 {
            None
        } else {
            Some((x0, y0, x1, y1))
        }
    }
}

/// A pixel buffer with its geometry.
pub struct Canvas {
    buffer: Vec<u32>,
    width: usize,
    height: usize,
    stride: usize,
}

impl Canvas {
    /// The buffer's words.
    pub closed spec fn pixels(self) -> Seq<u32> {
        self.buffer@
    }

    /// Width in pixels.
    pub closed spec fn spec_width(self) -> nat {
        self.width as nat
    }

    /// Height in pixels.
    pub closed spec fn spec_height(self) -> nat {
        self.height as nat
    }

    /// Words per row.
    pub closed spec fn spec_stride(self) -> nat {
        self.stride as nat
    }

    /// A row holds at least `width` words and the buffer holds `height` rows.
    pub closed spec fn wf(self) -> bool {
        &&& self.width <= self.stride
        &&& self.stride * self.height <= self.buffer@.len()
    }

    /// The width as `i32` (truncating, as a cast does).
    pub open spec fn spec_width_i32(self) -> int {
        (self.spec_width() as i32) as int
    }

    /// The height as `i32` (truncating, as a cast does).
    pub open spec fn spec_height_i32(self) -> int {
        (self.spec_height() as i32) as int
    }

    /// The buffer word of pixel `(x, y)`, if that pixel is on the canvas.
    pub open spec fn index_of(self, x: int, y: int) -> Option<int> {
        if 0 <= x < self.spec_width_i32() && 0 <= y < self.spec_height_i32() && y
            * self.spec_stride() + x < self.pixels().len() {
            Some(y * self.spec_stride() + x)
        } else {
            None
        }
    }

    /// Wraps `buffer` as a canvas of `width` × `height` pixels with `stride` words per row
    /// (`stride >= width`, and the buffer holds `height` rows).
    pub fn new(buffer: Vec<u32>, width: usize, height: usize, stride: usize) -> (c: Canvas)
        requires
            stride >= width,
            buffer@.len() >= stride * height,
        ensures
            c.wf(),
            c.pixels() == buffer@,
            c.spec_width() == width,
            c.spec_height() == height,
            c.spec_stride() == stride,
    {
        Canvas { buffer, width, height, stride }
    }

    /// Canvas width in pixels.
    pub fn width(&self) -> (w: usize)
        ensures
            w == self.spec_width(),
    {
        self.width
    }

    /// Canvas height in pixels.
    pub fn height(&self) -> (h: usize)
        ensures
            h == self.spec_height(),
    {
        self.height
    }

    /// The pixel buffer.
    pub fn buffer(&self) -> (b: &[u32])
        ensures
            b@ == self.pixels(),
    {
        self.buffer.as_slice()
    }

    /// Gives the pixel buffer back.
    pub fn into_buffer(self) -> (b: Vec<u32>)
        ensures
            b@ == self.pixels(),
    {
        self.buffer
    }

    /// Fills the whole canvas with a solid color; padding words and words past the last row
    /// keep their values.
    pub fn fill(&mut self, color: Rgb)
        requires
            old(self).wf(),
        ensures
            final(self).wf(),
            final(self).spec_width() == old(self).spec_width(),
            final(self).spec_height() == old(self).spec_height(),
            final(self).spec_stride() == old(self).spec_stride(),
            final(self).pixels().len() == old(self).pixels().len(),
            forall|k: int|
                0 <= k < old(self).pixels().len() ==> #[trigger] final(self).pixels()[k] as int == (
                if in_canvas(
                    k,
                    old(self).spec_width() as int,
                    old(self).spec_height() as int,
                    old(self).spec_stride() as int,
                ) {
                    word_of(color)
                } else {
                    old(self).pixels()[k] as int
                }),
    {
        let packed = color.to_u32();
        let len = self.buffer.len();
        let ghost old_px = self.buffer@;
        let w = self.width;
        let h = self.height;
        let s = self.stride;
        let mut y: usize = 0;
        let mut row_start: usize = 0;
        while y < h
            invariant
                self.width == w,
                self.height == h,
                self.stride == s,
                w <= s,
                s * h <= old_px.len(),
                old_px.len() == len,
                self.buffer@.len() == old_px.len(),
                y <= h,
                row_start == s * y,
                packed == word_of(color),
                forall|k: int|
                    0 <= k < old_px.len() ==> #[trigger] self.buffer@[k] == (if k < row_start && k
                        % (s as int) < w {
                        packed
                    } else {
                        old_px[k]
                    }),
            decreases h - y,
        {
            assert(s * (y + 1) <= s * h && s * (y + 1) == s * y + s) by (nonlinear_arith)
                requires
                    y + 1 <= h,
            ;
            let mut x: usize = 0;
            while x < w
                invariant
                    self.width == w,
                    self.height == h,
                    self.stride == s,
                    w <= s,
                    row_start + s <= s * h <= old_px.len(),
                    old_px.len() == len,
                    self.buffer@.len() == old_px.len(),
                    x <= w,
                    packed == word_of(color),
                    forall|k: int|
                        0 <= k < old_px.len() ==> #[trigger] self.buffer@[k] == (if (k < row_start
                            && k % (s as int) < w) || (row_start <= k < row_start + x) {
                            packed
                        } else {
                            old_px[k]
                        }),
                decreases w - x,
            {
                self.buffer.set(row_start + x, packed);
                x += 1;
            }
            proof {
                assert((y as int) * (s as int) == row_start) by (nonlinear_arith)
                    requires
                        row_start == s * y,
                ;
                assert forall|k: int| 0 <= k < old_px.len() implies #[trigger] self.buffer@[k] == (
                if k < row_start + s && k % (s as int) < w {
                    packed
                } else {
                    old_px[k]
                }) by {
                    if row_start <= k < row_start + s {
                        lemma_fundamental_div_mod_converse(k, s as int, y as int, k - row_start);
                    }
                }
            }
            row_start = row_start + s;
            y += 1;
        }
    }

    /// The width as `i32`.
    pub fn width_i32(&self) -> (w: i32)
        ensures
            w == self.spec_width_i32(),
    {
        self.width as i32
    }

    /// The height as `i32`.
    pub fn height_i32(&self) -> (h: i32)
        ensures
            h == self.spec_height_i32(),
    {
        self.height as i32
    }

    /// Clips `rect` to the canvas bounds: `(x0, y0, x1, y1)` in pixel indices with `x0 < x1`,
    /// `y0 < y1`, or `None` if the rectangle does not overlap the canvas at all.
    pub fn clip_rect(&self, rect: PixelRect) -> (r: Option<(usize, usize, usize, usize)>)
        ensures
            match clip_spec(rect, self.spec_width_i32(), self.spec_height_i32()) {
                Some((x0, y0, x1, y1)) => r == Some((x0 as usize, y0 as usize, x1 as usize, y1 as usize)),
                None => r is None,
            },
    {
        if rect.width <= 0 || rect.height <= 0 {
            return None;
        }
        let x0: i32 = if rect.x >= 0 { rect.x } else { 0 };
        let y0: i32 = if rect.y >= 0 { rect.y } else { 0 };
        let right: i32 = if rect.x > i32::MAX - rect.width { i32::MAX } else { rect.x + rect.width };
        let bottom: i32 = if rect.y > i32::MAX - rect.height {
            i32::MAX
        } else {
            rect.y + rect.height
        };
        let w = self.width_i32();
        let h = self.height_i32();
        let x1: i32 = if right <= w { right } else { w };
        let y1: i32 = if bottom <= h { bottom } else { h };
        if x0 >= x1 || y0 >= y1 {
            return None;
        }
        Some((x0 as usize, y0 as usize, x1 as usize, y1 as usize))
    }

    /// Position in the buffer of pixel `(x, y)`, or `None` off the canvas.
    fn pixel_index(&self, x: i32, y: i32) -> (r: Option<usize>)
        requires
            self.wf(),
        ensures
            match r {
                Some(k) => self.index_of(x as int, y as int) == Some(k as int),
                None => self.index_of(x as int, y as int) is None,
            },
    {
        let wi = self.width_i32();
        let hi = self.height_i32();
        let len = self.buffer.len();
        if x < 0 || y < 0 || x >= wi || y >= hi {
            return None;
        }
        proof {
            let (wd, hd) = (self.width, self.height);
            assert(wi >= 0 ==> wi as usize <= wd) by (bit_vector)
                requires
                    wi == wd as i32,
            ;
            assert(hi >= 0 ==> hi as usize <= hd) by (bit_vector)
                requires
                    hi == hd as i32,
            ;
            let (yy, xx, ss, hh) = (y as int, x as int, self.stride as int, self.height as int);
            assert(yy * ss + xx < ss * hh) by (nonlinear_arith)
                requires
                    0 <= yy < hh,
                    0 <= xx < ss,
            ;
        }
        let index = (y as usize) * self.stride + (x as usize);
        if index < len {
            Some(index)
        } else {
            None
        }
    }

    /// The color of pixel `(x, y)`, or `None` off the canvas.
    pub fn pixel(&self, x: i32, y: i32) -> (c: Option<Rgb>)
        requires
            self.wf(),
        ensures
            match self.index_of(x as int, y as int) {
                Some(k) => c matches Some(p) && p.r == (self.pixels()[k] / 65536) % 256 && p.g == (
                self.pixels()[k] / 256) % 256 && p.b == self.pixels()[k] % 256,
                None => c is None,
            },
    {
        match self.pixel_index(x, y) {
            Some(k) => {
                Some(Rgb::from_u32(self.buffer[k]))
            },
            None => None,
        }
    }

    /// Paints pixel `(x, y)` with `color`; a no-op off the canvas.
    pub fn set_pixel(&mut self, x: i32, y: i32, color: Rgb)
        requires
            old(self).wf(),
        ensures
            final(self).wf(),
            final(self).spec_width() == old(self).spec_width(),
            final(self).spec_height() == old(self).spec_height(),
            final(self).spec_stride() == old(self).spec_stride(),
            match old(self).index_of(x as int, y as int) {
                Some(k) => final(self).pixels() == old(self).pixels().update(
                    k,
                    word_of(color) as u32,
                ),
                None => final(self).pixels() == old(self).pixels(),
            },
    {
        match self.pixel_index(x, y) {
            Some(k) => {
                let word = color.to_u32();
                self.buffer.set(k, word);
            },
            None => {},
        }
    }
}

} // verus!
