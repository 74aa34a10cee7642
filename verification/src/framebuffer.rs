//! The off-screen pixel buffer that the panel is drawn into.
//!
//! A buffer holds one packed word per pixel, row after row from the top,
//! each word made of alpha, red, green and blue from the highest byte down.

use vstd::prelude::*;
use crate::geometry::Rectangle;

verus! {

/// A colour of eight bits each of red, green and blue.
#[derive(Clone, Copy, Debug, PartialEq, Eq, Structural)]
pub struct Rgb888 {
    pub r: u8,
    pub g: u8,
    pub b: u8,
}

/// The word of a fully opaque black pixel.
pub const OPAQUE_BLACK: u32 = 0xFF00_0000;

impl Rgb888 {
    /// The packed word of the colour at full opacity.
    pub open spec fn spec_argb(self) -> u32 {
        (0xFF00_0000 + self.r * 0x1_0000 + self.g * 0x100 + self.b) as u32
    }

    /// The colour with the given parts.
    pub fn new(r: u8, g: u8, b: u8) -> (c: Rgb888)
        ensures
            c.r == r,
            c.g == g,
            c.b == b,
    {
        Rgb888 { r, g, b }
    }

    /// Black.
    pub fn black() -> (c: Rgb888)
        ensures
            c == (Rgb888 { r: 0, g: 0, b: 0 }),
    {
        Rgb888 { r: 0, g: 0, b: 0 }
    }

    /// Full red.
    pub fn red() -> (c: Rgb888)
        ensures
            c == (Rgb888 { r: 255, g: 0, b: 0 }),
    {
        Rgb888 { r: 255, g: 0, b: 0 }
    }

    /// Full green.
    pub fn green() -> (c: Rgb888)
        ensures
            c == (Rgb888 { r: 0, g: 255, b: 0 }),
    {
        Rgb888 { r: 0, g: 255, b: 0 }
    }

    /// Full blue.
    pub fn blue() -> (c: Rgb888)
        ensures
            c == (Rgb888 { r: 0, g: 0, b: 255 }),
    {
        Rgb888 { r: 0, g: 0, b: 255 }
    }

    /// White.
    pub fn white() -> (c: Rgb888)
        ensures
            c == (Rgb888 { r: 255, g: 255, b: 255 }),
    {
        Rgb888 { r: 255, g: 255, b: 255 }
    }

    /// The packed word of the colour at full opacity.
    pub fn argb(self) -> (word: u32)
        ensures
            word == self.spec_argb(),
    {
        let r: u32 = self.r as u32;
        let g: u32 = self.g as u32;
        let b: u32 = self.b as u32;
        0xFF00_0000u32 + r * 0x1_0000u32 + g * 0x100u32 + b
    }
}

/// In a grid `w` wide, a cell's position in row order tells its column and
/// its row.
proof fn lemma_cell_unique(w: int, x: int, y: int, x2: int, y2: int)
    requires
        0 <= x < w,
        0 <= x2 < w,
        0 <= y,
        0 <= y2,
        y * w + x == y2 * w + x2,
    ensures
        x == x2,
        y == y2,
{
    if y < y2 {
        assert(y2 * w >= (y + 1) * w) by (nonlinear_arith)
            requires
                y2 >= y + 1,
                w > 0,
        ;
        assert((y + 1) * w == y * w + w) by (nonlinear_arith);
    } else if y2 < y {
        assert(y * w >= (y2 + 1) * w) by (nonlinear_arith)
            requires
                y >= y2 + 1,
                w > 0,
        ;
        assert((y2 + 1) * w == y2 * w + w) by (nonlinear_arith);
    }
}

/// In a grid `w` wide and `h` high, every cell's position in row order
/// lies below `w * h`.
proof fn lemma_cell_in_range(w: int, h: int, x: int, y: int)
    requires
        0 <= x < w,
        0 <= y < h,
    ensures
        0 <= y * w + x < w * h,
{
    assert(y * w >= 0) by (nonlinear_arith)
        requires
            y >= 0,
            w > 0,
    ;
    assert((y + 1) * w <= h * w) by (nonlinear_arith)
        requires
            y + 1 <= h,
            w > 0,
    ;
    assert((y + 1) * w == y * w + w) by (nonlinear_arith);
    assert(h * w == w * h) by (nonlinear_arith);
}

/// `v` held to the range from zero to `limit`.
pub open spec fn clamp_to(v: int, limit: int) -> int {
    if v < 0 {
        0
    } else if v > limit {
        limit
    } else {
        v
    }
}

/// `v` held to the range from zero to `limit`.
pub(crate) fn clamp(v: i64, limit: usize) -> (c: usize)
    requires
        limit <= u16::MAX,
    ensures
        c == clamp_to(v as int, limit as int),
{
    if v < 0 {
        0
    } else if v > limit as i64 {
        limit
    } else {
        v as usize
    }
}

/// A pixel buffer of fixed width and height.
pub struct DisplayBuffer {
    buf: Vec<u32>,
    width: usize,
    height: usize,
}

impl View for DisplayBuffer {
    type V = Seq<u32>;

    /// The pixel words, row after row from the top.
    closed spec fn view(&self) -> Seq<u32> {
        self.buf@
    }
}

impl DisplayBuffer {
    /// Pixels per row.
    pub closed spec fn spec_width(&self) -> int {
        self.width as int
    }

    /// Number of rows.
    pub closed spec fn spec_height(&self) -> int {
        self.height as int
    }

    /// A buffer holds exactly one word per pixel, and neither side is
    /// longer than sixteen bits can count.
    pub open spec fn wf(&self) -> bool {
        &&& self.spec_width() <= u16::MAX
        &&& self.spec_height() <= u16::MAX
        &&& self@.len() == self.spec_width() * self.spec_height()
    }

    /// Whether `(x, y)` names a pixel of the buffer.
    pub open spec fn in_bounds(&self, x: int, y: int) -> bool {
        0 <= x < self.spec_width() && 0 <= y < self.spec_height()
    }

    /// The word of the pixel in column `x` of row `y`.
    pub open spec fn at(&self, x: int, y: int) -> u32 {
        self@[y * self.spec_width() + x]
    }

    /// Whether `other` has the width and the height of this buffer.
    pub open spec fn same_size(&self, other: &DisplayBuffer) -> bool {
        &&& self.spec_width() == other.spec_width()
        &&& self.spec_height() == other.spec_height()
        &&& self@.len() == other@.len()
    }

    /// Two buffers of one size that agree pixel by pixel hold the same
    /// words.
    pub proof fn lemma_equal_by_pixels(&self, other: &DisplayBuffer)
        requires
            self.wf(),
            self.same_size(other),
            forall|x: int, y: int|
                #![trigger self.at(x, y)]
                self.in_bounds(x, y) ==> self.at(x, y) == other.at(x, y),
        ensures
            self@ == other@,
    {
        let w = self.spec_width();
        let h = self.spec_height();
        assert forall|i: int| 0 <= i < self@.len() implies self@[i] == other@[i] by {
            assert(w > 0) by (nonlinear_arith)
                requires
                    0 <= i < w * h,
                    h >= 0,
                    w >= 0,
            ;
            let x = i % w;
            let y = i / w;
            vstd::arithmetic::div_mod::lemma_fundamental_div_mod(i, w);
            vstd::arithmetic::div_mod::lemma_mod_bound(i, w);
            vstd::arithmetic::div_mod::lemma_div_pos_is_pos(i, w);
            assert(w * y == y * w) by (nonlinear_arith);
            assert(y < h) by (nonlinear_arith)
                requires
                    y * w + x == i,
                    i < w * h,
                    0 <= x,
                    w > 0,
            ;
            assert(self.in_bounds(x, y));
            assert(self.at(x, y) == other.at(x, y));
        }
        assert(self@ =~= other@);
    }

    /// Whether every pixel of the buffer holds `word`.
    pub open spec fn is_solid(&self, word: u32) -> bool {
        forall|x: int, y: int| #![trigger self.at(x, y)] self.in_bounds(x, y) ==> self.at(x, y) == word
    }

    /// A buffer of `width` by `height` pixels, every word zero.
    pub fn new(width: u16, height: u16) -> (fb: DisplayBuffer)
        ensures
            fb.wf(),
            fb.spec_width() == width,
            fb.spec_height() == height,
            fb.is_solid(0),
    {
        let w: usize = width as usize;
        let h: usize = height as usize;
        assert(w * h <= 0xFFFF * 0xFFFF) by (nonlinear_arith)
            requires
                0 <= w <= 0xFFFF,
                0 <= h <= 0xFFFF,
        ;
        let total: usize = w * h;
        let mut buf: Vec<u32> = Vec::new();
        let mut i: usize = 0;
        while i < total
            invariant
                i <= total,
                buf@.len() == i,
                forall|k: int| 0 <= k < i ==> buf@[k] == 0,
            decreases total - i,
        {
            buf.push(0u32);
            i = i + 1;
        }
        let fb = DisplayBuffer { buf, width: w, height: h };
        proof {
            assert forall|x: int, y: int| #![trigger fb.at(x, y)] fb.in_bounds(x, y) implies fb.at(
                x,
                y,
            ) == 0 by {
                lemma_cell_in_range(w as int, h as int, x, y);
            }
        }
        fb
    }

    /// Pixels per row.
    pub fn width(&self) -> (w: usize)
        ensures
            w == self.spec_width(),
    {
        self.width
    }

    /// Number of rows.
    pub fn height(&self) -> (h: usize)
        ensures
            h == self.spec_height(),
    {
        self.height
    }

    /// The pixel words, row after row from the top.
    pub fn words(&self) -> (words: &Vec<u32>)
        ensures
            words@ == self@,
    {
        &self.buf
    }

    /// The word of the pixel at `(x, y)`, or nothing where the buffer has
    /// no such pixel.
    pub fn pixel(&self, x: i32, y: i32) -> (word: Option<u32>)
        requires
            self.wf(),
        ensures
            word == if self.in_bounds(x as int, y as int) {
                Some(self.at(x as int, y as int))
            } else {
                None
            },
    {
        if x >= 0 && y >= 0 && (x as usize) < self.width && (y as usize) < self.height {
            // The index lies below the length, which a `usize` holds.
            let len: usize = self.buf.len();
            proof {
                lemma_cell_in_range(self.width as int, self.height as int, x as int, y as int);
                assert(y * self.width + x < len);
            }
            Some(self.buf[(y as usize) * self.width + (x as usize)])
        } else {
            None
        }
    }

    /// Writes `word` to the pixel at `(x, y)` and leaves every other pixel
    /// as it was.
    fn put(&mut self, x: usize, y: usize, word: u32)
        requires
            old(self).wf(),
            old(self).in_bounds(x as int, y as int),
        ensures
            final(self).wf(),
            final(self).same_size(old(self)),
            final(self).at(x as int, y as int) == word,
            forall|px: int, py: int|
                #![trigger final(self).at(px, py)]
                old(self).in_bounds(px, py) && !(px == x && py == y) ==> final(self).at(px, py)
                    == old(self).at(px, py),
    {
        // The index lies below the length, which a `usize` holds.
        let len: usize = self.buf.len();
        proof {
            lemma_cell_in_range(self.width as int, self.height as int, x as int, y as int);
            assert(y * self.width + x < len);
        }
        let index: usize = y * self.width + x;
        self.buf.set(index, word);
        proof {
            let w = self.width as int;
            let h = self.height as int;
            assert forall|px: int, py: int|
                #![trigger self.at(px, py)]
                old(self).in_bounds(px, py) && !(px == x && py == y) implies self.at(px, py)
                == old(self).at(px, py) by {
                lemma_cell_in_range(w, h, px, py);
                if py * w + px == y * w + x {
                    lemma_cell_unique(w, px, py, x as int, y as int);
                }
            }
        }
    }

    /// Sets every pixel to opaque black.
    pub fn clear(&mut self)
        requires
            old(self).wf(),
        ensures
            final(self).wf(),
            final(self).same_size(old(self)),
            final(self).is_solid(OPAQUE_BLACK),
    {
        let total: usize = self.buf.len();
        let mut i: usize = 0;
        while i < total
            invariant
                self.wf(),
                self.same_size(old(self)),
                total == self@.len(),
                i <= total,
                forall|k: int| 0 <= k < i ==> self@[k] == OPAQUE_BLACK,
            decreases total - i,
        {
            self.buf.set(i, OPAQUE_BLACK);
            i = i + 1;
        }
        proof {
            assert forall|x: int, y: int| #![trigger self.at(x, y)] self.in_bounds(x, y) implies self.at(
                x,
                y,
            ) == OPAQUE_BLACK by {
                lemma_cell_in_range(self.width as int, self.height as int, x, y);
            }
        }
    }

    /// Gives the pixel at `(x, y)` the colour `color` at full opacity. A
    /// point outside the buffer is ignored.
    pub fn set_pixel(&mut self, x: i32, y: i32, color: Rgb888)
        requires
            old(self).wf(),
        ensures
            final(self).wf(),
            final(self).same_size(old(self)),
            forall|px: int, py: int|
                #![trigger final(self).at(px, py)]
                old(self).in_bounds(px, py) ==> final(self).at(px, py) == if px == x && py == y {
                    color.spec_argb()
                } else {
                    old(self).at(px, py)
                },
    {
        if x >= 0 && y >= 0 && (x as usize) < self.width && (y as usize) < self.height {
            self.put(x as usize, y as usize, color.argb());
        }
    }

    /// Fills the part of `area` that lies in the buffer with `color` at
    /// full opacity, and leaves every other pixel as it was.
    pub fn fill_rect(&mut self, area: Rectangle, color: Rgb888)
        requires
            old(self).wf(),
        ensures
            final(self).wf(),
            final(self).same_size(old(self)),
            forall|px: int, py: int|
                #![trigger final(self).at(px, py)]
                old(self).in_bounds(px, py) ==> final(self).at(px, py) == if area.covers(px, py) {
                    color.spec_argb()
                } else {
                    old(self).at(px, py)
                },
    {
        let word = color.argb();
        let left: i64 = area.top_left.x as i64;
        let top: i64 = area.top_left.y as i64;
        let x0 = clamp(left, self.width);
        let x1 = clamp(left + area.size.width as i64, self.width);
        let y0 = clamp(top, self.height);
        let y1 = clamp(top + area.size.height as i64, self.height);
        let mut y: usize = y0;
        while y < y1
            invariant
                self.wf(),
                self.same_size(old(self)),
                y0 <= y,
                y1 <= self.spec_height(),
                x1 <= self.spec_width(),
                x0 == clamp_to(area.left(), self.spec_width()),
                x1 == clamp_to(area.right(), self.spec_width()),
                y0 == clamp_to(area.top(), self.spec_height()),
                y1 == clamp_to(area.bottom(), self.spec_height()),
                forall|px: int, py: int|
                    #![trigger self.at(px, py)]
                    old(self).in_bounds(px, py) ==> self.at(px, py) == if area.covers(px, py) && py
                        < y {
                        word
                    } else {
                        old(self).at(px, py)
                    },
            decreases y1 - y,
        {
            let mut x: usize = x0;
            while x < x1
                invariant
                    self.wf(),
                    self.same_size(old(self)),
                    y0 <= y < y1,
                    x0 <= x,
                    y1 <= self.spec_height(),
                    x1 <= self.spec_width(),
                    x0 == clamp_to(area.left(), self.spec_width()),
                    x1 == clamp_to(area.right(), self.spec_width()),
                    y0 == clamp_to(area.top(), self.spec_height()),
                    y1 == clamp_to(area.bottom(), self.spec_height()),
                    forall|px: int, py: int|
                        #![trigger self.at(px, py)]
                        old(self).in_bounds(px, py) ==> self.at(px, py) == if area.covers(px, py)
                            && (py < y || (py == y && px < x)) {
                            word
                        } else {
                            old(self).at(px, py)
                        },
                decreases x1 - x,
            {
                self.put(x, y, word);
                x = x + 1;
            }
            y = y + 1;
        }
    }
}

} // verus!
