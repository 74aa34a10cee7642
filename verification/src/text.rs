//! Text on a pixel buffer.
//!
//! The glyphs are those of `embedded_graphics`: its ten by twenty
//! monospaced font, drawn from the top-left corner of the text's bounding
//! box. This module asks that crate how large a text is and which pixels it
//! inks, and does the placing, the clipping and the writing itself.

use vstd::prelude::*;
use vstd::string::StrSliceExecFns;
use embedded_graphics::framebuffer::Framebuffer;
use embedded_graphics::geometry::Dimensions;
use embedded_graphics::image::GetPixel;
use embedded_graphics::mono_font::iso_8859_14::FONT_10X20;
use embedded_graphics::mono_font::MonoTextStyle;
use embedded_graphics::pixelcolor::raw::LittleEndian;
use embedded_graphics::pixelcolor::BinaryColor;
use embedded_graphics::text::Baseline;
use embedded_graphics::text::Text;
use embedded_graphics::Drawable;
use crate::framebuffer::{clamp, clamp_to, DisplayBuffer, Rgb888};
use crate::geometry::Rectangle;

verus! {

/// Longest text, in characters, that is measured and drawn.
pub const MAX_TEXT_CHARS: usize = 4096;

/// Largest width or height of a text's bounding box that is drawn.
pub const MAX_TEXT_EXTENT: u32 = 0x4000_0000;

/// Farthest from the origin that a text's bounding box may begin.
pub const MAX_TEXT_OFFSET: i64 = 0x1_0000_0000;

/// Width and height of the bounding box of `text` in the panel's font.
pub uninterp spec fn text_extent(text: Seq<char>) -> (u32, u32);

/// Whether `text`, drawn in the panel's font with the top-left corner of
/// its bounding box at `(ax, ay)`, inks the pixel at the origin.
pub uninterp spec fn text_ink(text: Seq<char>, ax: int, ay: int) -> bool;

/// `Text::bounding_box` of `embedded_graphics`, for `text` in the ten by
/// twenty font with its top-left corner at the origin: the width and the
/// height of the box.
#[verifier::external_body]
fn measure_text(text: &str) -> (extent: (u32, u32))
    requires
        text@.len() <= MAX_TEXT_CHARS,
    ensures
        extent == text_extent(text@),
{
    let style = MonoTextStyle::new(&FONT_10X20, BinaryColor::On);
    let origin = embedded_graphics::geometry::Point::zero();
    let size = Text::with_baseline(text, origin, style, Baseline::Top).bounding_box().size;
    (size.width, size.height)
}

/// `Text::draw` of `embedded_graphics` onto a framebuffer of that crate
/// which is a single pixel at the origin: draws `text` in the ten by twenty
/// font with the top-left corner of its box at `(ax, ay)` and tells whether
/// the pixel was inked.
#[verifier::external_body]
fn text_inks_origin(text: &str, ax: i32, ay: i32) -> (ink: bool)
    requires
        text@.len() <= MAX_TEXT_CHARS,
        -MAX_TEXT_EXTENT <= ax <= MAX_TEXT_EXTENT,
        -MAX_TEXT_EXTENT <= ay <= MAX_TEXT_EXTENT,
    ensures
        ink == text_ink(text@, ax as int, ay as int),
{
    let style = MonoTextStyle::new(&FONT_10X20, BinaryColor::On);
    let mut cell = Framebuffer::<BinaryColor, _, LittleEndian, 1, 1, 1>::new();
    let at = embedded_graphics::geometry::Point::new(ax, ay);
    let _ = Text::with_baseline(text, at, style, Baseline::Top).draw(&mut cell);
    cell.pixel(embedded_graphics::geometry::Point::zero()) == Some(BinaryColor::On)
}

/// Whether a text of the given extent, with the top-left corner of its box
/// at `(left, top)`, inks the pixel `(x, y)`: the pixel lies in the box and
/// the font inks it.
pub open spec fn text_covers(
    text: Seq<char>,
    left: int,
    top: int,
    extent: (u32, u32),
    x: int,
    y: int,
) -> bool {
    &&& left <= x < left + extent.0
    &&& top <= y < top + extent.1
    &&& text_ink(text, left - x, top - y)
}

/// Whether a text of this length and extent is one that gets drawn.
pub open spec fn drawable(len: int, extent: (u32, u32)) -> bool {
    &&& len <= MAX_TEXT_CHARS
    &&& extent.0 <= MAX_TEXT_EXTENT
    &&& extent.1 <= MAX_TEXT_EXTENT
}

/// Draws `text` in `color` with the top-left corner of its box at
/// `(left, top)`. Pixels that the text inks inside the buffer take the
/// colour at full opacity; every other pixel stays as it was.
pub fn draw_text_box(
    fb: &mut DisplayBuffer,
    text: &str,
    left: i64,
    top: i64,
    extent: (u32, u32),
    color: Rgb888,
)
    requires
        old(fb).wf(),
        drawable(text@.len() as int, extent),
        -MAX_TEXT_OFFSET <= left <= MAX_TEXT_OFFSET,
        -MAX_TEXT_OFFSET <= top <= MAX_TEXT_OFFSET,
    ensures
        final(fb).wf(),
        final(fb).same_size(old(fb)),
        forall|px: int, py: int|
            #![trigger final(fb).at(px, py)]
            old(fb).in_bounds(px, py) ==> final(fb).at(px, py) == if text_covers(
                text@,
                left as int,
                top as int,
                extent,
                px,
                py,
            ) {
                color.spec_argb()
            } else {
                old(fb).at(px, py)
            },
{
    let x0 = clamp(left, fb.width());
    let x1 = clamp(left + extent.0 as i64, fb.width());
    let y0 = clamp(top, fb.height());
    let y1 = clamp(top + extent.1 as i64, fb.height());
    let mut y: usize = y0;
    while y < y1
        invariant
            fb.wf(),
            fb.same_size(old(fb)),
            drawable(text@.len() as int, extent),
            y0 <= y,
            y1 <= fb.spec_height(),
            x1 <= fb.spec_width(),
            x0 == clamp_to(left as int, fb.spec_width()),
            x1 == clamp_to(left + extent.0, fb.spec_width()),
            y0 == clamp_to(top as int, fb.spec_height()),
            y1 == clamp_to(top + extent.1, fb.spec_height()),
            forall|px: int, py: int|
                #![trigger fb.at(px, py)]
                old(fb).in_bounds(px, py) ==> fb.at(px, py) == if py < y && text_covers(
                    text@,
                    left as int,
                    top as int,
                    extent,
                    px,
                    py,
                ) {
                    color.spec_argb()
                } else {
                    old(fb).at(px, py)
                },
        decreases y1 - y,
    {
        let mut x: usize = x0;
        while x < x1
            invariant
                fb.wf(),
                fb.same_size(old(fb)),
                drawable(text@.len() as int, extent),
                y0 <= y < y1,
                x0 <= x,
                y1 <= fb.spec_height(),
                x1 <= fb.spec_width(),
                x0 == clamp_to(left as int, fb.spec_width()),
                x1 == clamp_to(left + extent.0, fb.spec_width()),
                y0 == clamp_to(top as int, fb.spec_height()),
                y1 == clamp_to(top + extent.1, fb.spec_height()),
                forall|px: int, py: int|
                    #![trigger fb.at(px, py)]
                    old(fb).in_bounds(px, py) ==> fb.at(px, py) == if (py < y || (py == y && px
                        < x)) && text_covers(text@, left as int, top as int, extent, px, py) {
                        color.spec_argb()
                    } else {
                        old(fb).at(px, py)
                    },
            decreases x1 - x,
        {
            let ax: i64 = left - x as i64;
            let ay: i64 = top - y as i64;
            if text_inks_origin(text, ax as i32, ay as i32) {
                fb.set_pixel(x as i32, y as i32, color);
            }
            x = x + 1;
        }
        y = y + 1;
    }
}

/// Half of `d`, rounded towards zero.
pub open spec fn half_toward_zero(d: int) -> int {
    if d >= 0 {
        d / 2
    } else {
        -((-d) / 2)
    }
}

/// The column where a box `extent` wide begins when it is centred on the
/// columns of `area`.
pub open spec fn placed_left(area: Rectangle, extent: (u32, u32)) -> int {
    area.left() + half_toward_zero(area.size.width - extent.0)
}

/// The row where a box `extent` high begins in `area`: centred on its rows,
/// or at its top.
pub open spec fn placed_top(area: Rectangle, extent: (u32, u32), center_rows: bool) -> int {
    if center_rows {
        area.top() + half_toward_zero(area.size.height - extent.1)
    } else {
        area.top()
    }
}

/// Half of `d`, rounded towards zero.
fn half(d: i64) -> (h: i64)
    requires
        -MAX_TEXT_OFFSET <= d <= MAX_TEXT_OFFSET,
    ensures
        h == half_toward_zero(d as int),
{
    if d >= 0 {
        d / 2
    } else {
        -((-d) / 2)
    }
}

/// Draws `text` in `color`, centred on the columns of `area` and either
/// centred on its rows or set at its top. The text may reach beyond `area`;
/// only the buffer clips it.
///
/// A text of more than `MAX_TEXT_CHARS` characters, or whose box is larger
/// than `MAX_TEXT_EXTENT` either way, is not drawn: the result is `false`
/// and the buffer stays as it was.
pub fn draw_text_in(
    fb: &mut DisplayBuffer,
    text: &str,
    area: Rectangle,
    center_rows: bool,
    color: Rgb888,
) -> (drawn: bool)
    requires
        old(fb).wf(),
    ensures
        final(fb).wf(),
        final(fb).same_size(old(fb)),
        drawn == drawable(text@.len() as int, text_extent(text@)),
        !drawn ==> final(fb)@ == old(fb)@,
        drawn ==> forall|px: int, py: int|
            #![trigger final(fb).at(px, py)]
            old(fb).in_bounds(px, py) ==> final(fb).at(px, py) == if text_covers(
                text@,
                placed_left(area, text_extent(text@)),
                placed_top(area, text_extent(text@), center_rows),
                text_extent(text@),
                px,
                py,
            ) {
                color.spec_argb()
            } else {
                old(fb).at(px, py)
            },
{
    if text.unicode_len() > MAX_TEXT_CHARS {
        return false;
    }
    let extent = measure_text(text);
    if extent.0 > MAX_TEXT_EXTENT || extent.1 > MAX_TEXT_EXTENT {
        return false;
    }
    let left: i64 = area.top_left.x as i64 + half(area.size.width as i64 - extent.0 as i64);
    let top: i64 = if center_rows {
        area.top_left.y as i64 + half(area.size.height as i64 - extent.1 as i64)
    } else {
        area.top_left.y as i64
    };
    draw_text_box(fb, text, left, top, extent, color);
    true
}

} // verus!
