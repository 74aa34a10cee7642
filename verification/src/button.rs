//! The buttons of the panel: where they are, what they show, and how they
//! are drawn.

use vstd::prelude::*;
use vstd::string::StringExecFns;
use crate::framebuffer::{DisplayBuffer, Rgb888};
use crate::geometry::{Point, Rectangle, Size};
use crate::text::{draw_text_in, drawable, placed_left, placed_top, text_covers, text_extent};

verus! {

/// What a button's caption adds to its name: the state of its output.
pub open spec fn state_suffix(pressed: bool) -> Seq<char> {
    if pressed {
        ": ON"@
    } else {
        ": OFF"@
    }
}

/// A rectangular button with a name and a pressed state.
#[derive(Debug)]
pub struct Button {
    pub area: Rectangle,
    pub text: String,
    pub is_pressed: bool,
    pub pressed_color: Rgb888,
    pub released_color: Rgb888,
}

impl Button {
    /// The colour that fills the button in its present state.
    pub open spec fn face(&self) -> Rgb888 {
        if self.is_pressed {
            self.pressed_color
        } else {
            self.released_color
        }
    }

    /// The caption: the button's name and the state of its output.
    pub open spec fn label(&self) -> Seq<char> {
        self.text@ + state_suffix(self.is_pressed)
    }

    /// Whether the caption's pixel at `(x, y)` is inked. The caption is
    /// centred on the button; one too long to draw inks nothing.
    pub open spec fn inked(&self, x: int, y: int) -> bool {
        &&& drawable(self.label().len() as int, text_extent(self.label()))
        &&& text_covers(
            self.label(),
            placed_left(self.area, text_extent(self.label())),
            placed_top(self.area, text_extent(self.label()), true),
            text_extent(self.label()),
            x,
            y,
        )
    }

    /// The word that the pixel at `(x, y)` holds once the button is drawn
    /// over a pixel that held `under`: black where the caption is inked,
    /// the face colour elsewhere on the button, and `under` off it.
    pub open spec fn painted(&self, under: u32, x: int, y: int) -> u32 {
        if self.inked(x, y) {
            (Rgb888 { r: 0, g: 0, b: 0 }).spec_argb()
        } else if self.area.covers(x, y) {
            self.face().spec_argb()
        } else {
            under
        }
    }

    /// Whether `after` is `before` with the button drawn on it.
    pub open spec fn drawn(&self, before: &DisplayBuffer, after: &DisplayBuffer) -> bool {
        &&& after.wf()
        &&& after.same_size(before)
        &&& forall|x: int, y: int|
            #![trigger after.at(x, y)]
            before.in_bounds(x, y) ==> after.at(x, y) == self.painted(before.at(x, y), x, y)
    }

    /// A released button named `text` that covers `size` from `position`
    /// on. It shows green while pressed and red while released.
    pub fn new(position: Point, size: Size, text: &str) -> (b: Button)
        ensures
            b.area == (Rectangle { top_left: position, size }),
            b.text@ == text@,
            !b.is_pressed,
            b.pressed_color == (Rgb888 { r: 0, g: 255, b: 0 }),
            b.released_color == (Rgb888 { r: 255, g: 0, b: 0 }),
    {
        Button {
            area: Rectangle::new(position, size),
            text: String::from_str(text),
            is_pressed: false,
            pressed_color: Rgb888::green(),
            released_color: Rgb888::red(),
        }
    }

    /// Whether a touch at `point` lands on the button: on its columns from
    /// the left edge up to, not including, the right one, and on its rows
    /// from the top edge up to, not including, the bottom one.
    pub fn check_touch(&self, point: Point) -> (hit: bool)
        ensures
            hit == self.area.covers(point.x as int, point.y as int),
            hit == (self.area.left() <= point.x < self.area.right() && self.area.top() <= point.y
                < self.area.bottom()),
    {
        self.area.contains(point)
    }

    /// The caption: the button's name and the state of its output.
    pub fn caption(&self) -> (s: String)
        ensures
            s@ == self.label(),
    {
        let mut s = self.text.clone();
        if self.is_pressed {
            s.append(": ON");
        } else {
            s.append(": OFF");
        }
        s
    }

    /// Draws the button: its area filled with the colour of its state,
    /// and its caption in black, centred on the area. Nothing but the
    /// given buffer is read or written.
    pub fn draw(&self, display: &mut DisplayBuffer)
        requires
            old(display).wf(),
        ensures
            self.drawn(old(display), final(display)),
    {
        let fill = if self.is_pressed {
            self.pressed_color
        } else {
            self.released_color
        };
        display.fill_rect(self.area, fill);
        let caption = self.caption();
        let ghost filled = *display;
        let shown = draw_text_in(display, caption.as_str(), self.area, true, Rgb888::black());
        proof {
            assert forall|x: int, y: int|
                #![trigger display.at(x, y)]
                old(display).in_bounds(x, y) implies display.at(x, y) == self.painted(
                old(display).at(x, y),
                x,
                y,
            ) by {
                assert(filled.in_bounds(x, y));
                if shown {
                    assert(display.at(x, y) == if self.inked(x, y) {
                        (Rgb888 { r: 0, g: 0, b: 0 }).spec_argb()
                    } else {
                        filled.at(x, y)
                    });
                } else {
                    assert(display@ == filled@);
                    assert(display.at(x, y) == filled.at(x, y));
                }
            }
        }
    }
}

/// Drawing a button is repeatable. Drawn twice in a row into one buffer,
/// a button in one state leaves after the second time exactly what it left
/// after the first.
pub proof fn lemma_draw_twice_is_draw_once(
    button: Button,
    before: DisplayBuffer,
    once: DisplayBuffer,
    twice: DisplayBuffer,
)
    requires
        before.wf(),
        button.drawn(&before, &once),
        button.drawn(&once, &twice),
    ensures
        twice@ == once@,
{
    assert forall|x: int, y: int| #![trigger twice.at(x, y)] twice.in_bounds(x, y) implies twice.at(
        x,
        y,
    ) == once.at(x, y) by {
        assert(before.in_bounds(x, y));
        assert(once.in_bounds(x, y));
        assert(once.at(x, y) == button.painted(before.at(x, y), x, y));
    }
    twice.lemma_equal_by_pixels(&once);
}

/// Drawing a button depends on nothing but the button and the buffer.
/// Drawn into two buffers that hold the same, a button in one state leaves
/// the same in both.
pub proof fn lemma_draw_is_a_function(
    button: Button,
    before: DisplayBuffer,
    again: DisplayBuffer,
    after: DisplayBuffer,
    after_again: DisplayBuffer,
)
    requires
        before.wf(),
        again.same_size(&before),
        again@ == before@,
        button.drawn(&before, &after),
        button.drawn(&again, &after_again),
    ensures
        after_again@ == after@,
{
    assert forall|x: int, y: int|
        #![trigger after_again.at(x, y)]
        after_again.in_bounds(x, y) implies after_again.at(x, y) == after.at(x, y) by {
        assert(before.in_bounds(x, y));
        assert(again.in_bounds(x, y));
        assert(again.at(x, y) == before.at(x, y));
        assert(after.at(x, y) == button.painted(before.at(x, y), x, y));
    }
    after_again.lemma_equal_by_pixels(&after);
}

} // verus!
