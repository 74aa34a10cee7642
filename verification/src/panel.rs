//! The panel: four buttons and a title, drawn into one of two buffers
//! while the display scans the other.

use vstd::prelude::*;
use vstd::string::StringExecFns;
use crate::button::Button;
use crate::events::{ButtonEvent, PinStateEvent};
use crate::framebuffer::{DisplayBuffer, Rgb888, OPAQUE_BLACK};
use crate::geometry::{Point, Rectangle, Size};
use crate::queue::{ButtonEventQueue, PinStateQueue, TouchQueue, EVENT_QUEUE_CAPACITY};
use crate::text::{draw_text_in, drawable, placed_left, placed_top, text_covers, text_extent};

verus! {

/// Names one of the two buffers of a pair.
#[derive(Clone, Copy, Debug, PartialEq, Eq, Structural)]
pub enum BufferId {
    First,
    Second,
}

impl BufferId {
    /// The other buffer of the pair.
    pub open spec fn spec_other(self) -> BufferId {
        match self {
            BufferId::First => BufferId::Second,
            BufferId::Second => BufferId::First,
        }
    }

    /// The other buffer of the pair.
    pub fn other(self) -> (id: BufferId)
        ensures
            id == self.spec_other(),
            id != self,
    {
        match self {
            BufferId::First => BufferId::Second,
            BufferId::Second => BufferId::First,
        }
    }
}

/// Two buffers of one size. At most one of them is published, which means
/// that the display scans it; drawing goes to the other one.
pub struct DoubleBuffer {
    first: DisplayBuffer,
    second: DisplayBuffer,
    published: Option<BufferId>,
}

impl DoubleBuffer {
    /// The buffer that the display scans, if one was published yet.
    pub closed spec fn published(&self) -> Option<BufferId> {
        self.published
    }

    /// The buffer of the given name.
    pub closed spec fn buffer(&self, id: BufferId) -> DisplayBuffer {
        match id {
            BufferId::First => self.first,
            BufferId::Second => self.second,
        }
    }

    /// The buffer to draw into: the one that is not published; the first
    /// one while none is.
    pub open spec fn draw_target(&self) -> BufferId {
        match self.published() {
            Some(id) => id.spec_other(),
            None => BufferId::First,
        }
    }

    /// Both buffers are well formed and of one size.
    pub open spec fn wf(&self) -> bool {
        &&& self.buffer(BufferId::First).wf()
        &&& self.buffer(BufferId::Second).wf()
        &&& self.buffer(BufferId::First).same_size(&self.buffer(BufferId::Second))
    }

    /// Two buffers of `width` by `height` pixels, every word zero, neither
    /// published.
    pub fn new(width: u16, height: u16) -> (pair: DoubleBuffer)
        ensures
            pair.wf(),
            pair.published().is_none(),
            pair.buffer(BufferId::First).spec_width() == width,
            pair.buffer(BufferId::First).spec_height() == height,
            pair.buffer(BufferId::First).is_solid(0),
            pair.buffer(BufferId::Second).is_solid(0),
    {
        DoubleBuffer {
            first: DisplayBuffer::new(width, height),
            second: DisplayBuffer::new(width, height),
            published: None,
        }
    }

    /// The buffer that the display scans, if one was published yet.
    pub fn published_id(&self) -> (id: Option<BufferId>)
        ensures
            id == self.published(),
    {
        self.published
    }

    /// The buffer to draw into. It is never the published one.
    pub fn target(&self) -> (id: BufferId)
        ensures
            id == self.draw_target(),
            self.published() != Some(id),
    {
        match self.published {
            Some(id) => id.other(),
            None => BufferId::First,
        }
    }

    /// The buffer of the given name.
    pub fn get(&self, id: BufferId) -> (fb: &DisplayBuffer)
        ensures
            *fb == self.buffer(id),
    {
        match id {
            BufferId::First => &self.first,
            BufferId::Second => &self.second,
        }
    }

    /// Hands the drawn buffer to the display: the draw target becomes the
    /// published buffer, and the buffer published before becomes the next
    /// draw target. No pixel changes.
    pub fn publish(&mut self) -> (id: BufferId)
        ensures
            id == old(self).draw_target(),
            final(self).published() == Some(id),
            final(self).draw_target() == id.spec_other(),
            final(self).draw_target() != id,
            forall|b: BufferId| final(self).buffer(b) == old(self).buffer(b),
    {
        let id = self.target();
        self.published = Some(id);
        id
    }
}

/// Double buffering: whatever was published so far, the buffer to draw
/// into is not the buffer that the display scans.
pub proof fn lemma_target_is_not_published(pair: DoubleBuffer)
    ensures
        pair.published() != Some(pair.draw_target()),
{
}

/// Width of the stock panel in pixels.
pub const PANEL_WIDTH: u16 = 480;

/// Height of the stock panel in pixels.
pub const PANEL_HEIGHT: u16 = 272;

/// The whole of a display `width` by `height` pixels large.
pub open spec fn display_area(width: int, height: int) -> Rectangle {
    Rectangle { top_left: Point { x: 0, y: 0 }, size: Size { width: width as u32, height: height as u32 } }
}

/// Whether the title inks the pixel at `(x, y)` of a display of the given
/// size. The title stands at the top, centred on the columns; one too
/// long to draw inks nothing.
pub open spec fn title_inked(title: Seq<char>, width: int, height: int, x: int, y: int) -> bool {
    &&& drawable(title.len() as int, text_extent(title))
    &&& text_covers(
        title,
        placed_left(display_area(width, height), text_extent(title)),
        placed_top(display_area(width, height), text_extent(title), false),
        text_extent(title),
        x,
        y,
    )
}

/// The events of the given buttons, in the panel's order, for those among
/// them that were hit.
pub open spec fn hit_events(hit0: bool, hit1: bool, hit2: bool, hit3: bool) -> Seq<ButtonEvent> {
    (if hit0 {
        seq![ButtonEvent::D0]
    } else {
        Seq::<ButtonEvent>::empty()
    }) + (if hit1 {
        seq![ButtonEvent::D1]
    } else {
        Seq::<ButtonEvent>::empty()
    }) + (if hit2 {
        seq![ButtonEvent::D2]
    } else {
        Seq::<ButtonEvent>::empty()
    }) + (if hit3 {
        seq![ButtonEvent::D3]
    } else {
        Seq::<ButtonEvent>::empty()
    })
}

/// How many of `offered` events a queue that holds `queued` takes.
pub open spec fn taken_count(offered: int, queued: int) -> int {
    if offered <= EVENT_QUEUE_CAPACITY - queued {
        offered
    } else if queued <= EVENT_QUEUE_CAPACITY {
        EVENT_QUEUE_CAPACITY - queued
    } else {
        0
    }
}

/// `b` with its pressed state set to `level`.
pub open spec fn pressed_as(b: Button, level: bool) -> Button {
    Button { is_pressed: level, ..b }
}

/// Sends `hits` to `events` in order, as far as there is room, and
/// returns the rest in order.
fn send_hits(events: &mut ButtonEventQueue, hits: &Vec<ButtonEvent>) -> (pending: Vec<ButtonEvent>)
    ensures
        final(events)@ == old(events)@ + hits@.subrange(
            0,
            taken_count(hits@.len() as int, old(events)@.len() as int),
        ),
        pending@ == hits@.subrange(
            taken_count(hits@.len() as int, old(events)@.len() as int),
            hits@.len() as int,
        ),
{
    let queued: usize = events.len();
    let ghost k = taken_count(hits@.len() as int, queued as int);
    let mut pending: Vec<ButtonEvent> = Vec::new();
    let mut i: usize = 0;
    while i < hits.len()
        invariant
            i <= hits@.len(),
            k == taken_count(hits@.len() as int, queued as int),
            queued == old(events)@.len(),
            queued <= EVENT_QUEUE_CAPACITY,
            i <= k ==> events@ == old(events)@ + hits@.subrange(0, i as int) && pending@.len() == 0,
            i > k ==> events@ == old(events)@ + hits@.subrange(0, k) && pending@ == hits@.subrange(
                k,
                i as int,
            ),
        decreases hits@.len() - i,
    {
        let event = hits[i];
        let sent = events.try_send(event);
        if sent {
            proof {
                assert(events@ =~= old(events)@ + hits@.subrange(0, i + 1));
            }
        } else {
            pending.push(event);
            proof {
                assert(pending@ =~= hits@.subrange(k, i + 1));
            }
        }
        i = i + 1;
    }
    proof {
        if i <= k {
            assert(pending@ =~= hits@.subrange(k, hits@.len() as int));
        }
    }
    pending
}

/// The word that the pixel at `(x, y)` holds when the panel is drawn on a
/// display of the given size: opaque black, under the title in blue, under
/// the four buttons in their order, each over the one before.
pub open spec fn scene_pixel(
    title: Seq<char>,
    d0: Button,
    d1: Button,
    d2: Button,
    d3: Button,
    width: int,
    height: int,
    x: int,
    y: int,
) -> u32 {
    let ground = if title_inked(title, width, height, x, y) {
        (Rgb888 { r: 0, g: 0, b: 255 }).spec_argb()
    } else {
        OPAQUE_BLACK
    };
    d3.painted(d2.painted(d1.painted(d0.painted(ground, x, y), x, y), x, y), x, y)
}

/// Draws the panel into `fb`: clears it, then draws the title and the
/// buttons in their order.
fn paint_scene(
    fb: &mut DisplayBuffer,
    title: &str,
    d0: &Button,
    d1: &Button,
    d2: &Button,
    d3: &Button,
)
    requires
        old(fb).wf(),
    ensures
        final(fb).wf(),
        final(fb).same_size(old(fb)),
        forall|x: int, y: int|
            #![trigger final(fb).at(x, y)]
            old(fb).in_bounds(x, y) ==> final(fb).at(x, y) == scene_pixel(
                title@,
                *d0,
                *d1,
                *d2,
                *d3,
                old(fb).spec_width(),
                old(fb).spec_height(),
                x,
                y,
            ),
{
    fb.clear();
    let ghost cleared = *fb;
    let width = fb.width();
    let height = fb.height();
    let whole = Rectangle::new(Point::zero(), Size::new(width as u32, height as u32));
    let titled = draw_text_in(fb, title, whole, false, Rgb888::blue());
    let ghost with_title = *fb;
    d0.draw(fb);
    let ghost with_d0 = *fb;
    d1.draw(fb);
    let ghost with_d1 = *fb;
    d2.draw(fb);
    let ghost with_d2 = *fb;
    d3.draw(fb);
    proof {
        assert forall|x: int, y: int| #![trigger fb.at(x, y)] old(fb).in_bounds(x, y) implies fb.at(
            x,
            y,
        ) == scene_pixel(
            title@,
            *d0,
            *d1,
            *d2,
            *d3,
            old(fb).spec_width(),
            old(fb).spec_height(),
            x,
            y,
        ) by {
            assert(cleared.in_bounds(x, y));
            assert(cleared.at(x, y) == OPAQUE_BLACK);
            assert(with_title.in_bounds(x, y));
            if !titled {
                assert(with_title@ == cleared@);
            }
            assert(with_title.at(x, y) == if title_inked(
                title@,
                old(fb).spec_width(),
                old(fb).spec_height(),
                x,
                y,
            ) {
                (Rgb888 { r: 0, g: 0, b: 255 }).spec_argb()
            } else {
                OPAQUE_BLACK
            });
            assert(with_d0.in_bounds(x, y));
            assert(with_d0.at(x, y) == d0.painted(with_title.at(x, y), x, y));
            assert(with_d1.in_bounds(x, y));
            assert(with_d1.at(x, y) == d1.painted(with_d0.at(x, y), x, y));
            assert(with_d2.in_bounds(x, y));
            assert(with_d2.at(x, y) == d2.painted(with_d1.at(x, y), x, y));
            assert(fb.at(x, y) == d3.painted(with_d2.at(x, y), x, y));
        }
    }
}

/// The panel: a title, four buttons in a fixed order, and the pair of
/// buffers it is drawn into.
pub struct Panel {
    title: String,
    d0: Button,
    d1: Button,
    d2: Button,
    d3: Button,
    frames: DoubleBuffer,
}

impl Panel {
    /// The title.
    pub closed spec fn title(&self) -> Seq<char> {
        self.title@
    }

    /// The button that the event names.
    pub closed spec fn button(&self, id: ButtonEvent) -> Button {
        match id {
            ButtonEvent::D0 => self.d0,
            ButtonEvent::D1 => self.d1,
            ButtonEvent::D2 => self.d2,
            ButtonEvent::D3 => self.d3,
        }
    }

    /// The pair of buffers.
    pub closed spec fn frames(&self) -> DoubleBuffer {
        self.frames
    }

    /// The panel's buffers are well formed.
    pub open spec fn wf(&self) -> bool {
        self.frames().wf()
    }

    /// Whether a touch at `p` lands on the button that `id` names.
    pub open spec fn hit(&self, id: ButtonEvent, p: Point) -> bool {
        self.button(id).area.covers(p.x as int, p.y as int)
    }

    /// The events that a touch at `p` raises: one for every button it
    /// lands on, in the panel's order.
    pub open spec fn hits(&self, p: Point) -> Seq<ButtonEvent> {
        hit_events(
            self.hit(ButtonEvent::D0, p),
            self.hit(ButtonEvent::D1, p),
            self.hit(ButtonEvent::D2, p),
            self.hit(ButtonEvent::D3, p),
        )
    }

    /// Whether `fb` holds the panel as it is now, pixel by pixel.
    pub open spec fn shows(&self, fb: &DisplayBuffer) -> bool {
        forall|x: int, y: int|
            #![trigger fb.at(x, y)]
            fb.in_bounds(x, y) ==> fb.at(x, y) == scene_pixel(
                self.title(),
                self.button(ButtonEvent::D0),
                self.button(ButtonEvent::D1),
                self.button(ButtonEvent::D2),
                self.button(ButtonEvent::D3),
                fb.spec_width(),
                fb.spec_height(),
                x,
                y,
            )
    }

    /// Whether the panel's buffers are those of `before` after one frame
    /// was drawn and published: the buffer that was the draw target shows
    /// the panel and is now published, and the other buffer, which the
    /// display was scanning meanwhile, is as it was.
    pub open spec fn drew_frame(&self, before: &DoubleBuffer) -> bool {
        let target = before.draw_target();
        &&& self.frames().wf()
        &&& self.frames().published() == Some(target)
        &&& self.frames().buffer(target).same_size(&before.buffer(target))
        &&& self.shows(&self.frames().buffer(target))
        &&& self.frames().buffer(target.spec_other()) == before.buffer(target.spec_other())
    }

    /// A panel of the given size, title and buttons, with both buffers
    /// zeroed and neither published.
    pub fn with_layout(
        width: u16,
        height: u16,
        title: &str,
        d0: Button,
        d1: Button,
        d2: Button,
        d3: Button,
    ) -> (panel: Panel)
        ensures
            panel.wf(),
            panel.title() == title@,
            panel.button(ButtonEvent::D0) == d0,
            panel.button(ButtonEvent::D1) == d1,
            panel.button(ButtonEvent::D2) == d2,
            panel.button(ButtonEvent::D3) == d3,
            panel.frames().published().is_none(),
            panel.frames().buffer(BufferId::First).spec_width() == width,
            panel.frames().buffer(BufferId::First).spec_height() == height,
    {
        Panel {
            title: String::from_str(title),
            d0,
            d1,
            d2,
            d3,
            frames: DoubleBuffer::new(width, height),
        }
    }

    /// The stock panel: 480 by 272 pixels, titled "Simple GUI", with the
    /// buttons D0 to D3, each 100 by 50, in two rows of two.
    pub fn new() -> (panel: Panel)
        ensures
            panel.wf(),
            panel.title() == "Simple GUI"@,
            panel.button(ButtonEvent::D0).area == (Rectangle {
                top_left: Point { x: 100, y: 60 },
                size: Size { width: 100, height: 50 },
            }),
            panel.button(ButtonEvent::D1).area == (Rectangle {
                top_left: Point { x: 300, y: 60 },
                size: Size { width: 100, height: 50 },
            }),
            panel.button(ButtonEvent::D2).area == (Rectangle {
                top_left: Point { x: 100, y: 130 },
                size: Size { width: 100, height: 50 },
            }),
            panel.button(ButtonEvent::D3).area == (Rectangle {
                top_left: Point { x: 300, y: 130 },
                size: Size { width: 100, height: 50 },
            }),
            panel.button(ButtonEvent::D0).text@ == "D0"@,
            panel.button(ButtonEvent::D1).text@ == "D1"@,
            panel.button(ButtonEvent::D2).text@ == "D2"@,
            panel.button(ButtonEvent::D3).text@ == "D3"@,
            forall|id: ButtonEvent| !(#[trigger] panel.button(id)).is_pressed,
            panel.frames().published().is_none(),
            panel.frames().buffer(BufferId::First).spec_width() == PANEL_WIDTH,
            panel.frames().buffer(BufferId::First).spec_height() == PANEL_HEIGHT,
    {
        Panel::with_layout(
            PANEL_WIDTH,
            PANEL_HEIGHT,
            "Simple GUI",
            Button::new(Point::new(100, 60), Size::new(100, 50), "D0"),
            Button::new(Point::new(300, 60), Size::new(100, 50), "D1"),
            Button::new(Point::new(100, 130), Size::new(100, 50), "D2"),
            Button::new(Point::new(300, 130), Size::new(100, 50), "D3"),
        )
    }

    /// The button that the event names.
    pub fn get_button(&self, id: ButtonEvent) -> (b: &Button)
        ensures
            *b == self.button(id),
    {
        match id {
            ButtonEvent::D0 => &self.d0,
            ButtonEvent::D1 => &self.d1,
            ButtonEvent::D2 => &self.d2,
            ButtonEvent::D3 => &self.d3,
        }
    }

    /// The pair of buffers.
    pub fn buffers(&self) -> (pair: &DoubleBuffer)
        ensures
            *pair == self.frames(),
    {
        &self.frames
    }

    /// The events that a touch at `point` raises: every button is tested,
    /// in the panel's order, and each one that the touch lands on gives
    /// its event. A touch that lands on no button gives none.
    pub fn hit_test(&self, point: Point) -> (events: Vec<ButtonEvent>)
        ensures
            events@ == self.hits(point),
    {
        let mut events: Vec<ButtonEvent> = Vec::new();
        if self.d0.check_touch(point) {
            events.push(ButtonEvent::D0);
        }
        if self.d1.check_touch(point) {
            events.push(ButtonEvent::D1);
        }
        if self.d2.check_touch(point) {
            events.push(ButtonEvent::D2);
        }
        if self.d3.check_touch(point) {
            events.push(ButtonEvent::D3);
        }
        proof {
            assert(events@ =~= self.hits(point));
        }
        events
    }

    /// Takes over what the output driver reports: the button that the
    /// report names is pressed exactly if its output is high. Nothing else
    /// changes.
    pub fn apply(&mut self, report: PinStateEvent)
        ensures
            final(self).title() == old(self).title(),
            final(self).frames() == old(self).frames(),
            forall|id: ButtonEvent|
                #![trigger final(self).button(id)]
                final(self).button(id) == if id == report.spec_button() {
                    pressed_as(old(self).button(id), report.spec_level())
                } else {
                    old(self).button(id)
                },
    {
        let level = report.level();
        match report.button() {
            ButtonEvent::D0 => {
                self.d0.is_pressed = level;
            },
            ButtonEvent::D1 => {
                self.d1.is_pressed = level;
            },
            ButtonEvent::D2 => {
                self.d2.is_pressed = level;
            },
            ButtonEvent::D3 => {
                self.d3.is_pressed = level;
            },
        }
    }

    /// Draws the panel into the buffer that is not published, completely,
    /// and then publishes that buffer. Returns its name, for the caller to
    /// hand its address to the display. The buffer that was published
    /// before is not written to.
    pub fn render(&mut self) -> (id: BufferId)
        requires
            old(self).wf(),
        ensures
            id == old(self).frames().draw_target(),
            final(self).drew_frame(&old(self).frames()),
            final(self).title() == old(self).title(),
            forall|b: ButtonEvent| final(self).button(b) == old(self).button(b),
    {
        let id = self.frames.target();
        match id {
            BufferId::First => {
                paint_scene(
                    &mut self.frames.first,
                    self.title.as_str(),
                    &self.d0,
                    &self.d1,
                    &self.d2,
                    &self.d3,
                );
            },
            BufferId::Second => {
                paint_scene(
                    &mut self.frames.second,
                    self.title.as_str(),
                    &self.d0,
                    &self.d1,
                    &self.d2,
                    &self.d3,
                );
            },
        }
        self.frames.publish()
    }

    /// One frame of the panel, in this order: takes the oldest touch
    /// point, if one waits, and sends the events it raises to `events`;
    /// takes the oldest report of the output driver, if one waits, and
    /// takes over its level; draws the panel into the buffer that is not
    /// published; publishes that buffer.
    ///
    /// Events that find `events` full are returned in order, never
    /// dropped: the caller sends them once there is room.
    pub fn frame(
        &mut self,
        touches: &mut TouchQueue,
        pins: &mut PinStateQueue,
        events: &mut ButtonEventQueue,
    ) -> (pending: Vec<ButtonEvent>)
        requires
            old(self).wf(),
        ensures
            final(touches)@ == if old(touches)@.len() > 0 {
                old(touches)@.drop_first()
            } else {
                old(touches)@
            },
            final(pins)@ == if old(pins)@.len() > 0 {
                old(pins)@.drop_first()
            } else {
                old(pins)@
            },
            ({
                let raised = if old(touches)@.len() > 0 {
                    old(self).hits(old(touches)@.first())
                } else {
                    Seq::<ButtonEvent>::empty()
                };
                let taken = taken_count(raised.len() as int, old(events)@.len() as int);
                &&& final(events)@ == old(events)@ + raised.subrange(0, taken)
                &&& pending@ == raised.subrange(taken, raised.len() as int)
            }),
            final(self).title() == old(self).title(),
            forall|id: ButtonEvent|
                #![trigger final(self).button(id)]
                final(self).button(id) == if old(pins)@.len() > 0 && id == old(
                    pins,
                )@.first().spec_button() {
                    pressed_as(old(self).button(id), old(pins)@.first().spec_level())
                } else {
                    old(self).button(id)
                },
            final(self).drew_frame(&old(self).frames()),
    {
        let hits = match touches.try_receive() {
            Some(point) => self.hit_test(point),
            None => Vec::new(),
        };
        let pending = send_hits(events, &hits);
        match pins.try_receive() {
            Some(report) => {
                self.apply(report);
            },
            None => {},
        }
        self.render();
        pending
    }
}

} // verus!
