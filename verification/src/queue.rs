//! Bounded first-in-first-out queues between the sampler, the panel and the
//! output driver.
//!
//! The storage is a channel of `embassy_sync` that a queue owns outright, so
//! nothing else can send or receive on it. Only the channel's non-blocking
//! operations are used: a full queue refuses the next item and an empty one
//! yields none, and the caller decides how to wait.
//!
//! Every queue carries its items as pairs of integers, so that one kind of
//! channel serves all three; a queue's capacity is checked before the
//! channel is asked, so a queue may hold less than the channel could.

use vstd::prelude::*;
use embassy_sync::blocking_mutex::raw::NoopRawMutex;
use embassy_sync::channel::Channel;
use crate::events::{ButtonEvent, PinStateEvent};
use crate::geometry::Point;

verus! {

/// A message as the channel carries it: a pair of integers.
pub type Message = (i32, i32);

/// Number of messages that the channel behind every queue can hold.
pub const CHANNEL_SLOTS: usize = 32;

/// An `embassy_sync::channel::Channel` of 32 messages behind a lock that
/// does nothing, which is sound because the channel is never shared.
///
/// The channel's type is bound by a trait of its crate that the verifier
/// cannot take in, so the channel stays behind this struct, and all that is
/// known of it is what the functions below state.
#[verifier::external_body]
pub struct RawChannel {
    ch: Channel<NoopRawMutex, Message, 32>,
}

/// The messages that wait in a channel, oldest first.
pub uninterp spec fn raw_channel_items(ch: RawChannel) -> Seq<(i32, i32)>;

/// `Channel::new`: a channel in which nothing waits.
#[verifier::external_body]
fn raw_channel_new() -> (ch: RawChannel)
    ensures
        raw_channel_items(ch) == Seq::<(i32, i32)>::empty(),
{
    RawChannel { ch: Channel::new() }
}

/// `Channel::len`: the number of messages that wait.
#[verifier::external_body]
fn raw_channel_len(ch: &RawChannel) -> (n: usize)
    ensures
        n == raw_channel_items(*ch).len(),
    no_unwind
{
    ch.ch.len()
}

/// `Channel::try_send`: puts `item` behind the messages that wait and
/// returns `true`, unless every slot is taken; then the channel stays as it
/// was and the result is `false`.
#[verifier::external_body]
fn raw_channel_try_send(ch: &mut RawChannel, item: Message) -> (taken: bool)
    ensures
        taken == (raw_channel_items(*old(ch)).len() < CHANNEL_SLOTS),
        raw_channel_items(*final(ch)) == if taken {
            raw_channel_items(*old(ch)).push(item)
        } else {
            raw_channel_items(*old(ch))
        },
    no_unwind
{
    ch.ch.try_send(item).is_ok()
}

/// `Channel::try_receive`: takes the oldest message out and returns it;
/// from an empty channel it returns nothing and changes nothing.
#[verifier::external_body]
fn raw_channel_try_receive(ch: &mut RawChannel) -> (item: Option<Message>)
    ensures
        item == if raw_channel_items(*old(ch)).len() > 0 {
            Some(raw_channel_items(*old(ch)).first())
        } else {
            None
        },
        raw_channel_items(*final(ch)) == if raw_channel_items(*old(ch)).len() > 0 {
            raw_channel_items(*old(ch)).drop_first()
        } else {
            raw_channel_items(*old(ch))
        },
    no_unwind
{
    ch.ch.try_receive().ok()
}

/// A first-in-first-out queue of messages with a capacity fixed when it is
/// made.
pub struct MessageQueue {
    raw: RawChannel,
    capacity: usize,
}

impl View for MessageQueue {
    type V = Seq<(i32, i32)>;

    /// The messages that wait, oldest first.
    closed spec fn view(&self) -> Seq<(i32, i32)> {
        raw_channel_items(self.raw)
    }
}

impl MessageQueue {
    /// The most messages the queue holds at a time.
    pub closed spec fn spec_capacity(self) -> int {
        self.capacity as int
    }

    /// A queue holds no more than its capacity, and its capacity fits the
    /// channel behind it.
    #[verifier::type_invariant]
    spec fn within_capacity(self) -> bool {
        &&& 1 <= self.capacity <= CHANNEL_SLOTS
        &&& raw_channel_items(self.raw).len() <= self.capacity
    }

    /// An empty queue for at most `capacity` messages.
    pub fn with_capacity(capacity: usize) -> (q: MessageQueue)
        requires
            1 <= capacity <= CHANNEL_SLOTS,
        ensures
            q.spec_capacity() == capacity,
            q@ == Seq::<(i32, i32)>::empty(),
    {
        MessageQueue { raw: raw_channel_new(), capacity }
    }

    /// The most messages the queue holds at a time.
    pub fn capacity(&self) -> (n: usize)
        ensures
            n == self.spec_capacity(),
            1 <= n <= CHANNEL_SLOTS,
    {
        proof {
            use_type_invariant(self);
        }
        self.capacity
    }

    /// The number of messages that wait, never more than the capacity.
    pub fn len(&self) -> (n: usize)
        ensures
            n == self@.len(),
            n <= self.spec_capacity(),
    {
        proof {
            use_type_invariant(self);
        }
        raw_channel_len(&self.raw)
    }

    /// Whether nothing waits.
    pub fn is_empty(&self) -> (empty: bool)
        ensures
            empty == (self@.len() == 0),
    {
        raw_channel_len(&self.raw) == 0
    }

    /// Whether the queue holds as many messages as it may.
    pub fn is_full(&self) -> (full: bool)
        ensures
            full == (self@.len() == self.spec_capacity()),
    {
        proof {
            use_type_invariant(self);
        }
        raw_channel_len(&self.raw) >= self.capacity
    }

    /// Puts `item` behind the messages that wait, if there is room. Returns
    /// whether it was taken; a full queue is left as it was.
    pub fn try_send(&mut self, item: Message) -> (taken: bool)
        ensures
            final(self).spec_capacity() == old(self).spec_capacity(),
            taken == (old(self)@.len() < old(self).spec_capacity()),
            final(self)@ == if taken { old(self)@.push(item) } else { old(self)@ },
        no_unwind
    {
        proof {
            use_type_invariant(&*self);
        }
        if raw_channel_len(&self.raw) >= self.capacity {
            false
        } else {
            raw_channel_try_send(&mut self.raw, item)
        }
    }

    /// Takes the oldest message out and returns it; from an empty queue it
    /// returns nothing and changes nothing.
    pub fn try_receive(&mut self) -> (item: Option<Message>)
        ensures
            final(self).spec_capacity() == old(self).spec_capacity(),
            item == if old(self)@.len() > 0 { Some(old(self)@.first()) } else { None },
            final(self)@ == if old(self)@.len() > 0 { old(self)@.drop_first() } else { old(self)@ },
        no_unwind
    {
        proof {
            use_type_invariant(&*self);
        }
        raw_channel_try_receive(&mut self.raw)
    }
}

/// Capacity of the queue of touch points.
pub const TOUCH_QUEUE_CAPACITY: usize = 1;

/// Capacity of the queues of button events and of pin states.
pub const EVENT_QUEUE_CAPACITY: usize = 32;

/// The message that carries a point.
pub open spec fn point_message(p: Point) -> (i32, i32) {
    (p.x, p.y)
}

/// The point that a message carries.
pub open spec fn message_point(m: (i32, i32)) -> Point {
    Point { x: m.0, y: m.1 }
}

/// The message that carries a button event: the button's position.
pub open spec fn button_message(e: ButtonEvent) -> (i32, i32) {
    (e.spec_index() as i32, 0i32)
}

/// The button event that a message carries.
pub open spec fn message_button(m: (i32, i32)) -> ButtonEvent {
    ButtonEvent::spec_from_index(m.0 as int)
}

/// The message that carries a pin state: the button's position, and one
/// for high or zero for low.
pub open spec fn pin_message(e: PinStateEvent) -> (i32, i32) {
    (e.spec_button().spec_index() as i32, if e.spec_level() { 1i32 } else { 0i32 })
}

/// The pin state that a message carries.
pub open spec fn message_pin(m: (i32, i32)) -> PinStateEvent {
    PinStateEvent::spec_new(ButtonEvent::spec_from_index(m.0 as int), m.1 != 0)
}

/// The message that carries `e`.
fn encode_button(e: ButtonEvent) -> (m: Message)
    ensures
        m == button_message(e),
{
    match e {
        ButtonEvent::D0 => (0, 0),
        ButtonEvent::D1 => (1, 0),
        ButtonEvent::D2 => (2, 0),
        ButtonEvent::D3 => (3, 0),
    }
}

/// The button event that `m` carries.
fn decode_button(m: Message) -> (e: ButtonEvent)
    ensures
        e == message_button(m),
{
    if m.0 == 0 {
        ButtonEvent::D0
    } else if m.0 == 1 {
        ButtonEvent::D1
    } else if m.0 == 2 {
        ButtonEvent::D2
    } else {
        ButtonEvent::D3
    }
}

/// The queue of touch points, from the sampler to the panel. It holds one
/// point at most.
pub struct TouchQueue {
    inner: MessageQueue,
}

impl View for TouchQueue {
    type V = Seq<Point>;

    /// The points that wait, oldest first.
    closed spec fn view(&self) -> Seq<Point> {
        self.inner@.map_values(|m: (i32, i32)| message_point(m))
    }
}

impl TouchQueue {
    /// The queue behind holds one message at most.
    #[verifier::type_invariant]
    spec fn sized(self) -> bool {
        self.inner.spec_capacity() == TOUCH_QUEUE_CAPACITY
    }

    /// An empty queue.
    pub fn new() -> (q: TouchQueue)
        ensures
            q@ == Seq::<Point>::empty(),
    {
        let q = TouchQueue { inner: MessageQueue::with_capacity(TOUCH_QUEUE_CAPACITY) };
        assert(q@ =~= Seq::<Point>::empty());
        q
    }

    /// The number of points that wait, never more than the capacity.
    pub fn len(&self) -> (n: usize)
        ensures
            n == self@.len(),
            n <= TOUCH_QUEUE_CAPACITY,
    {
        proof {
            use_type_invariant(self);
        }
        self.inner.len()
    }

    /// Puts `point` behind the points that wait, if there is room. Returns
    /// whether it was taken; a full queue is left as it was.
    pub fn try_send(&mut self, point: Point) -> (taken: bool)
        ensures
            taken == (old(self)@.len() < TOUCH_QUEUE_CAPACITY),
            final(self)@ == if taken { old(self)@.push(point) } else { old(self)@ },
    {
        proof {
            use_type_invariant(&*self);
        }
        let taken = self.inner.try_send((point.x, point.y));
        proof {
            if taken {
                assert(self@ =~= old(self)@.push(point));
            }
        }
        taken
    }

    /// Takes the oldest point out and returns it; from an empty queue it
    /// returns nothing and changes nothing.
    pub fn try_receive(&mut self) -> (point: Option<Point>)
        ensures
            point == if old(self)@.len() > 0 { Some(old(self)@.first()) } else { None },
            final(self)@ == if old(self)@.len() > 0 { old(self)@.drop_first() } else { old(self)@ },
    {
        proof {
            use_type_invariant(&*self);
        }
        let got = self.inner.try_receive();
        proof {
            if old(self)@.len() > 0 {
                assert(self@ =~= old(self)@.drop_first());
            }
        }
        match got {
            Some(m) => Some(Point { x: m.0, y: m.1 }),
            None => None,
        }
    }
}

/// The queue of button events, from the panel to the output driver.
pub struct ButtonEventQueue {
    inner: MessageQueue,
}

impl View for ButtonEventQueue {
    type V = Seq<ButtonEvent>;

    /// The events that wait, oldest first.
    closed spec fn view(&self) -> Seq<ButtonEvent> {
        self.inner@.map_values(|m: (i32, i32)| message_button(m))
    }
}

impl ButtonEventQueue {
    /// The queue behind holds thirty-two messages at most.
    #[verifier::type_invariant]
    spec fn sized(self) -> bool {
        self.inner.spec_capacity() == EVENT_QUEUE_CAPACITY
    }

    /// An empty queue.
    pub fn new() -> (q: ButtonEventQueue)
        ensures
            q@ == Seq::<ButtonEvent>::empty(),
    {
        let q = ButtonEventQueue { inner: MessageQueue::with_capacity(EVENT_QUEUE_CAPACITY) };
        assert(q@ =~= Seq::<ButtonEvent>::empty());
        q
    }

    /// The number of events that wait, never more than the capacity.
    pub fn len(&self) -> (n: usize)
        ensures
            n == self@.len(),
            n <= EVENT_QUEUE_CAPACITY,
    {
        proof {
            use_type_invariant(self);
        }
        self.inner.len()
    }

    /// Puts `event` behind the events that wait, if there is room. Returns
    /// whether it was taken; a full queue is left as it was.
    pub fn try_send(&mut self, event: ButtonEvent) -> (taken: bool)
        ensures
            taken == (old(self)@.len() < EVENT_QUEUE_CAPACITY),
            final(self)@ == if taken { old(self)@.push(event) } else { old(self)@ },
    {
        proof {
            use_type_invariant(&*self);
        }
        let taken = self.inner.try_send(encode_button(event));
        proof {
            if taken {
                assert(self@ =~= old(self)@.push(event));
            }
        }
        taken
    }

    /// Takes the oldest event out and returns it; from an empty queue it
    /// returns nothing and changes nothing.
    pub fn try_receive(&mut self) -> (event: Option<ButtonEvent>)
        ensures
            event == if old(self)@.len() > 0 { Some(old(self)@.first()) } else { None },
            final(self)@ == if old(self)@.len() > 0 { old(self)@.drop_first() } else { old(self)@ },
    {
        proof {
            use_type_invariant(&*self);
        }
        let got = self.inner.try_receive();
        proof {
            if old(self)@.len() > 0 {
                assert(self@ =~= old(self)@.drop_first());
            }
        }
        match got {
            Some(m) => Some(decode_button(m)),
            None => None,
        }
    }
}

/// The queue of pin states, from the output driver back to the panel.
pub struct PinStateQueue {
    inner: MessageQueue,
}

impl View for PinStateQueue {
    type V = Seq<PinStateEvent>;

    /// The pin states that wait, oldest first.
    closed spec fn view(&self) -> Seq<PinStateEvent> {
        self.inner@.map_values(|m: (i32, i32)| message_pin(m))
    }
}

impl PinStateQueue {
    /// The queue behind holds thirty-two messages at most.
    #[verifier::type_invariant]
    spec fn sized(self) -> bool {
        self.inner.spec_capacity() == EVENT_QUEUE_CAPACITY
    }

    /// An empty queue.
    pub fn new() -> (q: PinStateQueue)
        ensures
            q@ == Seq::<PinStateEvent>::empty(),
    {
        let q = PinStateQueue { inner: MessageQueue::with_capacity(EVENT_QUEUE_CAPACITY) };
        assert(q@ =~= Seq::<PinStateEvent>::empty());
        q
    }

    /// The number of pin states that wait, never more than the capacity.
    pub fn len(&self) -> (n: usize)
        ensures
            n == self@.len(),
            n <= EVENT_QUEUE_CAPACITY,
    {
        proof {
            use_type_invariant(self);
        }
        self.inner.len()
    }

    /// Puts `state` behind the pin states that wait, if there is room.
    /// Returns whether it was taken; a full queue is left as it was.
    pub fn try_send(&mut self, state: PinStateEvent) -> (taken: bool)
        ensures
            taken == (old(self)@.len() < EVENT_QUEUE_CAPACITY),
            final(self)@ == if taken { old(self)@.push(state) } else { old(self)@ },
    {
        proof {
            use_type_invariant(&*self);
        }
        let code = encode_button(state.button());
        let bit: i32 = if state.level() { 1 } else { 0 };
        let taken = self.inner.try_send((code.0, bit));
        proof {
            if taken {
                assert(self@ =~= old(self)@.push(state));
            }
        }
        taken
    }

    /// Takes the oldest pin state out and returns it; from an empty queue
    /// it returns nothing and changes nothing.
    pub fn try_receive(&mut self) -> (state: Option<PinStateEvent>)
        ensures
            state == if old(self)@.len() > 0 { Some(old(self)@.first()) } else { None },
            final(self)@ == if old(self)@.len() > 0 { old(self)@.drop_first() } else { old(self)@ },
    {
        proof {
            use_type_invariant(&*self);
        }
        let got = self.inner.try_receive();
        proof {
            if old(self)@.len() > 0 {
                assert(self@ =~= old(self)@.drop_first());
            }
        }
        match got {
            Some(m) => Some(PinStateEvent::new(decode_button(m), m.1 != 0)),
            None => None,
        }
    }
}

} // verus!
