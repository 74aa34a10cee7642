//! Debounced touch sampling.
//!
//! The sampler is polled once per tick with what the touch controller
//! reported. It lets a contact through only when its countdown has run out,
//! and then holds the next contacts back for a full debounce window.

use vstd::prelude::*;
use crate::geometry::Point;
use crate::queue::{TouchQueue, TOUCH_QUEUE_CAPACITY};

verus! {

/// Ticks that must pass from one accepted contact to the next.
pub const DEBOUNCE_TICKS: u8 = 10;

/// Length of one sampling tick in milliseconds.
pub const TICK_MS: u32 = 50;

/// Shortest time between two accepted contacts, in milliseconds.
pub const DEBOUNCE_WINDOW_MS: u32 = 500;

/// One contact as the touch controller reports it.
#[derive(Clone, Copy, Debug, PartialEq, Eq, Structural)]
pub struct TouchSample {
    pub x: u16,
    pub y: u16,
    pub weight: u8,
    pub misc: u8,
}

/// What one poll of the touch controller gave: the number of contacts, and
/// the first contact's data. `None` stands for a read that failed.
#[derive(Clone, Copy, Debug, PartialEq, Eq, Structural)]
pub struct Reading {
    pub count: Option<u8>,
    pub contact: Option<TouchSample>,
}

/// The panel point of a contact. The controller's axes are the panel's
/// axes exchanged.
pub open spec fn sample_point(s: TouchSample) -> Point {
    Point { x: s.y as i32, y: s.x as i32 }
}

/// The point a reading carries: present when the controller counted at
/// least one contact and delivered its data. A failed read carries none.
pub open spec fn reading_point(r: Reading) -> Option<Point> {
    match (r.count, r.contact) {
        (Some(n), Some(s)) => if n > 0 { Some(sample_point(s)) } else { None },
        _ => None,
    }
}

/// Whether a tick with countdown `c` lets a contact through.
pub open spec fn accepts(c: int, touched: bool) -> bool {
    touched && c == 0
}

/// The countdown after a tick that began with countdown `c`. An accepted
/// contact restarts it, and the tick that accepted counts as its first;
/// otherwise it falls by one and stays at zero.
pub open spec fn step_countdown(c: int, touched: bool) -> int {
    if accepts(c, touched) {
        DEBOUNCE_TICKS - 1
    } else if c > 0 {
        c - 1
    } else {
        0
    }
}

/// The countdown after the first `n` ticks of `touched`, starting from `c0`.
pub open spec fn countdown_after(c0: int, touched: Seq<bool>, n: int) -> int
    decreases n,
{
    if n <= 0 {
        c0
    } else {
        step_countdown(countdown_after(c0, touched, n - 1), touched[n - 1])
    }
}

/// Whether tick `i` of `touched` lets its contact through, starting from
/// countdown `c0`.
pub open spec fn accepted_at(c0: int, touched: Seq<bool>, i: int) -> bool {
    0 <= i < touched.len() && accepts(countdown_after(c0, touched, i), touched[i])
}

/// For each reading, whether it carries a point.
pub open spec fn touched_ticks(readings: Seq<Reading>) -> Seq<bool> {
    Seq::new(readings.len(), |i: int| reading_point(readings[i]).is_some())
}

/// The countdown state of the touch sampler.
#[derive(Clone, Copy, Debug)]
pub struct Sampler {
    countdown: u8,
}

impl Sampler {
    /// Ticks left during which contacts are held back.
    pub closed spec fn countdown(self) -> int {
        self.countdown as int
    }

    /// A sampler that accepts the next contact.
    pub fn new() -> (s: Sampler)
        ensures
            s.countdown() == 0,
    {
        Sampler { countdown: 0 }
    }

    /// Ticks left during which contacts are held back.
    pub fn remaining(&self) -> (n: u8)
        ensures
            n == self.countdown(),
    {
        self.countdown
    }

    /// Whether the next contact would be let through.
    pub fn is_armed(&self) -> (armed: bool)
        ensures
            armed == (self.countdown() == 0),
    {
        self.countdown == 0
    }

    /// One sampling tick. Returns the point to hand on, if the reading
    /// carries one and the countdown has run out; the countdown then
    /// restarts. Every other tick moves the countdown one step towards zero.
    pub fn tick(&mut self, reading: Reading) -> (sent: Option<Point>)
        ensures
            sent == if accepts(old(self).countdown(), reading_point(reading).is_some()) {
                reading_point(reading)
            } else {
                None
            },
            final(self).countdown() == step_countdown(
                old(self).countdown(),
                reading_point(reading).is_some(),
            ),
    {
        let point = read_point(reading);
        let mut sent: Option<Point> = None;
        if point.is_some() && self.countdown == 0 {
            sent = point;
            self.countdown = DEBOUNCE_TICKS;
        }
        if self.countdown > 0 {
            self.countdown = self.countdown - 1;
        }
        sent
    }

    /// One sampling tick whose point, if it hands one on, goes to the queue
    /// of touch points. A point that finds the queue full is returned,
    /// never dropped: the caller sends it once there is room.
    pub fn tick_into(&mut self, reading: Reading, touches: &mut TouchQueue) -> (held: Option<Point>)
        ensures
            final(self).countdown() == step_countdown(
                old(self).countdown(),
                reading_point(reading).is_some(),
            ),
            !accepts(old(self).countdown(), reading_point(reading).is_some()) ==> held.is_none()
                && final(touches)@ == old(touches)@,
            accepts(old(self).countdown(), reading_point(reading).is_some()) ==> if old(touches)@.len()
                < TOUCH_QUEUE_CAPACITY {
                held.is_none() && final(touches)@ == old(touches)@.push(
                    reading_point(reading).unwrap(),
                )
            } else {
                held == reading_point(reading) && final(touches)@ == old(touches)@
            },
    {
        match self.tick(reading) {
            None => None,
            Some(point) => {
                if touches.try_send(point) {
                    None
                } else {
                    Some(point)
                }
            },
        }
    }

    /// Runs one tick per reading, in order, and returns what each tick
    /// handed on.
    pub fn feed(&mut self, readings: &Vec<Reading>) -> (sent: Vec<Option<Point>>)
        ensures
            sent@.len() == readings@.len(),
            forall|i: int|
                0 <= i < readings@.len() ==> #[trigger] sent@[i] == if accepted_at(
                    old(self).countdown(),
                    touched_ticks(readings@),
                    i,
                ) {
                    reading_point(readings@[i])
                } else {
                    None
                },
            final(self).countdown() == countdown_after(
                old(self).countdown(),
                touched_ticks(readings@),
                readings@.len() as int,
            ),
    {
        let ghost c0 = self.countdown();
        let ghost touched = touched_ticks(readings@);
        let mut sent: Vec<Option<Point>> = Vec::new();
        let mut i: usize = 0;
        while i < readings.len()
            invariant
                i <= readings@.len(),
                touched == touched_ticks(readings@),
                sent@.len() == i,
                self.countdown() == countdown_after(c0, touched, i as int),
                forall|k: int|
                    0 <= k < i ==> #[trigger] sent@[k] == if accepted_at(c0, touched, k) {
                        reading_point(readings@[k])
                    } else {
                        None
                    },
            decreases readings@.len() - i,
        {
            let out = self.tick(readings[i]);
            sent.push(out);
            i = i + 1;
        }
        sent
    }
}

/// The point a reading carries, if any.
pub fn read_point(reading: Reading) -> (p: Option<Point>)
    ensures
        p == reading_point(reading),
{
    match (reading.count, reading.contact) {
        (Some(n), Some(s)) => {
            if n > 0 {
                Some(Point { x: s.y as i32, y: s.x as i32 })
            } else {
                None
            }
        },
        _ => None,
    }
}

/// While a countdown runs, no tick accepts: `k` ticks after an accepted
/// contact, with `k` below the debounce length, the countdown stands at
/// the debounce length less `k` and less the accepting tick itself.
pub proof fn lemma_countdown_runs(c0: int, touched: Seq<bool>, i: int, k: int)
    requires
        accepted_at(c0, touched, i),
        1 <= k <= DEBOUNCE_TICKS - 1,
        i + k <= touched.len(),
    ensures
        countdown_after(c0, touched, i + k) == DEBOUNCE_TICKS - k,
    decreases k,
{
    if k == 1 {
        assert(countdown_after(c0, touched, i + 1) == step_countdown(
            countdown_after(c0, touched, i),
            touched[i],
        ));
    } else {
        lemma_countdown_runs(c0, touched, i, k - 1);
        assert(countdown_after(c0, touched, i + k) == step_countdown(
            countdown_after(c0, touched, i + k - 1),
            touched[i + k - 1],
        ));
    }
}

/// Debounce: whatever the sequence of samples and the countdown it starts
/// from, two accepted contacts lie at least a full debounce window apart,
/// counted in ticks and in milliseconds.
pub proof fn lemma_accepted_spacing(c0: int, touched: Seq<bool>, i: int, j: int)
    requires
        accepted_at(c0, touched, i),
        accepted_at(c0, touched, j),
        i < j,
    ensures
        j - i >= DEBOUNCE_TICKS,
        (j - i) * TICK_MS >= DEBOUNCE_WINDOW_MS,
{
    if j - i < DEBOUNCE_TICKS {
        lemma_countdown_runs(c0, touched, i, j - i);
        assert(countdown_after(c0, touched, j) > 0);
    }
}

} // verus!
