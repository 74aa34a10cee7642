//! The output driver: one output line per button, flipped on request.

use vstd::prelude::*;
use crate::events::{ButtonEvent, PinStateEvent};
use crate::queue::{ButtonEventQueue, PinStateQueue, EVENT_QUEUE_CAPACITY};

verus! {

/// How one turn of the output driver ended.
#[derive(Clone, Copy, Debug, PartialEq, Eq, Structural)]
pub enum Served {
    /// No button event was waiting.
    Idle,
    /// An event was served and its report queued.
    Reported(PinStateEvent),
    /// An event was served, but the queue of reports was full: the report
    /// is handed to the caller, who sends it once there is room.
    Held(PinStateEvent),
}

/// The levels of the four output lines, one per button; `true` is high.
#[derive(Clone, Copy, Debug, PartialEq, Eq, Structural)]
pub struct OutputBank {
    d0: bool,
    d1: bool,
    d2: bool,
    d3: bool,
}

impl OutputBank {
    /// The level that the line of `button` drives.
    pub closed spec fn level(self, button: ButtonEvent) -> bool {
        match button {
            ButtonEvent::D0 => self.d0,
            ButtonEvent::D1 => self.d1,
            ButtonEvent::D2 => self.d2,
            ButtonEvent::D3 => self.d3,
        }
    }

    /// A bank with every line low.
    pub fn new() -> (bank: OutputBank)
        ensures
            forall|b: ButtonEvent| !bank.level(b),
    {
        OutputBank { d0: false, d1: false, d2: false, d3: false }
    }

    /// Whether the line of `button` is high.
    pub fn is_set_high(&self, button: ButtonEvent) -> (high: bool)
        ensures
            high == self.level(button),
    {
        match button {
            ButtonEvent::D0 => self.d0,
            ButtonEvent::D1 => self.d1,
            ButtonEvent::D2 => self.d2,
            ButtonEvent::D3 => self.d3,
        }
    }

    /// Flips the line of `button` and leaves the others as they are.
    pub fn toggle(&mut self, button: ButtonEvent)
        ensures
            final(self).level(button) == !old(self).level(button),
            forall|b: ButtonEvent| b != button ==> final(self).level(b) == old(self).level(b),
    {
        match button {
            ButtonEvent::D0 => {
                self.d0 = !self.d0;
            },
            ButtonEvent::D1 => {
                self.d1 = !self.d1;
            },
            ButtonEvent::D2 => {
                self.d2 = !self.d2;
            },
            ButtonEvent::D3 => {
                self.d3 = !self.d3;
            },
        }
    }

    /// Serves one button event: flips the line of that button, reads the
    /// line back and reports what it now drives. The report names the same
    /// button, and its level is the opposite of the level the line drove
    /// before the flip.
    pub fn process(&mut self, event: ButtonEvent) -> (report: PinStateEvent)
        ensures
            report == PinStateEvent::spec_new(event, !old(self).level(event)),
            report.spec_button() == event,
            report.spec_level() == !old(self).level(event),
            report.spec_level() == final(self).level(event),
            forall|b: ButtonEvent| b != event ==> final(self).level(b) == old(self).level(b),
    {
        self.toggle(event);
        let now = self.is_set_high(event);
        PinStateEvent::new(event, now)
    }

    /// One turn of the output driver: takes the oldest button event, if
    /// any, serves it as `process` does, and queues the report behind the
    /// reports that wait. One event in, one report out, in that order; a
    /// report that finds the queue full is returned, never dropped.
    pub fn serve(&mut self, events: &mut ButtonEventQueue, pins: &mut PinStateQueue) -> (served:
        Served)
        ensures
            old(events)@.len() == 0 ==> {
                &&& served == Served::Idle
                &&& final(events)@ == old(events)@
                &&& final(pins)@ == old(pins)@
                &&& forall|b: ButtonEvent| final(self).level(b) == old(self).level(b)
            },
            old(events)@.len() > 0 ==> {
                let event = old(events)@.first();
                let report = PinStateEvent::spec_new(event, !old(self).level(event));
                &&& final(events)@ == old(events)@.drop_first()
                &&& final(self).level(event) == !old(self).level(event)
                &&& forall|b: ButtonEvent|
                    b != event ==> final(self).level(b) == old(self).level(b)
                &&& if old(pins)@.len() < EVENT_QUEUE_CAPACITY {
                    served == Served::Reported(report) && final(pins)@ == old(pins)@.push(report)
                } else {
                    served == Served::Held(report) && final(pins)@ == old(pins)@
                }
            },
    {
        match events.try_receive() {
            None => Served::Idle,
            Some(event) => {
                let report = self.process(event);
                if pins.try_send(report) {
                    Served::Reported(report)
                } else {
                    Served::Held(report)
                }
            },
        }
    }
}

} // verus!
