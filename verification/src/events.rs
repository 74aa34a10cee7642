//! The messages that travel between the panel and the output driver.

use vstd::prelude::*;

verus! {

/// Number of buttons on the panel, and of outputs behind them.
pub const BUTTON_COUNT: usize = 4;

/// A touch landed on the button of this name.
#[derive(Clone, Copy, Debug, PartialEq, Eq, Structural)]
pub enum ButtonEvent {
    D0,
    D1,
    D2,
    D3,
}

/// The output of this name now drives the given level (`true` is high).
#[derive(Clone, Copy, Debug, PartialEq, Eq, Structural)]
pub enum PinStateEvent {
    D0(bool),
    D1(bool),
    D2(bool),
    D3(bool),
}

impl ButtonEvent {
    /// Position of the button in the panel's fixed order.
    pub open spec fn spec_index(self) -> int {
        match self {
            ButtonEvent::D0 => 0,
            ButtonEvent::D1 => 1,
            ButtonEvent::D2 => 2,
            ButtonEvent::D3 => 3,
        }
    }

    /// The button at position `i`; positions past the last name the last one.
    pub open spec fn spec_from_index(i: int) -> ButtonEvent {
        if i == 0 {
            ButtonEvent::D0
        } else if i == 1 {
            ButtonEvent::D1
        } else if i == 2 {
            ButtonEvent::D2
        } else {
            ButtonEvent::D3
        }
    }

    /// Position of the button in the panel's fixed order.
    pub fn index(self) -> (i: usize)
        ensures
            i == self.spec_index(),
            i < BUTTON_COUNT,
    {
        match self {
            ButtonEvent::D0 => 0,
            ButtonEvent::D1 => 1,
            ButtonEvent::D2 => 2,
            ButtonEvent::D3 => 3,
        }
    }

    /// The button at position `i` of the panel's fixed order.
    pub fn from_index(i: usize) -> (b: ButtonEvent)
        requires
            i < BUTTON_COUNT,
        ensures
            b == ButtonEvent::spec_from_index(i as int),
            b.spec_index() == i,
    {
        if i == 0 {
            ButtonEvent::D0
        } else if i == 1 {
            ButtonEvent::D1
        } else if i == 2 {
            ButtonEvent::D2
        } else {
            ButtonEvent::D3
        }
    }
}

impl PinStateEvent {
    /// The button whose output the event reports.
    pub open spec fn spec_button(self) -> ButtonEvent {
        match self {
            PinStateEvent::D0(_) => ButtonEvent::D0,
            PinStateEvent::D1(_) => ButtonEvent::D1,
            PinStateEvent::D2(_) => ButtonEvent::D2,
            PinStateEvent::D3(_) => ButtonEvent::D3,
        }
    }

    /// The level the event reports.
    pub open spec fn spec_level(self) -> bool {
        match self {
            PinStateEvent::D0(l) => l,
            PinStateEvent::D1(l) => l,
            PinStateEvent::D2(l) => l,
            PinStateEvent::D3(l) => l,
        }
    }

    /// The report that `button`'s output drives `level`.
    pub open spec fn spec_new(button: ButtonEvent, level: bool) -> PinStateEvent {
        match button {
            ButtonEvent::D0 => PinStateEvent::D0(level),
            ButtonEvent::D1 => PinStateEvent::D1(level),
            ButtonEvent::D2 => PinStateEvent::D2(level),
            ButtonEvent::D3 => PinStateEvent::D3(level),
        }
    }

    /// The report that `button`'s output drives `level`.
    pub fn new(button: ButtonEvent, level: bool) -> (e: PinStateEvent)
        ensures
            e == PinStateEvent::spec_new(button, level),
            e.spec_button() == button,
            e.spec_level() == level,
    {
        match button {
            ButtonEvent::D0 => PinStateEvent::D0(level),
            ButtonEvent::D1 => PinStateEvent::D1(level),
            ButtonEvent::D2 => PinStateEvent::D2(level),
            ButtonEvent::D3 => PinStateEvent::D3(level),
        }
    }

    /// The button whose output the event reports.
    pub fn button(self) -> (b: ButtonEvent)
        ensures
            b == self.spec_button(),
    {
        match self {
            PinStateEvent::D0(_) => ButtonEvent::D0,
            PinStateEvent::D1(_) => ButtonEvent::D1,
            PinStateEvent::D2(_) => ButtonEvent::D2,
            PinStateEvent::D3(_) => ButtonEvent::D3,
        }
    }

    /// The level the event reports.
    pub fn level(self) -> (l: bool)
        ensures
            l == self.spec_level(),
    {
        match self {
            PinStateEvent::D0(l) => l,
            PinStateEvent::D1(l) => l,
            PinStateEvent::D2(l) => l,
            PinStateEvent::D3(l) => l,
        }
    }
}

} // verus!
