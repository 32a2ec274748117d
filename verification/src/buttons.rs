//! Button debouncing and edge detection.
//!
//! The debouncer integrates the sampled line level; the button turns the
//! debounced level into press and release events. Sampling the line is the
//! surrounding program's job: each update takes the current level.

use vstd::prelude::*;

verus! {

/// A press or release edge of a button.
#[derive(Clone, Copy, Debug, PartialEq, Eq, Structural)]
pub enum ButtonEvent {
    Press,
    Release,
}

/// The debounced state of a button.
#[derive(Clone, Copy, Debug, PartialEq, Eq, Structural)]
pub enum ButtonState {
    Released,
    Pressed,
}

/// The value of a debouncer.
pub ghost struct DebounceView {
    pub integrator: u32,
    pub max: u32,
    pub output: bool,
}

impl DebounceView {
    /// One integration step on a sampled line level: a low line drains the
    /// integrator, otherwise it charges up to the bound; the output flips
    /// only at the two ends.
    pub open spec fn step(self, pin_low: bool) -> DebounceView {
        let integrator: u32 = if pin_low && self.integrator != 0 {
            (self.integrator - 1) as u32
        } else if self.integrator < self.max {
            (self.integrator + 1) as u32
        } else {
            self.integrator
        };
        let output: bool = if integrator == 0 {
            false
        } else if integrator == self.max {
            true
        } else {
            self.output
        };
        DebounceView { integrator, max: self.max, output }
    }
}

/// An integrating debouncer for one input line.
pub struct Debounce {
    integrator: u32,
    max: u32,
    output: bool,
}

impl View for Debounce {
    type V = DebounceView;

    closed spec fn view(&self) -> DebounceView {
        DebounceView { integrator: self.integrator, max: self.max, output: self.output }
    }
}

impl Debounce {
    pub fn new(integrator_max: u32) -> (d: Debounce)
        ensures
            d@ == (DebounceView { integrator: 0, max: integrator_max, output: false }),
    {
        Debounce { integrator: 0, max: integrator_max, output: false }
    }

    /// The debounced level: true while the button counts as pressed.
    pub fn is_pressed(&self) -> (r: bool)
        ensures
            r == self@.output,
    {
        self.output
    }

    /// Integrate one sample of the line level.
    pub fn update(&mut self, pin_low: bool)
        ensures
            final(self)@ == old(self)@.step(pin_low),
    {
        if pin_low && self.integrator != 0 {
            self.integrator = self.integrator - 1;
        } else if self.integrator < self.max {
            self.integrator = self.integrator + 1;
        }
        if self.integrator == 0 {
            self.output = false;
        } else if self.integrator == self.max {
            self.output = true;
        }
    }
}

/// The value of a button: its debouncer and its last reported state.
pub ghost struct ButtonView {
    pub pin: DebounceView,
    pub state: ButtonState,
}

impl ButtonView {
    /// The event a button reports after one sample: a press edge when the
    /// debounced level rises, a release edge when it falls.
    pub open spec fn step_event(self, pin_low: bool) -> Option<ButtonEvent> {
        let pin = self.pin.step(pin_low);
        match self.state {
            ButtonState::Released => if pin.output {
                Some(ButtonEvent::Press)
            } else {
                None
            },
            ButtonState::Pressed => if !pin.output {
                Some(ButtonEvent::Release)
            } else {
                None
            },
        }
    }

    /// The button after one sample.
    pub open spec fn step(self, pin_low: bool) -> ButtonView {
        let pin = self.pin.step(pin_low);
        let state = match self.state {
            ButtonState::Released => if pin.output {
                ButtonState::Pressed
            } else {
                ButtonState::Released
            },
            ButtonState::Pressed => if !pin.output {
                ButtonState::Released
            } else {
                ButtonState::Pressed
            },
        };
        ButtonView { pin, state }
    }
}

/// A debounced button that reports press and release edges.
pub struct Button {
    pin: Debounce,
    state: ButtonState,
}

impl View for Button {
    type V = ButtonView;

    closed spec fn view(&self) -> ButtonView {
        ButtonView { pin: self.pin@, state: self.state }
    }
}

impl Button {
    pub fn new(pin: Debounce) -> (b: Button)
        ensures
            b@ == (ButtonView { pin: pin@, state: ButtonState::Released }),
    {
        Button { pin, state: ButtonState::Released }
    }

    pub fn is_pressed(&self) -> (r: bool)
        ensures
            r == self@.pin.output,
    {
        self.pin.is_pressed()
    }

    /// Feed one sample of the line level; report the edge it caused, if any.
    pub fn update(&mut self, pin_low: bool) -> (r: Option<ButtonEvent>)
        ensures
            final(self)@ == old(self)@.step(pin_low),
            r == old(self)@.step_event(pin_low),
    {
        self.pin.update(pin_low);
        match self.state {
            ButtonState::Released => {
                if self.pin.is_pressed() {
                    self.state = ButtonState::Pressed;
                    return Some(ButtonEvent::Press);
                }
            },
            ButtonState::Pressed => {
                if !self.pin.is_pressed() {
                    self.state = ButtonState::Released;
                    return Some(ButtonEvent::Release);
                }
            },
        }
        None
    }
}

} // verus!
