//! LED strip modes and brightness scaling.
//!
//! The strip shows one uniform color chosen from a small cycle of modes.
//! The animated mode's color computation is floating-point work done by the
//! surrounding program; the mode cycle and the integer brightness scaling
//! live here.

use vstd::prelude::*;
use crate::misc::ColorRGB8;

verus! {

/// Number of LEDs on the strip.
pub const LED_COUNT: usize = 6;

/// The backlight mode of the LED strip.
#[derive(Clone, Copy, Debug, PartialEq, Eq, Structural)]
pub enum LedMode {
    Off,
    Sin,
    Red,
    Green,
    Blue,
    Yellow,
    Cyan,
    Pink,
}

impl LedMode {
    /// The next mode to the right in the cycle.
    pub open spec fn spec_right(self) -> LedMode {
        match self {
            LedMode::Off => LedMode::Sin,
            LedMode::Sin => LedMode::Red,
            LedMode::Red => LedMode::Green,
            LedMode::Green => LedMode::Blue,
            LedMode::Blue => LedMode::Yellow,
            LedMode::Yellow => LedMode::Cyan,
            LedMode::Cyan => LedMode::Pink,
            LedMode::Pink => LedMode::Off,
        }
    }

    /// The next mode to the left in the cycle.
    pub open spec fn spec_left(self) -> LedMode {
        match self {
            LedMode::Off => LedMode::Pink,
            LedMode::Sin => LedMode::Off,
            LedMode::Red => LedMode::Sin,
            LedMode::Green => LedMode::Red,
            LedMode::Blue => LedMode::Green,
            LedMode::Yellow => LedMode::Blue,
            LedMode::Cyan => LedMode::Yellow,
            LedMode::Pink => LedMode::Cyan,
        }
    }

    pub fn right(self) -> (r: LedMode)
        ensures
            r == self.spec_right(),
    {
        match self {
            LedMode::Off => LedMode::Sin,
            LedMode::Sin => LedMode::Red,
            LedMode::Red => LedMode::Green,
            LedMode::Green => LedMode::Blue,
            LedMode::Blue => LedMode::Yellow,
            LedMode::Yellow => LedMode::Cyan,
            LedMode::Cyan => LedMode::Pink,
            LedMode::Pink => LedMode::Off,
        }
    }

    pub fn left(self) -> (r: LedMode)
        ensures
            r == self.spec_left(),
    {
        match self {
            LedMode::Off => LedMode::Pink,
            LedMode::Sin => LedMode::Off,
            LedMode::Red => LedMode::Sin,
            LedMode::Green => LedMode::Red,
            LedMode::Blue => LedMode::Green,
            LedMode::Yellow => LedMode::Blue,
            LedMode::Cyan => LedMode::Yellow,
            LedMode::Pink => LedMode::Cyan,
        }
    }
}

/// Walking right and then left through the mode cycle, or left and then
/// right, comes back to the starting mode.
pub proof fn lemma_led_mode_cycle(m: LedMode)
    ensures
        m.spec_right().spec_left() == m,
        m.spec_left().spec_right() == m,
{
}

/// A color scaled by a brightness factor out of 255, channel by channel.
pub open spec fn spec_adjust_brightness(color: ColorRGB8, brightness: u8) -> ColorRGB8 {
    ColorRGB8 {
        r: (color.r as int * brightness as int / 0xff) as u8,
        g: (color.g as int * brightness as int / 0xff) as u8,
        b: (color.b as int * brightness as int / 0xff) as u8,
    }
}

/// Scale a color by a brightness factor out of 255.
pub fn adjust_brightness(color: ColorRGB8, brightness: u8) -> (c: ColorRGB8)
    ensures
        c == spec_adjust_brightness(color, brightness),
{
    proof {
        assert(color.r as int * brightness as int <= 255 * 255) by (nonlinear_arith)
            requires
                color.r <= 255,
                brightness <= 255,
        ;
        assert(color.g as int * brightness as int <= 255 * 255) by (nonlinear_arith)
            requires
                color.g <= 255,
                brightness <= 255,
        ;
        assert(color.b as int * brightness as int <= 255 * 255) by (nonlinear_arith)
            requires
                color.b <= 255,
                brightness <= 255,
        ;
    }
    ColorRGB8 {
        r: ((color.r as u16 * brightness as u16) / 0xff) as u8,
        g: ((color.g as u16 * brightness as u16) / 0xff) as u8,
        b: ((color.b as u16 * brightness as u16) / 0xff) as u8,
    }
}

} // verus!
