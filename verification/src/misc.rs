//! Shared color types: 8-bit-per-channel RGB and the RGB565 wire format.

use vstd::prelude::*;

verus! {

/// A color with 8 bits per channel.
#[derive(Clone, Copy, Debug, Default, PartialEq, Eq, Structural)]
pub struct ColorRGB8 {
    pub r: u8,
    pub g: u8,
    pub b: u8,
}

impl ColorRGB8 {
    pub fn black() -> (c: ColorRGB8)
        ensures
            c == (ColorRGB8 { r: 0x00, g: 0x00, b: 0x00 }),
    {
        ColorRGB8 { r: 0x00, g: 0x00, b: 0x00 }
    }

    pub fn red() -> (c: ColorRGB8)
        ensures
            c == (ColorRGB8 { r: 0xff, g: 0x00, b: 0x00 }),
    {
        ColorRGB8 { r: 0xff, g: 0x00, b: 0x00 }
    }

    pub fn green() -> (c: ColorRGB8)
        ensures
            c == (ColorRGB8 { r: 0x00, g: 0xff, b: 0x00 }),
    {
        ColorRGB8 { r: 0x00, g: 0xff, b: 0x00 }
    }

    pub fn blue() -> (c: ColorRGB8)
        ensures
            c == (ColorRGB8 { r: 0x00, g: 0x00, b: 0xff }),
    {
        ColorRGB8 { r: 0x00, g: 0x00, b: 0xff }
    }

    pub fn cyan() -> (c: ColorRGB8)
        ensures
            c == (ColorRGB8 { r: 0x00, g: 0xff, b: 0xff }),
    {
        ColorRGB8 { r: 0x00, g: 0xff, b: 0xff }
    }

    pub fn yellow() -> (c: ColorRGB8)
        ensures
            c == (ColorRGB8 { r: 0xff, g: 0xff, b: 0x00 }),
    {
        ColorRGB8 { r: 0xff, g: 0xff, b: 0x00 }
    }

    pub fn pink() -> (c: ColorRGB8)
        ensures
            c == (ColorRGB8 { r: 0xff, g: 0x00, b: 0xff }),
    {
        ColorRGB8 { r: 0xff, g: 0x00, b: 0xff }
    }
}

/// The RGB565 value of an 8-bit-per-channel color: each channel keeps its
/// high bits (5 for red, 6 for green, 5 for blue), packed red-green-blue
/// from the most significant bit down.
pub open spec fn rgb565_value(c: ColorRGB8) -> int {
    (c.r as int / 8) * 2048 + (c.g as int / 4) * 32 + (c.b as int / 8)
}

/// The big-endian byte pair of a 16-bit value.
pub open spec fn be16(v: u16) -> Seq<u8> {
    seq![(v as int / 256) as u8, (v as int % 256) as u8]
}

/// A color in RGB565 layout, as sent big-endian on the display bus.
#[derive(Clone, Copy, Debug, Default, PartialEq, Eq, Structural)]
pub struct ColorRGB565(pub u16);

impl ColorRGB565 {
    /// The two bytes of this color in the order the display expects.
    pub fn to_be(self) -> (r: [u8; 2])
        ensures
            r@ == be16(self.0),
    {
        let hi = (self.0 / 256) as u8;
        let lo = (self.0 % 256) as u8;
        [hi, lo]
    }
}

impl From<u16> for ColorRGB565 {
    fn from(value: u16) -> (c: ColorRGB565)
        ensures
            c == ColorRGB565(value),
    {
        ColorRGB565(value)
    }
}

impl vstd::std_specs::convert::FromSpecImpl<u16> for ColorRGB565 {
    open spec fn obeys_from_spec() -> bool {
        true
    }

    open spec fn from_spec(value: u16) -> ColorRGB565 {
        ColorRGB565(value)
    }
}

impl From<ColorRGB565> for u16 {
    fn from(value: ColorRGB565) -> (v: u16)
        ensures
            v == value.0,
    {
        value.0
    }
}

impl vstd::std_specs::convert::FromSpecImpl<ColorRGB565> for u16 {
    open spec fn obeys_from_spec() -> bool {
        true
    }

    open spec fn from_spec(value: ColorRGB565) -> u16 {
        value.0
    }
}

impl From<ColorRGB8> for ColorRGB565 {
    fn from(value: ColorRGB8) -> (c: ColorRGB565)
        ensures
            c.0 == rgb565_value(value),
    {
        let r = (value.r / 8) as u16;
        let g = (value.g / 4) as u16;
        let b = (value.b / 8) as u16;
        ColorRGB565(r * 2048 + g * 32 + b)
    }
}

impl vstd::std_specs::convert::FromSpecImpl<ColorRGB8> for ColorRGB565 {
    open spec fn obeys_from_spec() -> bool {
        true
    }

    open spec fn from_spec(value: ColorRGB8) -> ColorRGB565 {
        ColorRGB565(rgb565_value(value) as u16)
    }
}

} // verus!
