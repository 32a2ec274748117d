//! Driver for six ST7789VW panels multiplexed on one SPI line.
//!
//! The six panels are electrically identical and share the bus; three
//! chip-select address lines carry a 3-bit code that an external decoder
//! turns into one chip select per panel. Every drawing operation asserts
//! the target panel's code before the first byte and drives all three lines
//! high again immediately after. A single data/command line distinguishes
//! opcode bytes (low) from payload bytes (high), and window addresses are
//! shifted by a fixed per-axis offset because the panels' visible area sits
//! inside a larger addressable canvas.

use vstd::prelude::*;
use crate::misc::be16;
use crate::ports::{data_events, DisplayPort, PortEvent};

verus! {

/// Visible width of one panel in pixels.
pub const WIDTH: u16 = 135;

/// Visible height of one panel in pixels.
pub const HEIGHT: u16 = 240;

/// Column offset of the visible window inside the addressable canvas.
pub const X_OFFSET: u16 = 52;

/// Row offset of the visible window inside the addressable canvas.
pub const Y_OFFSET: u16 = 40;

/// Memory data access control.
pub const MADCTL: u8 = 0x36;

/// Interface pixel format.
pub const COLMOD: u8 = 0x3A;

/// Porch setting.
pub const PORCTRL: u8 = 0xB2;

/// Gate control.
pub const GCTRL: u8 = 0xB7;

/// VCOMS setting.
pub const VCOMS: u8 = 0xBB;

/// LCM control.
pub const LCMCTRL: u8 = 0xC0;

/// VDV and VRH command enable.
pub const VDVVRHEN: u8 = 0xC2;

/// VRH set.
pub const VRHS: u8 = 0xC3;

/// VDV set.
pub const VDVS: u8 = 0xC4;

/// Frame rate control.
pub const FRCTRL2: u8 = 0xC6;

/// Power control.
pub const PWCTRL1: u8 = 0xD0;

/// Positive voltage gamma control.
pub const PVGAMCTRL: u8 = 0xE0;

/// Negative voltage gamma control.
pub const NVGAMCTRL: u8 = 0xE1;

/// Display inversion on.
pub const INVON: u8 = 0x21;

/// Sleep out.
pub const SLPOUT: u8 = 0x11;

/// Display on.
pub const DISPON: u8 = 0x29;

/// Column address set.
pub const CASET: u8 = 0x2A;

/// Row address set.
pub const RASET: u8 = 0x2B;

/// Memory write.
pub const RAMWR: u8 = 0x2C;

/// One of the six panels, left to right.
#[derive(Clone, Copy, Debug, PartialEq, Eq, Structural)]
pub enum Display {
    D1,
    D2,
    D3,
    D4,
    D5,
    D6,
}

impl Display {
    /// The 3-bit select code of this panel. The enumeration is reversed:
    /// the first panel carries the highest code and the last panel code 0.
    pub open spec fn cs_code(self) -> u8 {
        match self {
            Display::D1 => 5,
            Display::D2 => 4,
            Display::D3 => 3,
            Display::D4 => 2,
            Display::D5 => 1,
            Display::D6 => 0,
        }
    }

    /// The select code, as driven on the three chip-select address lines.
    pub fn into_cs_value(self) -> (v: usize)
        ensures
            v == self.cs_code(),
    {
        match self {
            Display::D1 => 5,
            Display::D2 => 4,
            Display::D3 => 3,
            Display::D4 => 2,
            Display::D5 => 1,
            Display::D6 => 0,
        }
    }

    /// All six panels, left to right.
    pub fn all() -> (v: Vec<Display>)
        ensures
            v@ == all_displays(),
    {
        let v = vec![
            Display::D1,
            Display::D2,
            Display::D3,
            Display::D4,
            Display::D5,
            Display::D6,
        ];
        proof {
            assert(v@ =~= all_displays());
        }
        v
    }
}

/// The six panels in order.
pub open spec fn all_displays() -> Seq<Display> {
    seq![Display::D1, Display::D2, Display::D3, Display::D4, Display::D5, Display::D6]
}

/// The select code is a bijection between the six panels and the codes
/// 0 through 5, following the fixed reversed table.
pub proof fn lemma_cs_code_bijective()
    ensures
        Display::D1.cs_code() == 5,
        Display::D2.cs_code() == 4,
        Display::D3.cs_code() == 3,
        Display::D4.cs_code() == 2,
        Display::D5.cs_code() == 1,
        Display::D6.cs_code() == 0,
        forall|a: Display, b: Display| a.cs_code() == b.cs_code() ==> a == b,
        forall|d: Display| d.cs_code() < 6,
{
}

/// The three line levels that select a panel: line `i` carries bit `i`
/// of the select code.
pub open spec fn cs_select_events(d: Display) -> Seq<PortEvent> {
    seq![
        PortEvent::Cs1(d.cs_code() as int % 2 == 1),
        PortEvent::Cs2(d.cs_code() as int / 2 % 2 == 1),
        PortEvent::Cs3(d.cs_code() as int / 4 % 2 == 1),
    ]
}

/// All three select lines driven high: no panel selected.
pub open spec fn cs_deselect_events() -> Seq<PortEvent> {
    seq![PortEvent::Cs1(true), PortEvent::Cs2(true), PortEvent::Cs3(true)]
}

/// A command byte: the data/command line low, then the opcode.
pub open spec fn command_events(op: u8) -> Seq<PortEvent> {
    seq![PortEvent::Dc(false), PortEvent::Data(op)]
}

/// A payload: the data/command line high, then the bytes.
pub open spec fn payload_events(data: Seq<u8>) -> Seq<PortEvent> {
    seq![PortEvent::Dc(true)] + data_events(data)
}

/// The bytes of an address window command: the big-endian offset start
/// followed by the big-endian offset end, both end-inclusive.
pub open spec fn window_bytes(start: u16, end: u16, offset: u16) -> Seq<u8> {
    be16((start + offset) as u16) + be16((end + offset) as u16)
}

/// The whole address-window exchange: a column window shifted by the
/// column offset, then a row window shifted by the row offset.
pub open spec fn region_events(x_start: u16, y_start: u16, x_end: u16, y_end: u16) -> Seq<
    PortEvent,
> {
    command_events(CASET) + payload_events(window_bytes(x_start, x_end, X_OFFSET))
        + command_events(RASET) + payload_events(window_bytes(y_start, y_end, Y_OFFSET))
}

/// Everything one pixel write drives on the port: select the panel,
/// program the window, issue the memory write, stream the color bytes,
/// deselect.
pub open spec fn pixel_write_events(
    d: Display,
    x_start: u16,
    y_start: u16,
    x_end: u16,
    y_end: u16,
    colors: Seq<u8>,
) -> Seq<PortEvent> {
    cs_select_events(d) + region_events(x_start, y_start, x_end, y_end) + command_events(RAMWR)
        + payload_events(colors) + cs_deselect_events()
}

/// A failure of the display driver.
#[derive(Clone, Copy, Debug, PartialEq, Eq, Structural)]
pub enum Error {
    /// A region outside the addressable window was requested.
    OutOfBounds,
    /// A write on the shared SPI bus failed.
    BusWrite,
}

/// Driver for the six multiplexed panels.
pub struct ST7789VWx6<P> {
    port: P,
    width: u16,
    height: u16,
    brightness: u16,
}

impl<P> ST7789VWx6<P> {
    /// Panel width this driver was built with.
    pub closed spec fn spec_width(&self) -> u16 {
        self.width
    }

    /// Panel height this driver was built with.
    pub closed spec fn spec_height(&self) -> u16 {
        self.height
    }

    /// Current backlight duty.
    pub closed spec fn spec_brightness(&self) -> u16 {
        self.brightness
    }

    /// The port the driver drives.
    pub closed spec fn spec_port(&self) -> P {
        self.port
    }

    pub fn new(port: P, width: u16, height: u16, brightness: u16) -> (d: ST7789VWx6<P>)
        ensures
            d.spec_port() == port,
            d.spec_width() == width,
            d.spec_height() == height,
            d.spec_brightness() == brightness,
    {
        ST7789VWx6 { port, width, height, brightness }
    }

    pub fn width(&self) -> (w: u16)
        ensures
            w == self.spec_width(),
    {
        self.width
    }

    pub fn height(&self) -> (h: u16)
        ensures
            h == self.spec_height(),
    {
        self.height
    }

    /// The port, for callers that need to read a recorded trace back.
    pub fn port(&self) -> (p: &P)
        ensures
            p == self.spec_port(),
    {
        &self.port
    }
}

impl<P: DisplayPort> ST7789VWx6<P> {
    /// The events driven on the port so far.
    pub open spec fn events(&self) -> Seq<PortEvent> {
        self.spec_port().events()
    }

    /// Width, height and brightness unchanged between two driver states.
    pub open spec fn same_config(&self, other: &ST7789VWx6<P>) -> bool {
        self.spec_width() == other.spec_width() && self.spec_height() == other.spec_height()
            && self.spec_brightness() == other.spec_brightness()
    }

    /// Set the backlight duty; no panel selection is involved.
    pub fn set_brightness(&mut self, brightness: u16)
        ensures
            final(self).events() == old(self).events().push(PortEvent::Backlight(brightness)),
            final(self).spec_brightness() == brightness,
            final(self).spec_width() == old(self).spec_width(),
            final(self).spec_height() == old(self).spec_height(),
    {
        self.brightness = brightness;
        self.port.set_backlight(brightness);
    }

    fn cs_low(&mut self, display: Display)
        ensures
            final(self).events() == old(self).events() + cs_select_events(display),
            final(self).same_config(old(self)),
    {
        let value = display.into_cs_value();
        self.port.set_csa1(value % 2 == 1);
        self.port.set_csa2(value / 2 % 2 == 1);
        self.port.set_csa3(value / 4 % 2 == 1);
        proof {
            assert(self.events() =~= old(self).events() + cs_select_events(display));
        }
    }

    fn cs_high(&mut self)
        ensures
            final(self).events() == old(self).events() + cs_deselect_events(),
            final(self).same_config(old(self)),
    {
        self.port.set_csa1(true);
        self.port.set_csa2(true);
        self.port.set_csa3(true);
        proof {
            assert(self.events() =~= old(self).events() + cs_deselect_events());
        }
    }

    fn send_commands(&mut self, cmds: &[u8]) -> (r: Result<(), Error>)
        ensures
            r is Ok ==> final(self).events() == old(self).events() + seq![
                PortEvent::Dc(false),
            ] + data_events(cmds@),
            r is Err ==> r == Err::<(), Error>(Error::BusWrite) && final(self).events() == old(
                self,
            ).events().push(PortEvent::Dc(false)),
            final(self).same_config(old(self)),
    {
        self.port.set_dc(false);
        match self.port.spi_write(cmds) {
            Ok(()) => {
                proof {
                    assert(self.events() =~= old(self).events() + seq![
                        PortEvent::Dc(false),
                    ] + data_events(cmds@));
                }
                Ok(())
            },
            Err(()) => Err(Error::BusWrite),
        }
    }

    fn send_command(&mut self, cmd: u8) -> (r: Result<(), Error>)
        ensures
            r is Ok ==> final(self).events() == old(self).events() + command_events(cmd),
            r is Err ==> r == Err::<(), Error>(Error::BusWrite) && final(self).events() == old(
                self,
            ).events().push(PortEvent::Dc(false)),
            final(self).same_config(old(self)),
    {
        let cmds: [u8; 1] = [cmd];
        let r = self.send_commands(cmds.as_slice());
        proof {
            if r is Ok {
                assert(old(self).events() + seq![PortEvent::Dc(false)] + data_events(cmds@)
                    =~= old(self).events() + command_events(cmd));
            }
        }
        r
    }

    fn send_data(&mut self, data: &[u8]) -> (r: Result<(), Error>)
        ensures
            r is Ok ==> final(self).events() == old(self).events() + payload_events(data@),
            r is Err ==> r == Err::<(), Error>(Error::BusWrite) && final(self).events() == old(
                self,
            ).events().push(PortEvent::Dc(true)),
            final(self).same_config(old(self)),
    {
        self.port.set_dc(true);
        match self.port.spi_write(data) {
            Ok(()) => {
                proof {
                    assert(self.events() =~= old(self).events() + payload_events(data@));
                }
                Ok(())
            },
            Err(()) => Err(Error::BusWrite),
        }
    }

    /// Program the address window for the next memory write. The window is
    /// end-inclusive and shifted by the fixed canvas offsets.
    fn set_region(&mut self, x_start: u16, y_start: u16, x_end: u16, y_end: u16) -> (r: Result<
        (),
        Error,
    >)
        requires
            x_start <= x_end,
            y_start <= y_end,
            x_end + X_OFFSET <= u16::MAX,
            y_end + Y_OFFSET <= u16::MAX,
        ensures
            r is Ok ==> final(self).events() == old(self).events() + region_events(
                x_start,
                y_start,
                x_end,
                y_end,
            ),
            r is Err ==> r == Err::<(), Error>(Error::BusWrite) && old(self).events().is_prefix_of(
                final(self).events(),
            ),
            final(self).same_config(old(self)),
    {
        let ghost pre = self.events();
        let x_start_off = x_start + X_OFFSET;
        let x_end_off = x_end + X_OFFSET;
        let y_start_off = y_start + Y_OFFSET;
        let y_end_off = y_end + Y_OFFSET;
        self.send_command(CASET)?;
        let x: [u8; 4] = [
            (x_start_off / 256) as u8,
            (x_start_off % 256) as u8,
            (x_end_off / 256) as u8,
            (x_end_off % 256) as u8,
        ];
        proof {
            assert(x@ =~= window_bytes(x_start, x_end, X_OFFSET));
        }
        self.send_data(x.as_slice())?;
        self.send_command(RASET)?;
        let y: [u8; 4] = [
            (y_start_off / 256) as u8,
            (y_start_off % 256) as u8,
            (y_end_off / 256) as u8,
            (y_end_off % 256) as u8,
        ];
        proof {
            assert(y@ =~= window_bytes(y_start, y_end, Y_OFFSET));
        }
        self.send_data(y.as_slice())?;
        proof {
            assert(self.events() =~= pre + region_events(x_start, y_start, x_end, y_end));
        }
        Ok(())
    }

    /// Pulse the shared reset line: high, low, high, each level held for the
    /// panel's minimum reset pulse width.
    fn hard_reset(&mut self)
        ensures
            final(self).events() == old(self).events() + reset_events(),
            final(self).same_config(old(self)),
    {
        self.port.set_rst(true);
        self.port.delay_cycles(1250);
        self.port.set_rst(false);
        self.port.delay_cycles(1250);
        self.port.set_rst(true);
        self.port.delay_cycles(1250);
        proof {
            assert(self.events() =~= old(self).events() + reset_events());
        }
    }

    /// Send the fixed vendor configuration to the currently selected panel:
    /// pixel format, porch, gate, voltage and gamma tables, inversion on,
    /// sleep out, display on.
    #[verifier::rlimit(80)]
    fn init_display(&mut self) -> (r: Result<(), Error>)
        ensures
            r is Ok ==> final(self).events() == old(self).events() + init_sequence_events(),
            r is Err ==> r == Err::<(), Error>(Error::BusWrite) && old(self).events().is_prefix_of(
                final(self).events(),
            ),
            final(self).same_config(old(self)),
    {
        let ghost pre = self.events();
        self.send_command(MADCTL)?;
        self.send_data([0x00u8].as_slice())?;
        self.send_command(COLMOD)?;
        self.send_data([0x55u8].as_slice())?;
        self.send_command(PORCTRL)?;
        self.send_data([0x0Cu8, 0x0C, 0x00, 0x33, 0x33].as_slice())?;
        self.send_command(GCTRL)?;
        self.send_data([0x35u8].as_slice())?;
        self.send_command(VCOMS)?;
        self.send_data([0x19u8].as_slice())?;
        self.send_command(LCMCTRL)?;
        self.send_data([0x2Cu8].as_slice())?;
        self.send_command(VDVVRHEN)?;
        self.send_data([0x01u8].as_slice())?;
        self.send_command(VRHS)?;
        self.send_data([0x12u8].as_slice())?;
        self.send_command(VDVS)?;
        self.send_data([0x20u8].as_slice())?;
        self.send_command(FRCTRL2)?;
        self.send_data([0x0Fu8].as_slice())?;
        self.send_command(PWCTRL1)?;
        self.send_data([0xA4u8, 0xA1].as_slice())?;
        proof {
            assert(self.events() =~= pre + init_sequence_head());
        }
        let ghost mid = self.events();
        self.send_command(PVGAMCTRL)?;
        self.send_data(
            [
                0xD0u8,
                0x04,
                0x0D,
                0x11,
                0x13,
                0x2B,
                0x3F,
                0x54,
                0x4C,
                0x18,
                0x0D,
                0x0B,
                0x1F,
                0x23,
            ].as_slice(),
        )?;
        self.send_command(NVGAMCTRL)?;
        self.send_data(
            [
                0xD0u8,
                0x04,
                0x0C,
                0x11,
                0x13,
                0x2C,
                0x3F,
                0x44,
                0x51,
                0x2F,
                0x1F,
                0x1F,
                0x20,
                0x23,
            ].as_slice(),
        )?;
        self.send_command(INVON)?;
        self.send_command(SLPOUT)?;
        self.send_command(DISPON)?;
        proof {
            assert(self.events() =~= mid + init_sequence_tail());
            assert(self.events() =~= pre + init_sequence_events());
        }
        Ok(())
    }

    /// Reset the whole bus once, set the backlight, then configure each of
    /// the six panels in turn, bracketing each with select and deselect.
    #[verifier::loop_isolation(false)]
    pub fn init(&mut self) -> (r: Result<(), Error>)
        ensures
            r is Ok ==> final(self).events() == old(self).events() + reset_events() + seq![
                PortEvent::Backlight(old(self).spec_brightness()),
            ] + panels_init_events(6),
            r is Err ==> r == Err::<(), Error>(Error::BusWrite) && exists|mid: Seq<PortEvent>|
                final(self).events() == old(self).events() + mid + cs_deselect_events(),
            final(self).same_config(old(self)),
    {
        self.hard_reset();
        let b = self.brightness;
        self.set_brightness(b);
        let ghost pre = self.events();
        let displays = Display::all();
        let mut i: usize = 0;
        while i < 6
            invariant
                i <= 6,
                displays@ == all_displays(),
                self.events() == pre + panels_init_events(i as int),
                self.same_config(old(self)),
                self.spec_brightness() == old(self).spec_brightness(),
            decreases 6 - i,
        {
            let ghost at_head = self.events();
            let d = displays[i];
            self.cs_low(d);
            let r = self.init_display();
            let ghost after_init = self.events();
            self.cs_high();
            match r {
                Ok(()) => {
                    proof {
                        assert(panels_init_events(i + 1 as int) =~= panels_init_events(i as int)
                            + cs_select_events(all_displays()[i as int]) + init_sequence_events()
                            + cs_deselect_events());
                        assert(self.events() =~= pre + panels_init_events(i + 1 as int));
                    }
                },
                Err(e) => {
                    proof {
                        let olde = old(self).events();
                        let sel = at_head + cs_select_events(d);
                        let rest = reset_events() + seq![
                            PortEvent::Backlight(old(self).spec_brightness()),
                        ] + panels_init_events(i as int) + cs_select_events(d);
                        assert(sel =~= olde + rest);
                        assert(sel.is_prefix_of(after_init));
                        assert(olde.len() <= sel.len() <= after_init.len());
                        assert(forall|j: int| 0 <= j < olde.len() ==> after_init[j] == sel[j]);
                        let mid = after_init.subrange(olde.len() as int, after_init.len() as int);
                        assert(after_init =~= olde + mid);
                        assert(self.events() =~= olde + mid + cs_deselect_events());
                    }
                    return Err(e);
                },
            }
            i = i + 1;
        }
        proof {
            assert(self.events() =~= old(self).events() + reset_events() + seq![
                PortEvent::Backlight(old(self).spec_brightness()),
            ] + panels_init_events(6));
        }
        Ok(())
    }

    fn set_pixels_framed(
        &mut self,
        x_start: u16,
        y_start: u16,
        x_end: u16,
        y_end: u16,
        colors: &[u8],
    ) -> (r: Result<(), Error>)
        requires
            x_start <= x_end,
            y_start <= y_end,
            x_end + X_OFFSET <= u16::MAX,
            y_end + Y_OFFSET <= u16::MAX,
        ensures
            r is Ok ==> final(self).events() == old(self).events() + region_events(
                x_start,
                y_start,
                x_end,
                y_end,
            ) + command_events(RAMWR) + payload_events(colors@),
            r is Err ==> r == Err::<(), Error>(Error::BusWrite) && old(self).events().is_prefix_of(
                final(self).events(),
            ),
            final(self).same_config(old(self)),
    {
        let ghost pre = self.events();
        self.set_region(x_start, y_start, x_end, y_end)?;
        self.send_command(RAMWR)?;
        self.send_data(colors)?;
        proof {
            assert(self.events() =~= pre + region_events(x_start, y_start, x_end, y_end)
                + command_events(RAMWR) + payload_events(colors@));
        }
        Ok(())
    }

    /// Write raw RGB565 big-endian bytes into the given end-inclusive window
    /// of one panel: select, program the window, issue the memory write,
    /// send the payload, deselect. The select lines are driven high again on
    /// every exit path.
    pub fn set_pixels(
        &mut self,
        display: Display,
        x_start: u16,
        y_start: u16,
        x_end: u16,
        y_end: u16,
        colors: &[u8],
    ) -> (r: Result<(), Error>)
        requires
            x_start <= x_end,
            y_start <= y_end,
            x_end + X_OFFSET <= u16::MAX,
            y_end + Y_OFFSET <= u16::MAX,
        ensures
            r is Ok ==> final(self).events() == old(self).events() + pixel_write_events(
                display,
                x_start,
                y_start,
                x_end,
                y_end,
                colors@,
            ),
            r is Err ==> r == Err::<(), Error>(Error::BusWrite) && exists|mid: Seq<PortEvent>|
                final(self).events() == old(self).events() + cs_select_events(display) + mid
                    + cs_deselect_events(),
            final(self).same_config(old(self)),
    {
        self.cs_low(display);
        let r = self.set_pixels_framed(x_start, y_start, x_end, y_end, colors);
        self.cs_high();
        proof {
            match r {
                Ok(()) => {
                    assert(self.events() =~= old(self).events() + pixel_write_events(
                        display,
                        x_start,
                        y_start,
                        x_end,
                        y_end,
                        colors@,
                    ));
                },
                Err(_) => {
                    let select_end = old(self).events().len() + 3;
                    let mid = self.events().subrange(
                        select_end as int,
                        self.events().len() - 3,
                    );
                    assert(self.events() =~= old(self).events() + cs_select_events(display) + mid
                        + cs_deselect_events());
                },
            }
        }
        r
    }
}

/// A lazily produced stream of color bytes, so that fills of arbitrary
/// length never materialize the whole payload.
pub trait PixelSource: Sized {
    /// The bytes still to be produced, in order.
    spec fn remaining(&self) -> Seq<u8>;

    /// The next byte, or `None` once the source is exhausted.
    fn next_byte(&mut self) -> (r: Option<u8>)
        ensures
            match r {
                Some(b) => old(self).remaining().len() > 0 && b == old(self).remaining()[0]
                    && final(self).remaining() == old(self).remaining().drop_first(),
                None => final(self).remaining() == old(self).remaining() && old(
                    self,
                ).remaining().len() == 0,
            },
    ;
}

impl<P: DisplayPort> ST7789VWx6<P> {
    #[verifier::loop_isolation(false)]
    fn stream_framed<S: PixelSource>(
        &mut self,
        x_start: u16,
        y_start: u16,
        x_end: u16,
        y_end: u16,
        colors: &mut S,
    ) -> (r: Result<(), Error>)
        requires
            x_start <= x_end,
            y_start <= y_end,
            x_end + X_OFFSET <= u16::MAX,
            y_end + Y_OFFSET <= u16::MAX,
        ensures
            r is Ok ==> final(self).events() == old(self).events() + region_events(
                x_start,
                y_start,
                x_end,
                y_end,
            ) + command_events(RAMWR) + payload_events(old(colors).remaining())
                && final(colors).remaining().len() == 0,
            r is Err ==> r == Err::<(), Error>(Error::BusWrite) && old(self).events().is_prefix_of(
                final(self).events(),
            ),
            final(self).same_config(old(self)),
    {
        self.set_region(x_start, y_start, x_end, y_end)?;
        self.send_command(RAMWR)?;
        self.port.set_dc(true);
        let ghost base = self.events();
        let ghost all = colors.remaining();
        let mut buf: Vec<u8> = Vec::new();
        let ghost mut sent: Seq<u8> = Seq::empty();
        let mut done = false;
        while !done
            invariant
                self.events() == base + data_events(sent),
                all == sent + buf@ + colors.remaining(),
                buf@.len() < 256,
                self.same_config(old(self)),
                done ==> colors.remaining().len() == 0,
            decreases colors.remaining().len() + (if done { 0int } else { 1int }),
        {
            match colors.next_byte() {
                None => {
                    proof {
                        assert(all =~= sent + buf@);
                    }
                    done = true;
                },
                Some(b) => {
                    buf.push(b);
                    proof {
                        assert(all =~= sent + buf@ + colors.remaining());
                    }
                    if buf.len() == 256 {
                        match self.port.spi_write(buf.as_slice()) {
                            Ok(()) => {
                                proof {
                                    crate::ports::lemma_data_events_add(sent, buf@);
                                    assert(self.events() =~= base + data_events(sent + buf@));
                                    sent = sent + buf@;
                                }
                                buf.clear();
                            },
                            Err(()) => {
                                proof {
                                    let olde = old(self).events();
                                    assert(olde =~= self.events().subrange(
                                        0,
                                        olde.len() as int,
                                    ));
                                }
                                return Err(Error::BusWrite);
                            },
                        }
                    }
                },
            }
        }
        if buf.len() > 0 {
            match self.port.spi_write(buf.as_slice()) {
                Ok(()) => {
                    proof {
                        crate::ports::lemma_data_events_add(sent, buf@);
                        assert(self.events() =~= base + data_events(sent + buf@));
                        sent = sent + buf@;
                    }
                },
                Err(()) => {
                    proof {
                        let olde = old(self).events();
                        assert(olde =~= self.events().subrange(0, olde.len() as int));
                    }
                    return Err(Error::BusWrite);
                },
            }
        } else {
            proof {
                assert(all =~= sent);
            }
        }
        proof {
            assert(self.events() =~= old(self).events() + region_events(
                x_start,
                y_start,
                x_end,
                y_end,
            ) + command_events(RAMWR) + payload_events(all));
        }
        Ok(())
    }

    /// The streaming form of a pixel write: the color bytes come from a
    /// lazily produced source and are flushed through a small fixed-size
    /// buffer in chunks. The event trace equals the one of `set_pixels`
    /// called with the whole payload.
    pub fn set_pixels_iter<S: PixelSource>(
        &mut self,
        display: Display,
        x_start: u16,
        y_start: u16,
        x_end: u16,
        y_end: u16,
        colors: &mut S,
    ) -> (r: Result<(), Error>)
        requires
            x_start <= x_end,
            y_start <= y_end,
            x_end + X_OFFSET <= u16::MAX,
            y_end + Y_OFFSET <= u16::MAX,
        ensures
            r is Ok ==> final(self).events() == old(self).events() + pixel_write_events(
                display,
                x_start,
                y_start,
                x_end,
                y_end,
                old(colors).remaining(),
            ) && final(colors).remaining().len() == 0,
            r is Err ==> r == Err::<(), Error>(Error::BusWrite) && exists|mid: Seq<PortEvent>|
                final(self).events() == old(self).events() + cs_select_events(display) + mid
                    + cs_deselect_events(),
            final(self).same_config(old(self)),
    {
        self.cs_low(display);
        let r = self.stream_framed(x_start, y_start, x_end, y_end, colors);
        self.cs_high();
        proof {
            match r {
                Ok(()) => {
                    assert(self.events() =~= old(self).events() + pixel_write_events(
                        display,
                        x_start,
                        y_start,
                        x_end,
                        y_end,
                        old(colors).remaining(),
                    ));
                },
                Err(_) => {
                    let select_end = old(self).events().len() + 3;
                    let mid = self.events().subrange(select_end as int, self.events().len() - 3);
                    assert(self.events() =~= old(self).events() + cs_select_events(display) + mid
                        + cs_deselect_events());
                },
            }
        }
        r
    }
}

/// The reset pulse: high, settle, low, settle, high, settle.
pub open spec fn reset_events() -> Seq<PortEvent> {
    seq![
        PortEvent::Rst(true),
        PortEvent::Delay(1250),
        PortEvent::Rst(false),
        PortEvent::Delay(1250),
        PortEvent::Rst(true),
        PortEvent::Delay(1250),
    ]
}

/// The first half of the vendor configuration: pixel format, porch, gate
/// and voltage settings.
pub open spec fn init_sequence_head() -> Seq<PortEvent> {
    command_events(MADCTL) + payload_events(seq![0x00u8]) + command_events(COLMOD)
        + payload_events(seq![0x55u8]) + command_events(PORCTRL) + payload_events(
        seq![0x0Cu8, 0x0C, 0x00, 0x33, 0x33],
    ) + command_events(GCTRL) + payload_events(seq![0x35u8]) + command_events(VCOMS)
        + payload_events(seq![0x19u8]) + command_events(LCMCTRL) + payload_events(seq![0x2Cu8])
        + command_events(VDVVRHEN) + payload_events(seq![0x01u8]) + command_events(VRHS)
        + payload_events(seq![0x12u8]) + command_events(VDVS) + payload_events(seq![0x20u8])
        + command_events(FRCTRL2) + payload_events(seq![0x0Fu8]) + command_events(PWCTRL1)
        + payload_events(seq![0xA4u8, 0xA1])
}

/// The second half of the vendor configuration: gamma tables, inversion,
/// sleep out, display on.
pub open spec fn init_sequence_tail() -> Seq<PortEvent> {
    command_events(PVGAMCTRL) + payload_events(
        seq![0xD0u8, 0x04, 0x0D, 0x11, 0x13, 0x2B, 0x3F, 0x54, 0x4C, 0x18, 0x0D, 0x0B, 0x1F, 0x23],
    ) + command_events(NVGAMCTRL) + payload_events(
        seq![0xD0u8, 0x04, 0x0C, 0x11, 0x13, 0x2C, 0x3F, 0x44, 0x51, 0x2F, 0x1F, 0x1F, 0x20, 0x23],
    ) + command_events(INVON) + command_events(SLPOUT) + command_events(DISPON)
}

/// The vendor configuration exchange sent to one selected panel.
pub open spec fn init_sequence_events() -> Seq<PortEvent> {
    init_sequence_head() + init_sequence_tail()
}

/// The initialization exchanges of the first `k` panels, each bracketed by
/// select and deselect.
pub open spec fn panels_init_events(k: int) -> Seq<PortEvent>
    decreases k,
{
    if k <= 0 {
        Seq::empty()
    } else {
        panels_init_events(k - 1) + cs_select_events(all_displays()[k - 1])
            + init_sequence_events() + cs_deselect_events()
    }
}

} // verus!
