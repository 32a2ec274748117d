//! Drawing helpers over the panel driver: solid fills, rectangles, frames
//! and bitmap blits, all end-inclusive and all expressed as the exact event
//! trace they drive on the display port.

use vstd::prelude::*;
use vstd::arithmetic::mul::lemma_mul_upper_bound;
use crate::images::Image;
use crate::misc::{be16, ColorRGB565};
use crate::ports::{DisplayPort, PortEvent};
use crate::st7789vwx6::{
    cs_deselect_events, cs_select_events, pixel_write_events, Display, Error, PixelSource,
    ST7789VWx6, X_OFFSET, Y_OFFSET,
};

verus! {

/// The byte stream of a solid fill: the big-endian RGB565 pair of the
/// color, once per pixel.
pub open spec fn solid_bytes(color: ColorRGB565, pixels: nat) -> Seq<u8> {
    Seq::new(
        2 * pixels,
        |i: int|
            if i % 2 == 0 {
                be16(color.0)[0]
            } else {
                be16(color.0)[1]
            },
    )
}

/// A pixel source that repeats one color: the streamed form of a solid
/// fill, so that no fill ever materializes its payload.
pub struct SolidSource {
    hi: u8,
    lo: u8,
    pixels_left: usize,
    lo_pending: bool,
}

impl SolidSource {
    /// A source producing the given color once per pixel.
    pub fn new(color: ColorRGB565, pixels: usize) -> (s: SolidSource)
        ensures
            s.remaining() == solid_bytes(color, pixels as nat),
    {
        let s = SolidSource {
            hi: (color.0 / 256) as u8,
            lo: (color.0 % 256) as u8,
            pixels_left: pixels,
            lo_pending: false,
        };
        proof {
            assert(s.remaining() =~= solid_bytes(color, pixels as nat));
        }
        s
    }

    /// The repeated byte pair, `n` times.
    pub closed spec fn pair_bytes(hi: u8, lo: u8, n: nat) -> Seq<u8> {
        Seq::new(
            2 * n,
            |i: int|
                if i % 2 == 0 {
                    hi
                } else {
                    lo
                },
        )
    }
}

impl PixelSource for SolidSource {
    closed spec fn remaining(&self) -> Seq<u8> {
        if self.lo_pending {
            seq![self.lo] + SolidSource::pair_bytes(self.hi, self.lo, self.pixels_left as nat)
        } else {
            SolidSource::pair_bytes(self.hi, self.lo, self.pixels_left as nat)
        }
    }

    fn next_byte(&mut self) -> (r: Option<u8>) {
        if self.lo_pending {
            self.lo_pending = false;
            proof {
                assert(old(self).remaining().drop_first() =~= self.remaining());
            }
            Some(self.lo)
        } else if self.pixels_left > 0 {
            self.pixels_left = self.pixels_left - 1;
            self.lo_pending = true;
            proof {
                assert(old(self).remaining().drop_first() =~= self.remaining());
            }
            Some(self.hi)
        } else {
            None
        }
    }
}

/// The drawing layer around the panel driver.
pub struct Gl<P> {
    displays: ST7789VWx6<P>,
}

impl<P: DisplayPort> Gl<P> {
    /// The driver inside.
    pub closed spec fn spec_displays(&self) -> ST7789VWx6<P> {
        self.displays
    }

    /// The events driven on the port so far.
    pub open spec fn events(&self) -> Seq<PortEvent> {
        self.spec_displays().events()
    }

    pub open spec fn spec_width(&self) -> u16 {
        self.spec_displays().spec_width()
    }

    pub open spec fn spec_height(&self) -> u16 {
        self.spec_displays().spec_height()
    }

    /// Panel dimensions valid for drawing: nonempty, and the whole panel
    /// window fits the addressable canvas.
    pub open spec fn dims_ok(&self) -> bool {
        1 <= self.spec_width() && self.spec_width() + X_OFFSET <= u16::MAX + 1 && 1
            <= self.spec_height() && self.spec_height() + Y_OFFSET <= u16::MAX + 1
    }

    /// Width, height and brightness unchanged between two states.
    pub open spec fn same_config(&self, other: &Gl<P>) -> bool {
        self.spec_displays().same_config(&other.spec_displays())
    }

    pub fn new(displays: ST7789VWx6<P>) -> (g: Gl<P>)
        ensures
            g.spec_displays() == displays,
    {
        Gl { displays }
    }

    /// Give the driver back.
    pub fn release(self) -> (d: ST7789VWx6<P>)
        ensures
            d == self.spec_displays(),
    {
        self.displays
    }

    /// Fill one whole panel with a solid color.
    pub fn fill(&mut self, display: Display, color: ColorRGB565) -> (r: Result<(), Error>)
        requires
            old(self).dims_ok(),
        ensures
            r is Ok ==> final(self).events() == old(self).events() + pixel_write_events(
                display,
                0,
                0,
                (old(self).spec_width() - 1) as u16,
                (old(self).spec_height() - 1) as u16,
                solid_bytes(color, (old(self).spec_width() * old(self).spec_height()) as nat),
            ),
            r is Err ==> r == Err::<(), Error>(Error::BusWrite) && exists|mid: Seq<PortEvent>|
                final(self).events() == old(self).events() + cs_select_events(display) + mid
                    + cs_deselect_events(),
            final(self).same_config(old(self)),
    {
        let w = self.displays.width();
        let h = self.displays.height();
        proof {
            lemma_mul_upper_bound(w as int, 0xffff, h as int, 0xffff);
        }
        let pixels: usize = (w as usize) * (h as usize);
        let mut source = SolidSource::new(color, pixels);
        let r = self.displays.set_pixels_iter(display, 0, 0, w - 1, h - 1, &mut source);
        proof {
            if r is Err {
                let m = choose|m: Seq<PortEvent>|
                    self.events() == old(self).events() + cs_select_events(display) + m
                        + cs_deselect_events();
                assert(self.events() == old(self).events() + cs_select_events(display) + m
                    + cs_deselect_events());
            }
        }
        r
    }

    /// Fill every panel with the same color, left to right.
    pub fn clear_all(&mut self, color: ColorRGB565) -> (r: Result<(), Error>)
        requires
            old(self).dims_ok(),
        ensures
            r is Ok ==> final(self).events() == old(self).events() + fill_all_events(
                color,
                old(self).spec_width(),
                old(self).spec_height(),
                6,
            ),
            r is Err ==> r == Err::<(), Error>(Error::BusWrite) && exists|mid: Seq<PortEvent>|
                final(self).events() == old(self).events() + mid + cs_deselect_events(),
            final(self).same_config(old(self)),
    {
        let ghost pre = self.events();
        let ghost w = self.spec_width();
        let ghost h = self.spec_height();
        let displays = Display::all();
        let mut i: usize = 0;
        while i < 6
            invariant
                i <= 6,
                pre == old(self).events(),
                displays@ == crate::st7789vwx6::all_displays(),
                self.events() == pre + fill_all_events(color, w, h, i as int),
                self.same_config(old(self)),
                self.dims_ok(),
                w == self.spec_width(),
                h == self.spec_height(),
            decreases 6 - i,
        {
            let d = displays[i];
            match self.fill(d, color) {
                Ok(()) => {
                    proof {
                        assert(self.events() =~= pre + fill_all_events(color, w, h, i + 1 as int));
                    }
                },
                Err(e) => {
                    proof {
                        let prev = pre + fill_all_events(color, w, h, i as int);
                        let m = choose|m: Seq<PortEvent>|
                            self.events() == prev + cs_select_events(d) + m
                                + cs_deselect_events();
                        assert(self.events() == prev + cs_select_events(d) + m
                            + cs_deselect_events());
                        assert(self.events().len() >= pre.len() + 3);
                        let mid = self.events().subrange(
                            pre.len() as int,
                            self.events().len() - 3,
                        );
                        assert(self.events() =~= pre + mid + cs_deselect_events());
                    }
                    return Err(e);
                },
            }
            i = i + 1;
        }
        Ok(())
    }

    /// Fill an end-inclusive rectangle of one panel with a solid color.
    pub fn draw_rect(
        &mut self,
        display: Display,
        x_min: u16,
        y_min: u16,
        x_max: u16,
        y_max: u16,
        color: ColorRGB565,
    ) -> (r: Result<(), Error>)
        requires
            x_min <= x_max,
            y_min <= y_max,
            x_max + X_OFFSET <= u16::MAX,
            y_max + Y_OFFSET <= u16::MAX,
        ensures
            r is Ok ==> final(self).events() == old(self).events() + pixel_write_events(
                display,
                x_min,
                y_min,
                x_max,
                y_max,
                solid_bytes(
                    color,
                    ((x_max - x_min + 1) * (y_max - y_min + 1)) as nat,
                ),
            ),
            r is Err ==> r == Err::<(), Error>(Error::BusWrite) && exists|mid: Seq<PortEvent>|
                final(self).events() == old(self).events() + cs_select_events(display) + mid
                    + cs_deselect_events(),
            final(self).same_config(old(self)),
    {
        let wr: usize = (x_max - x_min) as usize + 1;
        let hr: usize = (y_max - y_min) as usize + 1;
        proof {
            assert(wr * hr < 0x100000000) by (nonlinear_arith)
                requires
                    wr <= 0xffff,
                    hr <= 0xffff,
            ;
        }
        let pixels: usize = wr * hr;
        let mut source = SolidSource::new(color, pixels);
        let r = self.displays.set_pixels_iter(display, x_min, y_min, x_max, y_max, &mut source);
        proof {
            if r is Err {
                let m = choose|m: Seq<PortEvent>|
                    self.events() == old(self).events() + cs_select_events(display) + m
                        + cs_deselect_events();
                assert(self.events() == old(self).events() + cs_select_events(display) + m
                    + cs_deselect_events());
            }
        }
        r
    }

    /// Blit an image to the top-left corner of one panel.
    pub fn draw_pic(&mut self, display: Display, pic: &Image) -> (r: Result<(), Error>)
        requires
            pic.wf(),
            1 <= pic.spec_width(),
            pic.spec_width() + X_OFFSET <= u16::MAX + 1,
            1 <= pic.spec_height(),
            pic.spec_height() + Y_OFFSET <= u16::MAX + 1,
        ensures
            r is Ok ==> final(self).events() == old(self).events() + pixel_write_events(
                display,
                0,
                0,
                (pic.spec_width() - 1) as u16,
                (pic.spec_height() - 1) as u16,
                pic.spec_pixels(),
            ),
            r is Err ==> r == Err::<(), Error>(Error::BusWrite) && exists|mid: Seq<PortEvent>|
                final(self).events() == old(self).events() + cs_select_events(display) + mid
                    + cs_deselect_events(),
            final(self).same_config(old(self)),
    {
        let w = pic.width() as u16;
        let h = pic.height() as u16;
        let pix = pic.pixels();
        let r = self.displays.set_pixels(display, 0, 0, w - 1, h - 1, pix);
        proof {
            if r is Err {
                let m = choose|m: Seq<PortEvent>|
                    self.events() == old(self).events() + cs_select_events(display) + m
                        + cs_deselect_events();
                assert(self.events() == old(self).events() + cs_select_events(display) + m
                    + cs_deselect_events());
            }
        }
        r
    }

    /// Draw a frame of the given thickness along the four edges of one
    /// panel: top, left, right, bottom.
    #[verifier::rlimit(60)]
    pub fn draw_bounding_rect(
        &mut self,
        display: Display,
        thickness: usize,
        color: ColorRGB565,
    ) -> (r: Result<(), Error>)
        requires
            old(self).dims_ok(),
            1 <= thickness,
            2 * thickness + 1 <= old(self).spec_width(),
            2 * thickness + 1 <= old(self).spec_height(),
        ensures
            r is Ok ==> final(self).events() == old(self).events() + bounding_rect_events(
                display,
                old(self).spec_width(),
                old(self).spec_height(),
                thickness as u16,
                color,
            ),
            r is Err ==> r == Err::<(), Error>(Error::BusWrite) && exists|mid: Seq<PortEvent>|
                final(self).events() == old(self).events() + mid + cs_deselect_events(),
            final(self).same_config(old(self)),
    {
        let ghost pre = self.events();
        let t = thickness as u16;
        let w = self.displays.width();
        let h = self.displays.height();
        let ghost e1 = self.events();
        match self.draw_rect(display, 0, 0, w - 1, t - 1, color) {
            Ok(()) => {},
            Err(e) => {
                proof {
                    Self::frame_err_trace(pre, e1, self.events(), display);
                }
                return Err(e);
            },
        }
        let ghost e2 = self.events();
        match self.draw_rect(display, 0, t, t - 1, h - 1, color) {
            Ok(()) => {},
            Err(e) => {
                proof {
                    Self::frame_err_trace(pre, e2, self.events(), display);
                }
                return Err(e);
            },
        }
        let ghost e3 = self.events();
        match self.draw_rect(display, w - t, t, w - 1, h - 1, color) {
            Ok(()) => {},
            Err(e) => {
                proof {
                    Self::frame_err_trace(pre, e3, self.events(), display);
                }
                return Err(e);
            },
        }
        let ghost e4 = self.events();
        match self.draw_rect(display, t, h - t, w - t - 1, h - 1, color) {
            Ok(()) => {
                proof {
                    assert(self.events() =~= pre + bounding_rect_events(
                        display,
                        old(self).spec_width(),
                        old(self).spec_height(),
                        t,
                        color,
                    ));
                }
                Ok(())
            },
            Err(e) => {
                proof {
                    Self::frame_err_trace(pre, e4, self.events(), display);
                }
                Err(e)
            },
        }
    }

    /// After a failed rectangle the trace still ends deselected.
    proof fn frame_err_trace(
        pre: Seq<PortEvent>,
        before: Seq<PortEvent>,
        now: Seq<PortEvent>,
        display: Display,
    )
        requires
            pre.is_prefix_of(before),
            exists|m: Seq<PortEvent>|
                now == before + cs_select_events(display) + m + cs_deselect_events(),
        ensures
            exists|mid: Seq<PortEvent>| now == pre + mid + cs_deselect_events(),
    {
        let m = choose|m: Seq<PortEvent>|
            now == before + cs_select_events(display) + m + cs_deselect_events();
        assert(now.len() >= pre.len() + 3);
        let mid = now.subrange(pre.len() as int, now.len() - 3);
        assert(now =~= pre + mid + cs_deselect_events());
    }
}

/// The trace of filling the first `k` panels with one color.
pub open spec fn fill_all_events(color: ColorRGB565, w: u16, h: u16, k: int) -> Seq<PortEvent>
    decreases k,
{
    if k <= 0 {
        Seq::empty()
    } else {
        fill_all_events(color, w, h, k - 1) + pixel_write_events(
            crate::st7789vwx6::all_displays()[k - 1],
            0,
            0,
            (w - 1) as u16,
            (h - 1) as u16,
            solid_bytes(color, (w * h) as nat),
        )
    }
}

/// The trace of a frame: the four edge rectangles in drawing order.
pub open spec fn bounding_rect_events(
    display: Display,
    w: u16,
    h: u16,
    t: u16,
    color: ColorRGB565,
) -> Seq<PortEvent> {
    pixel_write_events(
        display,
        0,
        0,
        (w - 1) as u16,
        (t - 1) as u16,
        solid_bytes(color, (w * t) as nat),
    ) + pixel_write_events(
        display,
        0,
        t,
        (t - 1) as u16,
        (h - 1) as u16,
        solid_bytes(color, (t * (h - t)) as nat),
    ) + pixel_write_events(
        display,
        (w - t) as u16,
        t,
        (w - 1) as u16,
        (h - 1) as u16,
        solid_bytes(color, (t * (h - t)) as nat),
    ) + pixel_write_events(
        display,
        t,
        (h - t) as u16,
        (w - t - 1) as u16,
        (h - 1) as u16,
        solid_bytes(color, ((w - 2 * t) * t) as nat),
    )
}

} // verus!
