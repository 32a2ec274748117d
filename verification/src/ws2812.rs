//! WS2812 LED strip driver: a coprocessor program synthesized once, a clock
//! divider derived from the measured system clock, and a blocking
//! whole-strip color operation.
//!
//! The wire protocol is self-clocked at 800 kHz with a ten-cycle bit cell
//! split 2:5:3 into start, data and stop phases. A four-instruction
//! coprocessor loop shifts the pending word out bit by bit, holding the
//! line high or low for the phase durations; the clock divider makes one
//! coprocessor instruction last exactly one protocol cycle.

use vstd::prelude::*;
use vstd::arithmetic::div_mod::lemma_hoist_over_denominator;
use pio::{Assembler, JmpCondition, OutDestination, SideSet};

verus! {

/// Cycles of the start phase of a bit cell.
pub const T1: u8 = 2;

/// Cycles of the data phase of a bit cell.
pub const T2: u8 = 5;

/// Cycles of the stop phase of a bit cell.
pub const T3: u8 = 3;

/// Protocol bit rate in Hz.
pub const STRIP_FREQ: u32 = 800_000;

/// Cycles per protocol bit: the three phases together.
pub const CYCLES_PER_BIT: u32 = 10;

/// Target coprocessor frequency in Hz: bit rate times cycles per bit.
pub const BIT_FREQ: u32 = 8_000_000;

/// A failure of the strip driver.
#[derive(Clone, Copy, Debug, PartialEq, Eq, Structural)]
pub enum Error {
    /// The program could not be set up: the divider came out zero, or the
    /// coprocessor had no room for the program.
    SetupFailure,
}

/// Integer part of the clock divider: system clock cycles per coprocessor
/// instruction.
pub open spec fn divider_int(clock: u32) -> int {
    clock as int / BIT_FREQ as int
}

/// Fractional part of the clock divider, in 256ths.
pub open spec fn divider_frac(clock: u32) -> int {
    (clock as int - divider_int(clock) * BIT_FREQ as int) * 256 / BIT_FREQ as int
}

/// The integer and fractional divider parts recombine, in 256ths, to the
/// floor of the exact ratio of the system clock to the target frequency:
/// together they are within one part in 256 of that ratio.
pub proof fn lemma_divider_recombines(clock: u32)
    ensures
        divider_int(clock) * 256 + divider_frac(clock) == clock as int * 256 / BIT_FREQ as int,
        0 <= divider_frac(clock) < 256,
{
    let d = BIT_FREQ as int;
    let q = clock as int / d;
    let r = clock as int - q * d;
    assert(clock as int == q * d + r && 0 <= r < d) by {
        vstd::arithmetic::div_mod::lemma_fundamental_div_mod(clock as int, d);
    }
    lemma_hoist_over_denominator(r * 256, q * 256, BIT_FREQ as nat);
    assert((r * 256 + (q * 256) * d) == clock as int * 256) by (nonlinear_arith)
        requires
            clock as int == q * d + r,
            d == BIT_FREQ as int,
    ;
    assert(r * 256 / d < 256) by {
        assert(r * 256 < 256 * d) by (nonlinear_arith)
            requires
                r < d,
        ;
    }
    assert(0 <= r * 256 / d);
}

/// Compute the clock divider for a measured system clock: the integer part
/// and the 8-bit fractional part. Fails when the clock is too slow for the
/// target frequency, which would make the integer part zero.
pub fn clock_divider(clock_freq: u32) -> (r: Result<(u16, u8), Error>)
    ensures
        clock_freq >= BIT_FREQ ==> (r matches Ok((i, f)) && i == divider_int(clock_freq) && f
            == divider_frac(clock_freq)),
        clock_freq < BIT_FREQ ==> r == Err::<(u16, u8), Error>(Error::SetupFailure),
{
    let int_part = clock_freq / BIT_FREQ;
    if int_part == 0 {
        return Err(Error::SetupFailure);
    }
    let rem = clock_freq - int_part * BIT_FREQ;
    let frac = (rem * 256) / BIT_FREQ;
    Ok((int_part as u16, frac as u8))
}

/// The 24-bit word sent for one LED, channel order green-red-blue, each
/// channel left-justified into its byte of the word; the low byte is zero.
pub open spec fn led_word(r: u8, g: u8, b: u8) -> u32 {
    (g as int * 0x1000000 + r as int * 0x10000 + b as int * 0x100) as u32
}

/// Pack one LED color into its transmit word.
pub fn pack_led_word(r: u8, g: u8, b: u8) -> (w: u32)
    ensures
        w == led_word(r, g, b),
{
    (g as u32) * 0x1000000 + (r as u32) * 0x10000 + (b as u32) * 0x100
}

/// The words a transmit queue accepted, as its specification sees them.
pub type WordLog = Seq<u32>;

/// The refusals a full transmit queue has left, as its specification
/// counts them.
pub type StallBudget = nat;

/// The transmit queue of the coprocessor state machine. A write fails when
/// the queue is full and changes nothing.
pub trait TxFifo: Sized {
    /// The words accepted by the queue so far, oldest first.
    spec fn words(&self) -> Seq<u32>;

    /// How many more attempts a full queue can refuse. The hardware drains
    /// one word per transmission time, so a producer that keeps offering a
    /// word is refused only boundedly often: spinning is blocking but
    /// bounded.
    spec fn stalls(&self) -> nat;

    /// Offer one word; report whether the queue took it.
    fn write(&mut self, word: u32) -> (ok: bool)
        ensures
            ok ==> final(self).words() == old(self).words().push(word),
            !ok ==> final(self).words() == old(self).words() && final(self).stalls() < old(
                self,
            ).stalls(),
    ;
}

/// A transmit queue that records the accepted words; it can stall a given
/// number of attempts first, the way a full hardware queue would.
pub struct RecordingTx {
    accepted: Vec<u32>,
    stalls_left: u32,
}

impl RecordingTx {
    /// A queue that accepts every word at once.
    pub fn new() -> (t: RecordingTx)
        ensures
            t.words() == Seq::<u32>::empty(),
    {
        RecordingTx { accepted: Vec::new(), stalls_left: 0 }
    }

    /// A queue that rejects the next `stalls` write attempts.
    pub fn stalling(stalls: u32) -> (t: RecordingTx)
        ensures
            t.words() == Seq::<u32>::empty(),
    {
        RecordingTx { accepted: Vec::new(), stalls_left: stalls }
    }

    /// The accepted words, oldest first.
    pub fn accepted(&self) -> (r: &Vec<u32>)
        ensures
            r@ == self.words(),
    {
        &self.accepted
    }
}

impl TxFifo for RecordingTx {
    closed spec fn words(&self) -> Seq<u32> {
        self.accepted@
    }

    closed spec fn stalls(&self) -> nat {
        self.stalls_left as nat
    }

    fn write(&mut self, word: u32) -> (ok: bool) {
        if self.stalls_left > 0 {
            self.stalls_left = self.stalls_left - 1;
            false
        } else {
            self.accepted.push(word);
            true
        }
    }
}

/// The synthesized coprocessor program and divider, ready to be installed.
pub struct StripProgram {
    /// The encoded instructions.
    pub words: Vec<u16>,
    /// Instruction offset after which execution wraps.
    pub wrap_source: u8,
    /// Instruction offset execution wraps back to.
    pub wrap_target: u8,
    /// Integer part of the clock divider.
    pub divider_int: u16,
    /// Fractional part of the clock divider, in 256ths.
    pub divider_frac: u8,
}

/// The encoded strip program for the fixed 2:5:3 phase split: shift one bit
/// with the line high for the stop phase; on a zero bit hold the line low
/// for the start and data phases; on a one bit hold it high for the data
/// phase and loop.
pub open spec fn strip_program_words() -> Seq<u16> {
    seq![0x6221u16, 0x1123u16, 0x1400u16, 0xa442u16]
}

/// Relies on pio's `Assembler` and its instruction encodings: `out` is
/// `0b011` with destination and bit count, `jmp` is `0b000` with condition
/// and address, `nop` is `mov y, y`, and each word carries its delay and
/// one side-set bit in bits 8 through 12. The labels bind to offsets 0 and
/// 3, and the wrap runs from the last instruction back to the first.
#[verifier::external_body]
fn assemble_strip_program(t1: u8, t2: u8, t3: u8) -> (r: (Vec<u16>, u8, u8))
    requires
        1 <= t1 <= 16,
        1 <= t2 <= 16,
        1 <= t3 <= 16,
    ensures
        r.0@.len() == 4,
        r.0@[0] == 0x6021 + (t3 - 1) * 256,
        r.0@[1] == 0x1023 + (t1 - 1) * 256,
        r.0@[2] == 0x1000 + (t2 - 1) * 256,
        r.0@[3] == 0xa042 + (t2 - 1) * 256,
        r.1 == 3u8,
        r.2 == 0u8,
{
    let mut a = Assembler::<32>::new_with_side_set(SideSet::new(false, 1, false));
    let mut wrap_target = a.label();
    let mut wrap_source = a.label();
    let mut do_zero = a.label();
    a.bind(&mut wrap_target);
    a.out_with_delay_and_side_set(OutDestination::X, 1, t3 - 1, 0);
    a.jmp_with_delay_and_side_set(JmpCondition::XIsZero, &mut do_zero, t1 - 1, 1);
    a.jmp_with_delay_and_side_set(JmpCondition::Always, &mut wrap_target, t2 - 1, 1);
    a.bind(&mut do_zero);
    a.nop_with_delay_and_side_set(t2 - 1, 0);
    a.bind(&mut wrap_source);
    let p = a.assemble_with_wrap(wrap_source, wrap_target);
    (p.code.as_slice().to_vec(), p.wrap.source, p.wrap.target)
}

/// Driver for the LED strip: the transmit queue and the strip length.
pub struct WS2812<T> {
    tx: T,
    led_count: usize,
}

impl<T> WS2812<T> {
    /// The transmit queue.
    pub closed spec fn spec_tx(&self) -> T {
        self.tx
    }

    /// The number of LEDs on the strip.
    pub closed spec fn spec_led_count(&self) -> usize {
        self.led_count
    }
}

impl<T: TxFifo> WS2812<T> {
    /// The transmit queue, for callers that need to read a recorded one
    /// back.
    pub fn tx_queue(&self) -> (t: &T)
        ensures
            t == self.spec_tx(),
    {
        &self.tx
    }

    /// The words accepted by the queue so far.
    pub open spec fn words(&self) -> Seq<u32> {
        self.spec_tx().words()
    }

    /// Build the driver: synthesize the program and derive the clock
    /// divider from the measured system clock. Fails when the clock is too
    /// slow for the protocol, which would make the divider zero.
    pub fn new(led_count: usize, tx: T, clock_freq: u32) -> (r: Result<
        (WS2812<T>, StripProgram),
        Error,
    >)
        ensures
            clock_freq >= BIT_FREQ ==> (r matches Ok((w, p)) && w.spec_tx() == tx
                && w.spec_led_count() == led_count && p.words@ == strip_program_words()
                && p.wrap_source == 3 && p.wrap_target == 0 && p.divider_int == divider_int(
                clock_freq,
            ) && p.divider_frac == divider_frac(clock_freq)),
            clock_freq < BIT_FREQ ==> r == Err::<(WS2812<T>, StripProgram), Error>(
                Error::SetupFailure,
            ),
    {
        let (int_part, frac) = clock_divider(clock_freq)?;
        let (words, wrap_source, wrap_target) = assemble_strip_program(T1, T2, T3);
        proof {
            assert(words@ =~= strip_program_words());
        }
        let program = StripProgram {
            words,
            wrap_source,
            wrap_target,
            divider_int: int_part,
            divider_frac: frac,
        };
        Ok((WS2812 { tx, led_count }, program))
    }

    /// Show one color on the whole strip: push the packed word once per
    /// LED, spinning whenever the queue is full until the hardware drains
    /// it. Spinning is the only form of backpressure; the call does not
    /// return until every word was accepted.
    #[verifier::loop_isolation(false)]
    pub fn display(&mut self, r: u8, g: u8, b: u8)
        ensures
            final(self).words() == old(self).words() + Seq::new(
                old(self).spec_led_count() as nat,
                |i: int| led_word(r, g, b),
            ),
            final(self).spec_led_count() == old(self).spec_led_count(),
    {
        let word = pack_led_word(r, g, b);
        let ghost base = self.words();
        let mut i: usize = 0;
        while i < self.led_count
            invariant
                i <= self.led_count,
                self.led_count == old(self).spec_led_count(),
                self.words() == base + Seq::new(i as nat, |j: int| led_word(r, g, b)),
            decreases self.led_count - i,
        {
            let ghost before = self.words();
            let mut sent = false;
            while !sent
                invariant
                    !sent ==> self.words() == before,
                    sent ==> self.words() == before.push(word),
                    self.led_count == old(self).spec_led_count(),
                decreases (if sent { 0int } else { self.tx.stalls() as int + 1 }),
            {
                sent = self.tx.write(word);
            }
            proof {
                assert(self.words() =~= base + Seq::new(
                    (i + 1) as nat,
                    |j: int| led_word(r, g, b),
                ));
            }
            i = i + 1;
        }
    }
}

} // verus!
