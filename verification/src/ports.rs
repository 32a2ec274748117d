//! Hardware port abstractions.
//!
//! Every driver in this crate talks to its peripheral through a port trait
//! whose specification is a growing trace of observable events (line levels,
//! bytes clocked out, words queued). The drivers are verified against those
//! traces; the surrounding program supplies implementations over real pins
//! and buses, and the recording implementations here replay the same
//! contracts in tests.

use vstd::prelude::*;

verus! {

/// One observable action on the display port: a control-line level, a byte
/// clocked out on the SPI data line, a backlight duty change, or a settle
/// delay.
#[derive(Clone, Copy, Debug, PartialEq, Eq, Structural)]
pub enum PortEvent {
    /// First chip-select address line driven to the given level.
    Cs1(bool),
    /// Second chip-select address line driven to the given level.
    Cs2(bool),
    /// Third chip-select address line driven to the given level.
    Cs3(bool),
    /// Data/command line: low (false) marks command bytes, high (true) data.
    Dc(bool),
    /// Panel reset line.
    Rst(bool),
    /// One byte written on the SPI data line.
    Data(u8),
    /// Backlight PWM duty.
    Backlight(u16),
    /// A busy wait of the given number of processor cycles.
    Delay(u32),
}

/// The trace of a display port, as its specification sees it.
pub type EventLog = Seq<PortEvent>;

/// The data events of a byte sequence, in order.
pub open spec fn data_events(bytes: Seq<u8>) -> Seq<PortEvent> {
    bytes.map_values(|b: u8| PortEvent::Data(b))
}

pub broadcast proof fn lemma_data_events_push(bytes: Seq<u8>, b: u8)
    ensures
        #[trigger] data_events(bytes.push(b)) == data_events(bytes).push(PortEvent::Data(b)),
{
    assert(data_events(bytes.push(b)) =~= data_events(bytes).push(PortEvent::Data(b)));
}

pub broadcast proof fn lemma_data_events_add(a: Seq<u8>, b: Seq<u8>)
    ensures
        #[trigger] data_events(a + b) == data_events(a) + data_events(b),
{
    assert(data_events(a + b) =~= data_events(a) + data_events(b));
}

/// The five control lines, the SPI data channel and the backlight channel
/// that drive the six panels, seen as one port.
pub trait DisplayPort: Sized {
    /// The events driven on the port so far, oldest first.
    spec fn events(&self) -> Seq<PortEvent>;

    /// Drive the first chip-select address line.
    fn set_csa1(&mut self, high: bool)
        ensures
            final(self).events() == old(self).events().push(PortEvent::Cs1(high)),
    ;

    /// Drive the second chip-select address line.
    fn set_csa2(&mut self, high: bool)
        ensures
            final(self).events() == old(self).events().push(PortEvent::Cs2(high)),
    ;

    /// Drive the third chip-select address line.
    fn set_csa3(&mut self, high: bool)
        ensures
            final(self).events() == old(self).events().push(PortEvent::Cs3(high)),
    ;

    /// Drive the data/command line.
    fn set_dc(&mut self, high: bool)
        ensures
            final(self).events() == old(self).events().push(PortEvent::Dc(high)),
    ;

    /// Drive the reset line.
    fn set_rst(&mut self, high: bool)
        ensures
            final(self).events() == old(self).events().push(PortEvent::Rst(high)),
    ;

    /// Set the backlight PWM duty.
    fn set_backlight(&mut self, duty: u16)
        ensures
            final(self).events() == old(self).events().push(PortEvent::Backlight(duty)),
    ;

    /// Busy-wait for the given number of processor cycles.
    fn delay_cycles(&mut self, cycles: u32)
        ensures
            final(self).events() == old(self).events().push(PortEvent::Delay(cycles)),
    ;

    /// Write bytes on the SPI data line. A failed write drives nothing.
    fn spi_write(&mut self, data: &[u8]) -> (r: Result<(), ()>)
        ensures
            r is Ok ==> final(self).events() == old(self).events() + data_events(data@),
            r is Err ==> final(self).events() == old(self).events(),
    ;
}

/// A display port that records its events; used by tests and by callers that
/// want to replay a prepared event list onto real hardware.
pub struct DisplayTrace {
    recorded: Vec<PortEvent>,
    /// How many more SPI writes succeed; `None` means all of them do.
    writes_left: Option<usize>,
}

impl DisplayTrace {
    /// A trace whose SPI writes always succeed.
    pub fn new() -> (t: DisplayTrace)
        ensures
            t.events() == Seq::<PortEvent>::empty(),
    {
        DisplayTrace { recorded: Vec::new(), writes_left: None }
    }

    /// A trace whose SPI writes fail after `writes` successful ones.
    pub fn failing_after(writes: usize) -> (t: DisplayTrace)
        ensures
            t.events() == Seq::<PortEvent>::empty(),
    {
        DisplayTrace { recorded: Vec::new(), writes_left: Some(writes) }
    }

    /// The recorded events, oldest first.
    pub fn recorded(&self) -> (r: &Vec<PortEvent>)
        ensures
            r@ == self.events(),
    {
        &self.recorded
    }
}

impl DisplayPort for DisplayTrace {
    closed spec fn events(&self) -> Seq<PortEvent> {
        self.recorded@
    }

    fn set_csa1(&mut self, high: bool) {
        self.recorded.push(PortEvent::Cs1(high));
    }

    fn set_csa2(&mut self, high: bool) {
        self.recorded.push(PortEvent::Cs2(high));
    }

    fn set_csa3(&mut self, high: bool) {
        self.recorded.push(PortEvent::Cs3(high));
    }

    fn set_dc(&mut self, high: bool) {
        self.recorded.push(PortEvent::Dc(high));
    }

    fn set_rst(&mut self, high: bool) {
        self.recorded.push(PortEvent::Rst(high));
    }

    fn set_backlight(&mut self, duty: u16) {
        self.recorded.push(PortEvent::Backlight(duty));
    }

    fn delay_cycles(&mut self, cycles: u32) {
        self.recorded.push(PortEvent::Delay(cycles));
    }

    fn spi_write(&mut self, data: &[u8]) -> (r: Result<(), ()>) {
        match self.writes_left {
            Some(0) => {
                return Err(());
            },
            Some(n) => {
                self.writes_left = Some(n - 1);
            },
            None => {},
        }
        let ghost pre = self.recorded@;
        let mut i: usize = 0;
        while i < data.len()
            invariant
                i <= data.len(),
                self.recorded@ == pre + data_events(data@.take(i as int)),
            decreases data.len() - i,
        {
            self.recorded.push(PortEvent::Data(data[i]));
            proof {
                assert(data@.take(i + 1 as int) == data@.take(i as int).push(data@[i as int]));
                lemma_data_events_push(data@.take(i as int), data@[i as int]);
            }
            i = i + 1;
        }
        proof {
            assert(data@.take(data@.len() as int) == data@);
        }
        Ok(())
    }
}

/// One transaction recorded on the I2C bus.
#[derive(Debug, PartialEq, Eq)]
pub enum I2cEvent {
    /// A plain write of the bytes to the device at the address.
    Write { addr: u8, data: Vec<u8> },
    /// A write of the command bytes followed by a read of the response.
    WriteRead { addr: u8, command: Vec<u8>, response: Vec<u8> },
}

/// The value of one I2C transaction.
pub ghost enum I2cAction {
    Write { addr: u8, data: Seq<u8> },
    WriteRead { addr: u8, command: Seq<u8>, response: Seq<u8> },
}

impl View for I2cEvent {
    type V = I2cAction;

    closed spec fn view(&self) -> I2cAction {
        match self {
            I2cEvent::Write { addr, data } => I2cAction::Write { addr: *addr, data: data@ },
            I2cEvent::WriteRead { addr, command, response } => I2cAction::WriteRead {
                addr: *addr,
                command: command@,
                response: response@,
            },
        }
    }
}

/// The log of an I2C bus, as its specification sees it.
pub type I2cLog = Seq<I2cAction>;

/// The values of a sequence of recorded transactions.
pub open spec fn i2c_log_of(events: Seq<I2cEvent>) -> Seq<I2cAction> {
    events.map_values(|e: I2cEvent| e@)
}

pub broadcast proof fn lemma_i2c_log_push(events: Seq<I2cEvent>, e: I2cEvent)
    ensures
        #[trigger] i2c_log_of(events.push(e)) == i2c_log_of(events).push(e@),
{
    assert(i2c_log_of(events.push(e)) =~= i2c_log_of(events).push(e@));
}

/// The transaction that reads one register and got the byte back.
pub open spec fn reg_read(addr: u8, reg: u8, b: u8) -> I2cAction {
    I2cAction::WriteRead { addr, command: seq![reg], response: seq![b] }
}

/// The transaction that writes one register.
pub open spec fn reg_write(addr: u8, reg: u8, v: u8) -> I2cAction {
    I2cAction::Write { addr, data: seq![reg, v] }
}

/// A shared I2C bus. Its specification is the growing log of transactions;
/// what a read returns depends on the device and is pinned only in the log.
pub trait I2cBus: Sized {
    /// The transactions performed so far, oldest first.
    spec fn log(&self) -> Seq<I2cAction>;

    /// Write bytes to the device at the address. A failed write performs
    /// nothing.
    fn write(&mut self, addr: u8, data: &[u8]) -> (r: Result<(), ()>)
        ensures
            r is Ok ==> final(self).log() == old(self).log().push(
                I2cAction::Write { addr, data: data@ },
            ),
            r is Err ==> final(self).log() == old(self).log(),
    ;

    /// Write the command bytes, then read `read_len` bytes back. A failed
    /// transaction performs nothing.
    fn write_read(&mut self, addr: u8, command: &[u8], read_len: usize) -> (r: Result<
        Vec<u8>,
        (),
    >)
        ensures
            match r {
                Ok(response) => response@.len() == read_len && final(self).log() == old(
                    self,
                ).log().push(
                    I2cAction::WriteRead { addr, command: command@, response: response@ },
                ),
                Err(_) => final(self).log() == old(self).log(),
            },
    ;
}

/// An I2C bus that records its transactions and answers reads from a
/// scripted byte queue; used by tests. Bytes beyond the script read as
/// zero.
pub struct RecordingI2c {
    recorded: Vec<I2cEvent>,
    script: Vec<u8>,
    cursor: usize,
    /// How many more transactions succeed; `None` means all of them do.
    ops_left: Option<usize>,
}

impl RecordingI2c {
    /// A bus whose transactions always succeed, answering reads from the
    /// scripted bytes.
    pub fn new(script: Vec<u8>) -> (t: RecordingI2c)
        ensures
            t.log() == Seq::<I2cAction>::empty(),
    {
        RecordingI2c { recorded: Vec::new(), script, cursor: 0, ops_left: None }
    }

    /// A bus whose transactions fail after `ops` successful ones.
    pub fn failing_after(script: Vec<u8>, ops: usize) -> (t: RecordingI2c)
        ensures
            t.log() == Seq::<I2cAction>::empty(),
    {
        RecordingI2c { recorded: Vec::new(), script, cursor: 0, ops_left: Some(ops) }
    }

    /// The recorded transactions, oldest first.
    pub fn recorded(&self) -> (r: &Vec<I2cEvent>)
        ensures
            i2c_log_of(r@) == self.log(),
    {
        &self.recorded
    }

    fn take_op(&mut self) -> (ok: bool)
        ensures
            final(self).recorded == old(self).recorded,
            final(self).script == old(self).script,
            final(self).cursor == old(self).cursor,
    {
        match self.ops_left {
            Some(0) => false,
            Some(n) => {
                self.ops_left = Some(n - 1);
                true
            },
            None => true,
        }
    }

    fn next_response(&mut self) -> (b: u8)
        ensures
            final(self).recorded == old(self).recorded,
            final(self).ops_left == old(self).ops_left,
            final(self).script == old(self).script,
    {
        if self.cursor < self.script.len() {
            let b = self.script[self.cursor];
            self.cursor = self.cursor + 1;
            b
        } else {
            0
        }
    }
}

impl I2cBus for RecordingI2c {
    closed spec fn log(&self) -> Seq<I2cAction> {
        i2c_log_of(self.recorded@)
    }

    fn write(&mut self, addr: u8, data: &[u8]) -> (r: Result<(), ()>) {
        if !self.take_op() {
            return Err(());
        }
        let event = I2cEvent::Write { addr, data: vstd::slice::slice_to_vec(data) };
        proof {
            lemma_i2c_log_push(self.recorded@, event);
        }
        self.recorded.push(event);
        Ok(())
    }

    fn write_read(&mut self, addr: u8, command: &[u8], read_len: usize) -> (r: Result<
        Vec<u8>,
        (),
    >) {
        if !self.take_op() {
            return Err(());
        }
        let mut response: Vec<u8> = Vec::new();
        let mut returned: Vec<u8> = Vec::new();
        let mut i: usize = 0;
        while i < read_len
            invariant
                response@.len() == i,
                returned@ == response@,
                i <= read_len,
                self.recorded == old(self).recorded,
            decreases read_len - i,
        {
            let b = self.next_response();
            response.push(b);
            returned.push(b);
            i = i + 1;
        }
        let event = I2cEvent::WriteRead {
            addr,
            command: vstd::slice::slice_to_vec(command),
            response,
        };
        proof {
            lemma_i2c_log_push(self.recorded@, event);
        }
        self.recorded.push(event);
        Ok(returned)
    }
}

} // verus!
