//! DS3231 real-time clock driver.
//!
//! The chip keeps time in BCD registers behind an I2C bus shared with the
//! environmental sensor; every transaction is one register read or write,
//! with the register number as the command byte. The driver owns the bus
//! only transiently: the arbiter hands it out together with the saved
//! device state and takes both back afterwards.

use vstd::prelude::*;
use crate::ports::{reg_read, reg_write, I2cAction, I2cBus};

verus! {

/// Seconds register.
pub const REG_SECONDS: u8 = 0x00;

/// Minutes register.
pub const REG_MINUTES: u8 = 0x01;

/// Hours register, with the 12-hour and PM flags.
pub const REG_HOURS: u8 = 0x02;

/// Day-of-week register.
pub const REG_DAYS: u8 = 0x03;

/// Day-of-month register.
pub const REG_DATE: u8 = 0x04;

/// Month register, with the century flag.
pub const REG_MONTH: u8 = 0x05;

/// Year register, two BCD digits.
pub const REG_YEAR: u8 = 0x06;

/// Control register.
pub const REG_CONTROL: u8 = 0x0E;

/// Temperature high byte.
pub const REG_TEMP_MSB: u8 = 0x11;

/// Temperature low byte.
pub const REG_TEMP_LSB: u8 = 0x12;

/// A failure of the clock driver.
#[derive(Clone, Copy, Debug, PartialEq, Eq, Structural)]
pub enum Error {
    BusRead,
    BusWrite,
    SecondsRange,
    MinutesRange,
    HoursRange,
    DaysRange,
    DateRange,
    MonthRange,
    YearRange,
}

/// The decimal value of a two-digit BCD byte.
pub open spec fn bcd_to_dec(v: u8) -> u8 {
    ((v as int / 16) * 10 + v as int % 16) as u8
}

/// The BCD byte of a decimal value below 100.
pub open spec fn dec_to_bcd(v: u8) -> u8 {
    ((v as int / 10) * 16 + v as int % 10) as u8
}

fn bcd_to_dec_exec(v: u8) -> (r: u8)
    ensures
        r == bcd_to_dec(v),
{
    (v / 16) * 10 + v % 16
}

fn dec_to_bcd_exec(v: u8) -> (r: u8)
    requires
        v <= 99,
    ensures
        r == dec_to_bcd(v),
{
    (v / 10) * 16 + v % 10
}

/// A decimal value below 100 comes back unchanged from its BCD byte.
pub proof fn lemma_bcd_round_trip(v: u8)
    requires
        v <= 99,
    ensures
        bcd_to_dec(dec_to_bcd(v)) == v,
{
}

/// The 12-hour flag of the hours register.
pub open spec fn hour12_flag(v: u8) -> bool {
    v as int / 64 % 2 == 1
}

/// The PM flag of the hours register.
pub open spec fn pm_flag(v: u8) -> bool {
    v as int / 32 % 2 == 1
}

/// The century flag of the month register.
pub open spec fn century_flag(v: u8) -> bool {
    v as int / 128 == 1
}

/// The hour of day read from the hours register, honouring the register's
/// own 12-hour or 24-hour mode.
pub open spec fn decode_hours(v: u8) -> u8 {
    if hour12_flag(v) {
        if pm_flag(v) {
            (12 + v as int % 16) as u8
        } else {
            (v as int % 16) as u8
        }
    } else {
        bcd_to_dec((v as int % 64) as u8)
    }
}

/// The hours register byte that stores an hour of day, keeping the mode
/// found in the register's current value.
pub open spec fn encode_hours(mode_reg: u8, hours: u8) -> u8 {
    if hour12_flag(mode_reg) {
        (0x40 + (if hours >= 12 {
            0x20int
        } else {
            0int
        }) + hours as int % 12) as u8
    } else {
        dec_to_bcd(hours)
    }
}

/// Temperature as kept by the chip: eight bits of degrees and two bits of
/// quarter degrees. Presentation as a fraction is the caller's business.
#[derive(Clone, Copy, Debug, PartialEq, Eq, Structural)]
pub struct Temperature(u16);

impl Temperature {
    /// Degrees times four plus quarters.
    pub closed spec fn spec_value(&self) -> u16 {
        self.0
    }

    /// The raw reading: degrees times four plus quarters.
    pub fn value(&self) -> (v: u16)
        ensures
            v == self.spec_value(),
    {
        self.0
    }
}

/// Day of week as the chip counts it, Sunday first.
#[derive(Clone, Copy, Debug, PartialEq, Eq, Structural)]
pub enum Day {
    Sunday,
    Monday,
    Tuesday,
    Wednesday,
    Thursday,
    Friday,
    Saturday,
}

impl Day {
    /// The register value of this day: Sunday is 1, Saturday 7.
    pub open spec fn spec_value(self) -> u8 {
        match self {
            Day::Sunday => 1,
            Day::Monday => 2,
            Day::Tuesday => 3,
            Day::Wednesday => 4,
            Day::Thursday => 5,
            Day::Friday => 6,
            Day::Saturday => 7,
        }
    }

    /// The day a register value names, if any.
    pub open spec fn spec_from_value(v: u8) -> Option<Day> {
        match v {
            1u8 => Some(Day::Sunday),
            2u8 => Some(Day::Monday),
            3u8 => Some(Day::Tuesday),
            4u8 => Some(Day::Wednesday),
            5u8 => Some(Day::Thursday),
            6u8 => Some(Day::Friday),
            7u8 => Some(Day::Saturday),
            _ => None,
        }
    }

    pub fn value(self) -> (v: u8)
        ensures
            v == self.spec_value(),
    {
        match self {
            Day::Sunday => 1,
            Day::Monday => 2,
            Day::Tuesday => 3,
            Day::Wednesday => 4,
            Day::Thursday => 5,
            Day::Friday => 6,
            Day::Saturday => 7,
        }
    }

    /// The day a register value names, or a range error.
    pub fn from_value(v: u8) -> (r: Result<Day, Error>)
        ensures
            match Day::spec_from_value(v) {
                Some(d) => r == Ok::<Day, Error>(d),
                None => r == Err::<Day, Error>(Error::DaysRange),
            },
    {
        match v {
            1 => Ok(Day::Sunday),
            2 => Ok(Day::Monday),
            3 => Ok(Day::Tuesday),
            4 => Ok(Day::Wednesday),
            5 => Ok(Day::Thursday),
            6 => Ok(Day::Friday),
            7 => Ok(Day::Saturday),
            _ => Err(Error::DaysRange),
        }
    }
}

/// A calendar date.
#[derive(Clone, Copy, Debug, PartialEq, Eq, Structural)]
pub struct Calendar {
    pub year: u16,
    pub month: u8,
    pub date: u8,
}

/// A time of day.
#[derive(Clone, Copy, Debug, PartialEq, Eq, PartialOrd, Ord, Default, Structural)]
pub struct Time {
    pub hours: u8,
    pub mins: u8,
    pub secs: u8,
}

/// The saved per-device state of the clock: its bus address.
pub struct DS3231State {
    addr: u8,
}

impl DS3231State {
    /// The 7-bit bus address.
    pub closed spec fn spec_addr(&self) -> u8 {
        self.addr
    }

    pub fn new(addr: u8) -> (s: DS3231State)
        ensures
            s.spec_addr() == addr,
    {
        DS3231State { addr }
    }
}

/// The clock driver: the borrowed bus and the saved device state.
pub struct DS3231<I2C> {
    i2c: I2C,
    state: DS3231State,
}

impl<I2C> DS3231<I2C> {
    /// The driver value combining a bus and a device state.
    pub closed spec fn spec_combine(i2c: I2C, state: DS3231State) -> DS3231<I2C> {
        DS3231 { i2c, state }
    }

    /// A driver is exactly its bus and its device state combined.
    pub proof fn lemma_combine(d: DS3231<I2C>)
        ensures
            d == DS3231::spec_combine(d.spec_i2c(), d.spec_state()),
    {
    }

    /// The borrowed bus.
    pub closed spec fn spec_i2c(&self) -> I2C {
        self.i2c
    }

    /// The saved device state.
    pub closed spec fn spec_state(&self) -> DS3231State {
        self.state
    }

    /// The device address on the bus.
    pub open spec fn addr(&self) -> u8 {
        self.spec_state().spec_addr()
    }

    pub fn new(i2c: I2C, state: DS3231State) -> (d: DS3231<I2C>)
        ensures
            d == DS3231::spec_combine(i2c, state),
            d.spec_i2c() == i2c,
            d.spec_state() == state,
    {
        DS3231 { i2c, state }
    }

    /// Decompose the driver back into the bus and the device state.
    pub fn release(self) -> (r: (I2C, DS3231State))
        ensures
            r.0 == self.spec_i2c(),
            r.1 == self.spec_state(),
    {
        (self.i2c, self.state)
    }
}

impl<I2C: I2cBus> DS3231<I2C> {
    /// The bus transactions performed so far.
    pub open spec fn log(&self) -> Seq<I2cAction> {
        self.spec_i2c().log()
    }

    fn read_reg(&mut self, reg: u8) -> (r: Result<u8, Error>)
        ensures
            r matches Ok(b) ==> final(self).log() == old(self).log().push(
                reg_read(old(self).addr(), reg, b),
            ),
            r is Err ==> r == Err::<u8, Error>(Error::BusRead) && final(self).log() == old(
                self,
            ).log(),
            final(self).spec_state() == old(self).spec_state(),
    {
        let cmds: [u8; 1] = [reg];
        match self.i2c.write_read(self.state.addr, cmds.as_slice(), 1) {
            Ok(resp) => {
                let b = resp[0];
                proof {
                    assert(resp@ =~= seq![b]);
                    assert(cmds@ =~= seq![reg]);
                }
                Ok(b)
            },
            Err(()) => Err(Error::BusRead),
        }
    }

    fn write_reg(&mut self, reg: u8, value: u8) -> (r: Result<(), Error>)
        ensures
            r is Ok ==> final(self).log() == old(self).log().push(
                reg_write(old(self).addr(), reg, value),
            ),
            r is Err ==> r == Err::<(), Error>(Error::BusWrite) && final(self).log() == old(
                self,
            ).log(),
            final(self).spec_state() == old(self).spec_state(),
    {
        let buf: [u8; 2] = [reg, value];
        match self.i2c.write(self.state.addr, buf.as_slice()) {
            Ok(()) => {
                proof {
                    assert(buf@ =~= seq![reg, value]);
                }
                Ok(())
            },
            Err(()) => Err(Error::BusWrite),
        }
    }

    /// Enable the temperature conversion: read the control register and
    /// write it back with the conversion bit set.
    pub fn init(&mut self) -> (r: Result<(), Error>)
        ensures
            r is Ok ==> exists|c: u8|
                final(self).log() == old(self).log().push(
                    reg_read(old(self).addr(), REG_CONTROL, c),
                ).push(
                    reg_write(
                        old(self).addr(),
                        REG_CONTROL,
                        (if c as int / 32 % 2 == 1 {
                            c as int
                        } else {
                            c as int + 32
                        }) as u8,
                    ),
                ),
            r == Err::<(), Error>(Error::BusRead) ==> final(self).log() == old(self).log(),
            r == Err::<(), Error>(Error::BusWrite) ==> exists|c: u8|
                final(self).log() == old(self).log().push(
                    reg_read(old(self).addr(), REG_CONTROL, c),
                ),
            r is Err ==> r == Err::<(), Error>(Error::BusRead) || r == Err::<(), Error>(
                Error::BusWrite,
            ),
            final(self).spec_state() == old(self).spec_state(),
    {
        let status = self.read_reg(REG_CONTROL)?;
        let with_bit = if (status / 32) % 2 == 1 {
            status
        } else {
            status + 32
        };
        self.write_reg(REG_CONTROL, with_bit)
    }

    /// Read the seconds, decoded from BCD.
    pub fn get_secs(&mut self) -> (r: Result<u8, Error>)
        ensures
            r matches Ok(s) ==> exists|b: u8|
                final(self).log() == old(self).log().push(
                    reg_read(old(self).addr(), REG_SECONDS, b),
                ) && s == bcd_to_dec(b),
            r is Err ==> r == Err::<u8, Error>(Error::BusRead) && final(self).log() == old(
                self,
            ).log(),
            final(self).spec_state() == old(self).spec_state(),
    {
        let secs = self.read_reg(REG_SECONDS)?;
        Ok(bcd_to_dec_exec(secs))
    }

    /// Set the seconds; a value above 59 is rejected without bus traffic.
    pub fn set_secs(&mut self, secs: u8) -> (r: Result<(), Error>)
        ensures
            secs > 59 ==> r == Err::<(), Error>(Error::SecondsRange) && final(self).log() == old(
                self,
            ).log(),
            secs <= 59 && r is Ok ==> final(self).log() == old(self).log().push(
                reg_write(old(self).addr(), REG_SECONDS, dec_to_bcd(secs)),
            ),
            secs <= 59 && r is Err ==> r == Err::<(), Error>(Error::BusWrite) && final(self).log() == old(self).log(),
            final(self).spec_state() == old(self).spec_state(),
    {
        if secs <= 59 {
            let v = dec_to_bcd_exec(secs);
            self.write_reg(REG_SECONDS, v)
        } else {
            Err(Error::SecondsRange)
        }
    }

    /// Read the minutes, decoded from BCD.
    pub fn get_mins(&mut self) -> (r: Result<u8, Error>)
        ensures
            r matches Ok(m) ==> exists|b: u8|
                final(self).log() == old(self).log().push(
                    reg_read(old(self).addr(), REG_MINUTES, b),
                ) && m == bcd_to_dec(b),
            r is Err ==> r == Err::<u8, Error>(Error::BusRead) && final(self).log() == old(
                self,
            ).log(),
            final(self).spec_state() == old(self).spec_state(),
    {
        let mins = self.read_reg(REG_MINUTES)?;
        Ok(bcd_to_dec_exec(mins))
    }

    /// Set the minutes; a value above 59 is rejected without bus traffic.
    pub fn set_mins(&mut self, mins: u8) -> (r: Result<(), Error>)
        ensures
            mins > 59 ==> r == Err::<(), Error>(Error::MinutesRange) && final(self).log() == old(
                self,
            ).log(),
            mins <= 59 && r is Ok ==> final(self).log() == old(self).log().push(
                reg_write(old(self).addr(), REG_MINUTES, dec_to_bcd(mins)),
            ),
            mins <= 59 && r is Err ==> r == Err::<(), Error>(Error::BusWrite) && final(self).log() == old(self).log(),
            final(self).spec_state() == old(self).spec_state(),
    {
        if mins <= 59 {
            let v = dec_to_bcd_exec(mins);
            self.write_reg(REG_MINUTES, v)
        } else {
            Err(Error::MinutesRange)
        }
    }

    /// Read the hour of day, honouring the 12-hour or 24-hour mode the
    /// register is in.
    pub fn get_hours(&mut self) -> (r: Result<u8, Error>)
        ensures
            r matches Ok(h) ==> exists|b: u8|
                final(self).log() == old(self).log().push(
                    reg_read(old(self).addr(), REG_HOURS, b),
                ) && h == decode_hours(b),
            r is Err ==> r == Err::<u8, Error>(Error::BusRead) && final(self).log() == old(
                self,
            ).log(),
            final(self).spec_state() == old(self).spec_state(),
    {
        let hours = self.read_reg(REG_HOURS)?;
        let h12 = (hours / 64) % 2 == 1;
        let pm = (hours / 32) % 2 == 1;
        let h = if h12 {
            if pm {
                12 + hours % 16
            } else {
                hours % 16
            }
        } else {
            bcd_to_dec_exec(hours % 64)
        };
        proof {
            assert(h == decode_hours(hours));
            assert(self.log() == old(self).log().push(
                reg_read(old(self).addr(), REG_HOURS, hours),
            ) && h == decode_hours(hours));
        }
        Ok(h)
    }

    /// Set the hour of day, keeping the mode found in the register; a value
    /// above 23 is rejected without bus traffic.
    pub fn set_hours(&mut self, hours: u8) -> (r: Result<(), Error>)
        ensures
            hours > 23 ==> r == Err::<(), Error>(Error::HoursRange) && final(self).log() == old(
                self,
            ).log(),
            hours <= 23 && r is Ok ==> exists|b: u8|
                final(self).log() == old(self).log().push(
                    reg_read(old(self).addr(), REG_HOURS, b),
                ).push(reg_write(old(self).addr(), REG_HOURS, encode_hours(b, hours))),
            hours <= 23 && r == Err::<(), Error>(Error::BusRead) ==> final(self).log() == old(
                self,
            ).log(),
            hours <= 23 && r == Err::<(), Error>(Error::BusWrite) ==> exists|b: u8|
                final(self).log() == old(self).log().push(
                    reg_read(old(self).addr(), REG_HOURS, b),
                ),
            r is Err ==> r == Err::<(), Error>(Error::HoursRange) || r == Err::<(), Error>(
                Error::BusRead,
            ) || r == Err::<(), Error>(Error::BusWrite),
            final(self).spec_state() == old(self).spec_state(),
    {
        if hours > 23 {
            return Err(Error::HoursRange);
        }
        let mode_reg = self.read_reg(REG_HOURS)?;
        let h12 = (mode_reg / 64) % 2 == 1;
        let encoded = if h12 {
            0x40 + (if hours >= 12 {
                0x20
            } else {
                0
            }) + hours % 12
        } else {
            dec_to_bcd_exec(hours)
        };
        proof {
            assert(encoded == encode_hours(mode_reg, hours));
        }
        let r = self.write_reg(REG_HOURS, encoded);
        proof {
            if r is Ok {
                assert(self.log() == old(self).log().push(
                    reg_read(old(self).addr(), REG_HOURS, mode_reg),
                ).push(reg_write(old(self).addr(), REG_HOURS, encode_hours(mode_reg, hours))));
            } else {
                assert(self.log() == old(self).log().push(
                    reg_read(old(self).addr(), REG_HOURS, mode_reg),
                ));
            }
        }
        r
    }

    /// Read the day of week.
    pub fn get_days(&mut self) -> (r: Result<Day, Error>)
        ensures
            r matches Ok(d) ==> exists|b: u8|
                final(self).log() == old(self).log().push(
                    reg_read(old(self).addr(), REG_DAYS, b),
                ) && Day::spec_from_value(b) == Some(d),
            r == Err::<Day, Error>(Error::DaysRange) ==> exists|b: u8|
                final(self).log() == old(self).log().push(
                    reg_read(old(self).addr(), REG_DAYS, b),
                ) && Day::spec_from_value(b) is None,
            r == Err::<Day, Error>(Error::BusRead) ==> final(self).log() == old(self).log(),
            r is Err ==> r == Err::<Day, Error>(Error::BusRead) || r == Err::<Day, Error>(
                Error::DaysRange,
            ),
            final(self).spec_state() == old(self).spec_state(),
    {
        let days = self.read_reg(REG_DAYS)?;
        Day::from_value(days)
    }

    /// Set the day of week.
    pub fn set_days(&mut self, days: Day) -> (r: Result<(), Error>)
        ensures
            r is Ok ==> final(self).log() == old(self).log().push(
                reg_write(old(self).addr(), REG_DAYS, days.spec_value()),
            ),
            r is Err ==> r == Err::<(), Error>(Error::BusWrite) && final(self).log() == old(
                self,
            ).log(),
            final(self).spec_state() == old(self).spec_state(),
    {
        let v = days.value();
        self.write_reg(REG_DAYS, v)
    }

    /// Read the day-of-week register and decode it from BCD.
    pub fn get_date(&mut self) -> (r: Result<u8, Error>)
        ensures
            r matches Ok(d) ==> exists|b: u8|
                final(self).log() == old(self).log().push(
                    reg_read(old(self).addr(), REG_DAYS, b),
                ) && d == bcd_to_dec(b),
            r is Err ==> r == Err::<u8, Error>(Error::BusRead) && final(self).log() == old(
                self,
            ).log(),
            final(self).spec_state() == old(self).spec_state(),
    {
        let d = self.read_reg(REG_DAYS)?;
        Ok(bcd_to_dec_exec(d))
    }

    /// Set the day of month; a value above 30 is rejected without bus
    /// traffic.
    pub fn set_date(&mut self, date: u8) -> (r: Result<(), Error>)
        ensures
            date > 30 ==> r == Err::<(), Error>(Error::DateRange) && final(self).log() == old(
                self,
            ).log(),
            date <= 30 && r is Ok ==> final(self).log() == old(self).log().push(
                reg_write(old(self).addr(), REG_DATE, dec_to_bcd(date)),
            ),
            date <= 30 && r is Err ==> r == Err::<(), Error>(Error::BusWrite) && final(self).log() == old(self).log(),
            final(self).spec_state() == old(self).spec_state(),
    {
        if date <= 30 {
            let v = dec_to_bcd_exec(date);
            self.write_reg(REG_DATE, v)
        } else {
            Err(Error::DateRange)
        }
    }

    /// Read the month, masked from the month register.
    pub fn get_month(&mut self) -> (r: Result<u8, Error>)
        ensures
            r matches Ok(m) ==> exists|b: u8|
                final(self).log() == old(self).log().push(
                    reg_read(old(self).addr(), REG_MONTH, b),
                ) && m == b as int % 16,
            r is Err ==> r == Err::<u8, Error>(Error::BusRead) && final(self).log() == old(
                self,
            ).log(),
            final(self).spec_state() == old(self).spec_state(),
    {
        let m = self.read_reg(REG_MONTH)?;
        Ok(m % 16)
    }

    /// Set the month, keeping the century flag found in the register; a
    /// value outside 1 through 11 is rejected after the read.
    pub fn set_month(&mut self, month: u8) -> (r: Result<(), Error>)
        ensures
            r is Ok ==> 1 <= month < 12 && exists|b: u8|
                final(self).log() == old(self).log().push(
                    reg_read(old(self).addr(), REG_MONTH, b),
                ).push(
                    reg_write(
                        old(self).addr(),
                        REG_MONTH,
                        (month as int + (if century_flag(b) {
                            128int
                        } else {
                            0int
                        })) as u8,
                    ),
                ),
            r == Err::<(), Error>(Error::MonthRange) ==> !(1 <= month < 12) && exists|b: u8|
                final(self).log() == old(self).log().push(
                    reg_read(old(self).addr(), REG_MONTH, b),
                ),
            r == Err::<(), Error>(Error::BusRead) ==> final(self).log() == old(self).log(),
            r is Err ==> r == Err::<(), Error>(Error::BusRead) || r == Err::<(), Error>(
                Error::BusWrite,
            ) || r == Err::<(), Error>(Error::MonthRange),
            final(self).spec_state() == old(self).spec_state(),
    {
        let reg = self.read_reg(REG_MONTH)?;
        let century_bit = (reg / 128) * 128;
        if 1 <= month && month < 12 {
            let r = self.write_reg(REG_MONTH, month + century_bit);
            proof {
                if r is Ok {
                    assert(self.log() == old(self).log().push(
                        reg_read(old(self).addr(), REG_MONTH, reg),
                    ).push(
                        reg_write(
                            old(self).addr(),
                            REG_MONTH,
                            (month as int + (if century_flag(reg) {
                                128int
                            } else {
                                0int
                            })) as u8,
                        ),
                    ));
                }
            }
            r
        } else {
            proof {
                assert(self.log() == old(self).log().push(
                    reg_read(old(self).addr(), REG_MONTH, reg),
                ));
            }
            Err(Error::MonthRange)
        }
    }

    /// Read the year: the BCD year register plus the century flag, counted
    /// from 1900.
    pub fn get_year(&mut self) -> (r: Result<u16, Error>)
        ensures
            r matches Ok(y) ==> exists|bm: u8, by: u8|
                final(self).log() == old(self).log().push(
                    reg_read(old(self).addr(), REG_MONTH, bm),
                ).push(reg_read(old(self).addr(), REG_YEAR, by)) && y == bcd_to_dec(by) as int + (
                if century_flag(bm) {
                    100int
                } else {
                    0int
                }) + 1900,
            r is Err ==> r == Err::<u16, Error>(Error::BusRead),
            r is Err ==> old(self).log().is_prefix_of(final(self).log()),
            final(self).spec_state() == old(self).spec_state(),
    {
        let month_reg = self.read_reg(REG_MONTH)?;
        let year_reg = self.read_reg(REG_YEAR)?;
        let century: u16 = if month_reg / 128 == 1 {
            100
        } else {
            0
        };
        Ok(bcd_to_dec_exec(year_reg) as u16 + century + 1900)
    }

    /// Set the year, 1900 through 2099: rewrite the century flag in the
    /// month register, then the BCD year register.
    pub fn set_year(&mut self, year: u16) -> (r: Result<(), Error>)
        ensures
            !(1900 <= year <= 2099) ==> r == Err::<(), Error>(Error::YearRange) && final(self).log() == old(self).log(),
            1900 <= year <= 2099 && r is Ok ==> exists|b: u8|
                final(self).log() == old(self).log().push(
                    reg_read(old(self).addr(), REG_MONTH, b),
                ).push(
                    reg_write(
                        old(self).addr(),
                        REG_MONTH,
                        (b as int % 128 + (if year >= 2000 {
                            128int
                        } else {
                            0int
                        })) as u8,
                    ),
                ).push(
                    reg_write(
                        old(self).addr(),
                        REG_YEAR,
                        dec_to_bcd(((year - 1900) as int % 100) as u8),
                    ),
                ),
            r is Err ==> r == Err::<(), Error>(Error::YearRange) || r == Err::<(), Error>(
                Error::BusRead,
            ) || r == Err::<(), Error>(Error::BusWrite),
            r is Err ==> old(self).log().is_prefix_of(final(self).log()),
            final(self).spec_state() == old(self).spec_state(),
    {
        if 1900 <= year && year <= 2099 {
            let ghost pre = self.log();
            let years_from_base = (year - 1900) as u8;
            let month_reg = self.read_reg(REG_MONTH)?;
            let century_bit: u8 = if years_from_base >= 100 {
                128
            } else {
                0
            };
            let new_month_reg = month_reg % 128 + century_bit;
            self.write_reg(REG_MONTH, new_month_reg)?;
            let v = dec_to_bcd_exec(years_from_base % 100);
            self.write_reg(REG_YEAR, v)
        } else {
            Err(Error::YearRange)
        }
    }

    /// Read the temperature: eight bits of degrees and two bits of quarter
    /// degrees from the two temperature registers.
    pub fn get_temperature(&mut self) -> (r: Result<Temperature, Error>)
        ensures
            r matches Ok(t) ==> exists|bh: u8, bl: u8|
                final(self).log() == old(self).log().push(
                    reg_read(old(self).addr(), REG_TEMP_MSB, bh),
                ).push(reg_read(old(self).addr(), REG_TEMP_LSB, bl)) && t.spec_value() == bh as int
                    * 4 + bl as int / 64,
            r is Err ==> r == Err::<Temperature, Error>(Error::BusRead),
            r is Err ==> old(self).log().is_prefix_of(final(self).log()),
            final(self).spec_state() == old(self).spec_state(),
    {
        let high = self.read_reg(REG_TEMP_MSB)?;
        let low = self.read_reg(REG_TEMP_LSB)?;
        Ok(Temperature((high as u16) * 4 + (low as u16) / 64))
    }

    /// Read year, month and date together.
    pub fn get_calendar(&mut self) -> (r: Result<Calendar, Error>)
        ensures
            r matches Ok(c) ==> exists|bm: u8, by: u8, bm2: u8, bd: u8|
                final(self).log() == old(self).log().push(
                    reg_read(old(self).addr(), REG_MONTH, bm),
                ).push(reg_read(old(self).addr(), REG_YEAR, by)).push(
                    reg_read(old(self).addr(), REG_MONTH, bm2),
                ).push(reg_read(old(self).addr(), REG_DAYS, bd)) && c.year == bcd_to_dec(by) as int
                    + (if century_flag(bm) {
                    100int
                } else {
                    0int
                }) + 1900 && c.month == bm2 as int % 16 && c.date == bcd_to_dec(bd),
            r is Err ==> r == Err::<Calendar, Error>(Error::BusRead),
            r is Err ==> old(self).log().is_prefix_of(final(self).log()),
            final(self).spec_state() == old(self).spec_state(),
    {
        let year = self.get_year()?;
        let month = self.get_month()?;
        let date = self.get_date()?;
        Ok(Calendar { year, month, date })
    }

    /// Read hours, minutes and seconds together.
    pub fn get_time(&mut self) -> (r: Result<Time, Error>)
        ensures
            r matches Ok(t) ==> exists|bh: u8, bm: u8, bs: u8|
                final(self).log() == old(self).log().push(
                    reg_read(old(self).addr(), REG_HOURS, bh),
                ).push(reg_read(old(self).addr(), REG_MINUTES, bm)).push(
                    reg_read(old(self).addr(), REG_SECONDS, bs),
                ) && t.hours == decode_hours(bh) && t.mins == bcd_to_dec(bm) && t.secs
                    == bcd_to_dec(bs),
            r is Err ==> r == Err::<Time, Error>(Error::BusRead),
            r is Err ==> old(self).log().is_prefix_of(final(self).log()),
            final(self).spec_state() == old(self).spec_state(),
    {
        let hours = self.get_hours()?;
        let mins = self.get_mins()?;
        let secs = self.get_secs()?;
        Ok(Time { hours, mins, secs })
    }
}

} // verus!
