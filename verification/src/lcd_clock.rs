//! Top-level error type and the digit splitting used to spread a time or
//! a date over the six panels.

use vstd::prelude::*;
use crate::ds3231::{Calendar, Time};

verus! {

/// A failure anywhere in the clock's hardware layer.
#[derive(Clone, Copy, Debug, PartialEq, Eq, Structural)]
pub enum Error {
    /// The display driver failed.
    Display(crate::st7789vwx6::Error),
    /// The environmental sensor failed.
    HumiditySensor(crate::bme280::Error),
    /// The clock chip failed.
    Rtc(crate::ds3231::Error),
    /// The shared bus or the device state is already checked out.
    ResourceUnavailable,
}

/// One digit per panel: tens and ones of hours, minutes and seconds.
pub fn time_to_display_values(time: Time) -> (r: [u8; 6])
    ensures
        r@ == seq![
            (time.hours as int / 10) as u8,
            (time.hours as int % 10) as u8,
            (time.mins as int / 10) as u8,
            (time.mins as int % 10) as u8,
            (time.secs as int / 10) as u8,
            (time.secs as int % 10) as u8,
        ],
{
    let r = [
        time.hours / 10,
        time.hours % 10,
        time.mins / 10,
        time.mins % 10,
        time.secs / 10,
        time.secs % 10,
    ];
    proof {
        assert(r@ =~= seq![
            (time.hours as int / 10) as u8,
            (time.hours as int % 10) as u8,
            (time.mins as int / 10) as u8,
            (time.mins as int % 10) as u8,
            (time.secs as int / 10) as u8,
            (time.secs as int % 10) as u8,
        ]);
    }
    r
}

/// One digit per panel: tens and ones of the two-digit year, the month and
/// the day of month.
pub fn date_to_display_values(date: Calendar) -> (r: [u8; 6])
    ensures
        r@ == seq![
            (date.year as int % 100 / 10) as u8,
            (date.year as int % 10) as u8,
            (date.month as int / 10) as u8,
            (date.month as int % 10) as u8,
            (date.date as int / 10) as u8,
            (date.date as int % 10) as u8,
        ],
{
    let r = [
        ((date.year % 100) / 10) as u8,
        (date.year % 10) as u8,
        date.month / 10,
        date.month % 10,
        date.date / 10,
        date.date % 10,
    ];
    proof {
        assert(r@ =~= seq![
            (date.year as int % 100 / 10) as u8,
            (date.year as int % 10) as u8,
            (date.month as int / 10) as u8,
            (date.month as int % 10) as u8,
            (date.date as int / 10) as u8,
            (date.date as int % 10) as u8,
        ]);
    }
    r
}

} // verus!
