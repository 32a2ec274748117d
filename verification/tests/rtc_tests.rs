//! Tests for the DS3231 clock driver over a recorded I2C bus.

use lcd_clock::ds3231::{Day, DS3231State, DS3231, Error, Time};
use lcd_clock::ports::{I2cEvent, RecordingI2c};

const ADDR: u8 = 0x68;

fn rtc_on(script: Vec<u8>) -> DS3231<RecordingI2c> {
    DS3231::new(RecordingI2c::new(script), DS3231State::new(ADDR))
}

fn read_event(reg: u8, b: u8) -> I2cEvent {
    I2cEvent::WriteRead { addr: ADDR, command: vec![reg], response: vec![b] }
}

fn write_event(reg: u8, v: u8) -> I2cEvent {
    I2cEvent::Write { addr: ADDR, data: vec![reg, v] }
}

#[test]
fn get_secs_decodes_bcd() {
    // Register holds BCD 0x59: 59 seconds.
    let mut rtc = rtc_on(vec![0x59]);
    assert_eq!(rtc.get_secs(), Ok(59));
    let (bus, _state) = rtc.release();
    assert_eq!(bus.recorded(), &vec![read_event(0x00, 0x59)]);
}

#[test]
fn set_secs_encodes_bcd() {
    let mut rtc = rtc_on(vec![]);
    rtc.set_secs(47).unwrap();
    let (bus, _state) = rtc.release();
    assert_eq!(bus.recorded(), &vec![write_event(0x00, 0x47)]);
}

#[test]
fn set_secs_out_of_range_does_no_io() {
    let mut rtc = rtc_on(vec![]);
    assert_eq!(rtc.set_secs(60), Err(Error::SecondsRange));
    let (bus, _state) = rtc.release();
    assert!(bus.recorded().is_empty());
}

#[test]
fn minutes_round_trip() {
    let mut rtc = rtc_on(vec![0x38]);
    assert_eq!(rtc.get_mins(), Ok(38));
    rtc.set_mins(5).unwrap();
    assert_eq!(rtc.set_mins(61), Err(Error::MinutesRange));
    let (bus, _state) = rtc.release();
    assert_eq!(bus.recorded(), &vec![read_event(0x01, 0x38), write_event(0x01, 0x05)]);
}

#[test]
fn hours_in_24_hour_mode() {
    // 0x23 BCD with neither mode bit: 23 o'clock.
    let mut rtc = rtc_on(vec![0x23]);
    assert_eq!(rtc.get_hours(), Ok(23));
}

#[test]
fn hours_in_12_hour_pm_mode() {
    // 12-hour flag (0x40) and PM flag (0x20) set, low digits 7: 19 o'clock.
    let mut rtc = rtc_on(vec![0x40 | 0x20 | 0x07]);
    assert_eq!(rtc.get_hours(), Ok(19));
}

#[test]
fn hours_in_12_hour_am_mode() {
    // 12-hour flag set, PM clear, low digits 9: 9 o'clock.
    let mut rtc = rtc_on(vec![0x40 | 0x09]);
    assert_eq!(rtc.get_hours(), Ok(9));
}

#[test]
fn set_hours_keeps_the_register_mode() {
    // Register is in 12-hour mode; writing 15 stores PM and 15 % 12.
    let mut rtc = rtc_on(vec![0x40]);
    rtc.set_hours(15).unwrap();
    let (bus, _state) = rtc.release();
    assert_eq!(
        bus.recorded(),
        &vec![read_event(0x02, 0x40), write_event(0x02, 0x40 + 0x20 + 3)],
    );
}

#[test]
fn set_hours_out_of_range() {
    let mut rtc = rtc_on(vec![]);
    assert_eq!(rtc.set_hours(24), Err(Error::HoursRange));
    let (bus, _state) = rtc.release();
    assert!(bus.recorded().is_empty());
}

#[test]
fn days_round_trip() {
    let mut rtc = rtc_on(vec![0x03]);
    assert_eq!(rtc.get_days(), Ok(Day::Tuesday));
    rtc.set_days(Day::Saturday).unwrap();
    let (bus, _state) = rtc.release();
    assert_eq!(bus.recorded(), &vec![read_event(0x03, 0x03), write_event(0x03, 7)]);
}

#[test]
fn days_out_of_range() {
    let mut rtc = rtc_on(vec![0x00]);
    assert_eq!(rtc.get_days(), Err(Error::DaysRange));
}

#[test]
fn date_range_error() {
    let mut rtc = rtc_on(vec![]);
    assert_eq!(rtc.set_date(31), Err(Error::DateRange));
    rtc.set_date(30).unwrap();
    let (bus, _state) = rtc.release();
    assert_eq!(bus.recorded(), &vec![write_event(0x04, 0x30)]);
}

#[test]
fn month_round_trip_keeps_century_bit() {
    // Month register holds the century flag; writing keeps it.
    let mut rtc = rtc_on(vec![0x80 | 0x09]);
    rtc.set_month(11).unwrap();
    let (bus, _state) = rtc.release();
    assert_eq!(
        bus.recorded(),
        &vec![read_event(0x05, 0x89), write_event(0x05, 11 + 128)],
    );
}

#[test]
fn month_range_error_comes_after_the_read() {
    let mut rtc = rtc_on(vec![0x00]);
    assert_eq!(rtc.set_month(12), Err(Error::MonthRange));
    let (bus, _state) = rtc.release();
    assert_eq!(bus.recorded(), &vec![read_event(0x05, 0x00)]);
}

#[test]
fn year_decodes_century_and_bcd() {
    // Century flag set, year register BCD 0x24: 1900 + 100 + 24.
    let mut rtc = rtc_on(vec![0x80, 0x24]);
    assert_eq!(rtc.get_year(), Ok(2024));
}

#[test]
fn set_year_writes_century_and_bcd() {
    let mut rtc = rtc_on(vec![0x0A]);
    rtc.set_year(2024).unwrap();
    let (bus, _state) = rtc.release();
    assert_eq!(
        bus.recorded(),
        &vec![
            read_event(0x05, 0x0A),
            write_event(0x05, 0x0A + 128),
            write_event(0x06, 0x24),
        ],
    );
}

#[test]
fn set_year_range_error() {
    let mut rtc = rtc_on(vec![]);
    assert_eq!(rtc.set_year(1899), Err(Error::YearRange));
    assert_eq!(rtc.set_year(2100), Err(Error::YearRange));
    let (bus, _state) = rtc.release();
    assert!(bus.recorded().is_empty());
}

#[test]
fn temperature_combines_the_two_registers() {
    // 25 degrees and 3 quarters: MSB 25, LSB 0b11xxxxxx.
    let mut rtc = rtc_on(vec![25, 0xC0]);
    let t = rtc.get_temperature().unwrap();
    assert_eq!(t.value(), 25 * 4 + 3);
}

#[test]
fn get_time_reads_hours_minutes_seconds() {
    let mut rtc = rtc_on(vec![0x12, 0x34, 0x56]);
    assert_eq!(rtc.get_time(), Ok(Time { hours: 12, mins: 34, secs: 56 }));
    let (bus, _state) = rtc.release();
    assert_eq!(
        bus.recorded(),
        &vec![read_event(0x02, 0x12), read_event(0x01, 0x34), read_event(0x00, 0x56)],
    );
}

#[test]
fn get_calendar_reads_year_month_date() {
    // Month read twice: once for the century flag, once for the month.
    let mut rtc = rtc_on(vec![0x00, 0x99, 0x12, 0x21]);
    let c = rtc.get_calendar().unwrap();
    assert_eq!(c.year, 1999);
    assert_eq!(c.month, 2);
    assert_eq!(c.date, 21);
}

#[test]
fn bus_failure_reports_bus_read() {
    let mut rtc = DS3231::new(
        RecordingI2c::failing_after(vec![], 0),
        DS3231State::new(ADDR),
    );
    assert_eq!(rtc.get_secs(), Err(Error::BusRead));
}

#[test]
fn bus_failure_reports_bus_write() {
    let mut rtc = DS3231::new(
        RecordingI2c::failing_after(vec![], 0),
        DS3231State::new(ADDR),
    );
    assert_eq!(rtc.set_secs(10), Err(Error::BusWrite));
}

#[test]
fn init_sets_the_conversion_bit() {
    let mut rtc = rtc_on(vec![0x04]);
    rtc.init().unwrap();
    let (bus, _state) = rtc.release();
    assert_eq!(
        bus.recorded(),
        &vec![read_event(0x0E, 0x04), write_event(0x0E, 0x24)],
    );
}
