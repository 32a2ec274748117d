//! Tests for the bus arbiter: move-based mutual exclusion of the two I2C
//! devices, fail-fast on contention, and restoration on every exit path.

use lcd_clock::hardware::{LcdClockHardware, BME280_I2C_ADDR, DS3231_I2C_ADDR};
use lcd_clock::lcd_clock::Error;
use lcd_clock::ports::RecordingI2c;
use lcd_clock::ds3231::DS3231State;

#[test]
fn with_rtc_before_init_is_resource_unavailable() {
    // The device state is not parked yet: no checkout can succeed and no
    // bus traffic happens.
    let mut hw = LcdClockHardware::new(RecordingI2c::new(vec![]));
    let r = hw.with_rtc(|rtc| (rtc, ()));
    assert!(matches!(r, Err(Error::ResourceUnavailable)));
}

#[test]
fn reentrant_claim_is_resource_unavailable_without_io() {
    // A second checkout while the first is outstanding finds the slots
    // empty and fails fast; the outstanding driver performed all traffic.
    let mut hw = LcdClockHardware::new(RecordingI2c::new(vec![0x30]));
    hw.install_rtc(DS3231State::new(DS3231_I2C_ADDR));

    let mut claimed = hw.claim_rtc().unwrap();

    // While checked out, both the clock and the sensor checkout fail.
    let again = hw.with_rtc(|rtc| (rtc, ()));
    assert!(matches!(again, Err(Error::ResourceUnavailable)));
    let sensor = hw.with_humidity_sensor(|s| (s, ()));
    assert!(matches!(sensor, Err(Error::ResourceUnavailable)));

    let secs = claimed.get_secs().unwrap();
    assert_eq!(secs, 30);
    hw.release_rtc(claimed);

    // Checked back in: the slots are filled again and traffic is intact.
    let r = hw.with_rtc(|mut rtc| {
        let r = rtc.get_secs();
        (rtc, r)
    });
    assert!(r.is_ok());
    let drv = hw.claim_rtc().unwrap();
    let (bus, state) = drv.release();
    assert_eq!(bus.recorded().len(), 2);
    hw.release_rtc(lcd_clock::ds3231::DS3231::new(bus, state));
}

#[test]
fn with_rtc_restores_both_slots_after_success_and_failure() {
    let mut hw = LcdClockHardware::new(RecordingI2c::new(vec![0x15, 0x20]));
    hw.install_rtc(DS3231State::new(DS3231_I2C_ADDR));

    // Success path.
    let r = hw.with_rtc(|mut rtc| {
        let r = rtc.get_secs();
        (rtc, r)
    });
    assert_eq!(r.unwrap(), Ok(15));

    // The operation's own error passes through unchanged and the slots
    // are still parked: the next checkout succeeds.
    let r = hw.with_rtc(|mut rtc| {
        let r = rtc.set_secs(99);
        (rtc, r)
    });
    assert_eq!(r.unwrap(), Err(lcd_clock::ds3231::Error::SecondsRange));

    let r = hw.with_rtc(|mut rtc| {
        let r = rtc.get_secs();
        (rtc, r)
    });
    assert_eq!(r.unwrap(), Ok(20));
}

#[test]
fn init_installs_and_initializes_both_devices() {
    // Script: DS3231 control read, then BME280 chip id, calibration and
    // nothing else; writes consume no script bytes.
    let mut script = vec![0x00u8, 0x60];
    script.extend(vec![0u8; 6 + 18 + 8]);
    let mut hw = LcdClockHardware::new(RecordingI2c::new(script));
    hw.init().unwrap();

    // Both devices are parked again afterwards.
    let r = hw.with_rtc(|rtc| (rtc, ()));
    assert!(r.is_ok());
    let r = hw.with_humidity_sensor(|s| (s, ()));
    assert!(r.is_ok());
}

#[test]
fn init_passes_the_wrong_chip_id_through() {
    let mut hw = LcdClockHardware::new(RecordingI2c::new(vec![0x00, 0x61]));
    let r = hw.init();
    assert!(matches!(
        r,
        Err(Error::HumiditySensor(lcd_clock::bme280::Error::WrongChipId))
    ));
}

#[test]
fn sensor_claim_and_release_pair_like_the_clock_side() {
    let mut hw = LcdClockHardware::new(RecordingI2c::new(vec![]));
    hw.install_humidity_sensor(lcd_clock::bme280::BME280State::new(BME280_I2C_ADDR));
    let claimed = hw.claim_humidity_sensor().unwrap();
    assert!(matches!(hw.claim_humidity_sensor(), Err(Error::ResourceUnavailable)));
    assert!(matches!(hw.claim_rtc(), Err(Error::ResourceUnavailable)));
    hw.release_humidity_sensor(claimed);
    assert!(hw.claim_humidity_sensor().is_ok());
}

#[test]
fn addresses_are_the_product_schematic_ones() {
    assert_eq!(DS3231_I2C_ADDR, 0x68);
    assert_eq!(BME280_I2C_ADDR, 0x76);
}
