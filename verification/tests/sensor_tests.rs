//! Tests for the BME280 driver: chip identity, calibration parsing and the
//! vendor compensation formulas on known values.

use lcd_clock::bme280::{ADCCompensator, BME280State, BME280, Error};
use lcd_clock::ports::{I2cEvent, RecordingI2c};

const ADDR: u8 = 0x76;

fn datasheet_compensator() -> ADCCompensator {
    ADCCompensator {
        digt1: 27504,
        digt2: 26435,
        digt3: -1000,
        digp1: 36477,
        digp2: -10685,
        digp3: 3024,
        digp4: 2855,
        digp5: 140,
        digp6: -7,
        digp7: 15500,
        digp8: -14600,
        digp9: 6000,
        digh1: 75,
        digh2: 362,
        digh3: 0,
        digh4: 315,
        digh5: 50,
        digh6: 30,
    }
}

#[test]
fn temperature_compensation_matches_the_reference_value() {
    let c = datasheet_compensator();
    let (t, t_fine) = c.compensate_t(519888);
    // 25.08 degrees, the vendor's reference result for these words.
    assert_eq!(t, 2508);
    assert_eq!(t_fine, 128422);
}

#[test]
fn pressure_compensation_matches_the_reference_value() {
    let c = datasheet_compensator();
    let p = c.compensate_p(415148, 128422);
    assert_eq!(p, 25767233);
    // 100653 pascal, in 256ths.
    assert_eq!(p / 256, 100653);
}

#[test]
fn humidity_compensation_matches_the_reference_value() {
    let c = datasheet_compensator();
    let h = c.compensate_h(32768, 128422);
    assert_eq!(h, 3777);
}

#[test]
fn pressure_guard_returns_zero_when_the_divider_vanishes() {
    let mut c = datasheet_compensator();
    c.digp1 = 0;
    assert_eq!(c.compensate_p(415148, 128422), 0);
}

#[test]
fn humidity_is_clamped_to_its_range() {
    let mut c = datasheet_compensator();
    c.digh2 = -32768;
    let h = c.compensate_h(65535, 128422);
    assert_eq!(h, 0);
}

#[test]
fn compensate_tph_threads_the_fine_temperature() {
    let c = datasheet_compensator();
    let (t, p, h) = c.compensate_tph(519888, 415148, 32768);
    assert_eq!(t, 2508);
    assert_eq!(p, 25767233);
    assert_eq!(h, 3777);
}

fn full_script() -> Vec<u8> {
    // Chip id, then the calibration groups in register order, little
    // endian, then one raw measurement block.
    let mut s = vec![0x60u8];
    s.extend([112, 107, 67, 103, 24, 252]);
    s.extend([
        125, 142, 67, 214, 208, 11, 39, 11, 140, 0, 249, 255, 140, 60, 248, 198, 112, 23,
    ]);
    s.extend([75, 106, 1, 0, 19, 43, 3, 30]);
    s.extend([0x65, 0x5A, 0xC0, 0x7E, 0xED, 0x00, 0x80, 0x00]);
    s
}

#[test]
fn init_and_read_params_end_to_end() {
    let mut sensor = BME280::new(RecordingI2c::new(full_script()), BME280State::new(ADDR));
    sensor.init().unwrap();
    let (t, p, h) = sensor.read_params().unwrap();
    assert_eq!(t.raw(), 2508);
    assert_eq!(p.raw(), 25767233);
    assert_eq!(h.raw(), 3777);
}

#[test]
fn init_rejects_a_wrong_chip_id() {
    let mut sensor = BME280::new(RecordingI2c::new(vec![0x61]), BME280State::new(ADDR));
    assert_eq!(sensor.init(), Err(Error::WrongChipId));
    let (bus, _state) = sensor.release();
    assert_eq!(
        bus.recorded(),
        &vec![I2cEvent::WriteRead { addr: ADDR, command: vec![0xD0], response: vec![0x61] }],
    );
}

#[test]
fn read_params_before_init_is_not_initialized() {
    let mut sensor = BME280::new(
        RecordingI2c::new(vec![0u8; 8]),
        BME280State::new(ADDR),
    );
    assert_eq!(sensor.read_params(), Err(Error::NotInitialized));
}

#[test]
fn init_writes_the_configuration_registers() {
    let mut sensor = BME280::new(RecordingI2c::new(full_script()), BME280State::new(ADDR));
    sensor.init().unwrap();
    let (bus, _state) = sensor.release();
    let writes: Vec<&I2cEvent> = bus
        .recorded()
        .iter()
        .filter(|e| matches!(e, I2cEvent::Write { .. }))
        .collect();
    assert_eq!(
        writes,
        vec![
            &I2cEvent::Write { addr: ADDR, data: vec![0xF2, 0x07] },
            &I2cEvent::Write { addr: ADDR, data: vec![0xF4, 0x27] },
            &I2cEvent::Write { addr: ADDR, data: vec![0xF5, 0xA0] },
        ],
    );
}

#[test]
fn sensor_bus_failure_reports_bus_read() {
    let mut sensor = BME280::new(
        RecordingI2c::failing_after(vec![], 0),
        BME280State::new(ADDR),
    );
    assert_eq!(sensor.init(), Err(Error::BusRead));
}
