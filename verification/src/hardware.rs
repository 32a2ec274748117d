//! The bus arbiter: one physical I2C bus, shared by the clock chip and the
//! environmental sensor, without a runtime lock.
//!
//! The bus handle and each device's saved state are parked in option slots
//! and only ever handed out together: checking a device out moves both out
//! of their slots, so "in use" is the structural fact that a slot is empty
//! rather than a flag. A second checkout while one is outstanding fails
//! fast with [`Error::ResourceUnavailable`] and performs no bus traffic;
//! every checkout is paired with a check-in on every exit path.

use vstd::prelude::*;
use crate::bme280::{BME280State, BME280};
use crate::ds3231::{DS3231State, DS3231};
use crate::lcd_clock::Error;
use crate::ports::I2cBus;

verus! {

/// Bus address of the environmental sensor, fixed by the product schematic.
pub const BME280_I2C_ADDR: u8 = 0x76;

/// Bus address of the clock chip, fixed by the product schematic.
pub const DS3231_I2C_ADDR: u8 = 0x68;

/// The parked resources: the bus handle and the two devices' saved states.
pub struct LcdClockHardware<B> {
    i2c_bus: Option<B>,
    rtc: Option<DS3231State>,
    humidity_sensor: Option<BME280State>,
}

impl<B> LcdClockHardware<B> {
    /// The parked bus handle, if it is checked in.
    pub closed spec fn spec_i2c_bus(&self) -> Option<B> {
        self.i2c_bus
    }

    /// The parked clock-chip state, if it is checked in.
    pub closed spec fn spec_rtc(&self) -> Option<DS3231State> {
        self.rtc
    }

    /// The parked sensor state, if it is checked in.
    pub closed spec fn spec_humidity_sensor(&self) -> Option<BME280State> {
        self.humidity_sensor
    }

    /// The bus and the clock-chip state are both parked: a clock checkout
    /// can succeed.
    pub open spec fn parked_rtc(&self) -> bool {
        self.spec_i2c_bus() is Some && self.spec_rtc() is Some
    }

    /// The bus and the sensor state are both parked: a sensor checkout can
    /// succeed.
    pub open spec fn parked_humidity(&self) -> bool {
        self.spec_i2c_bus() is Some && self.spec_humidity_sensor() is Some
    }

    /// Park the bus handle; the device states are installed by `init`.
    pub fn new(i2c_bus: B) -> (h: LcdClockHardware<B>)
        ensures
            h.spec_i2c_bus() == Some(i2c_bus),
            h.spec_rtc() is None,
            h.spec_humidity_sensor() is None,
    {
        LcdClockHardware { i2c_bus: Some(i2c_bus), rtc: None, humidity_sensor: None }
    }

    /// Park a clock-chip state, replacing any parked one.
    pub fn install_rtc(&mut self, state: DS3231State)
        ensures
            final(self).spec_rtc() == Some(state),
            final(self).spec_i2c_bus() == old(self).spec_i2c_bus(),
            final(self).spec_humidity_sensor() == old(self).spec_humidity_sensor(),
    {
        self.rtc = Some(state);
    }

    /// Park a sensor state, replacing any parked one.
    pub fn install_humidity_sensor(&mut self, state: BME280State)
        ensures
            final(self).spec_humidity_sensor() == Some(state),
            final(self).spec_i2c_bus() == old(self).spec_i2c_bus(),
            final(self).spec_rtc() == old(self).spec_rtc(),
    {
        self.humidity_sensor = Some(state);
    }

    /// Check the bus and the clock-chip state out together. Fails fast,
    /// with nothing moved, when either is already out.
    pub fn claim_rtc(&mut self) -> (r: Result<DS3231<B>, Error>)
        ensures
            r is Ok <==> old(self).parked_rtc(),
            r is Err ==> r == Err::<DS3231<B>, Error>(Error::ResourceUnavailable) && *final(self)
                == *old(self),
            r matches Ok(d) ==> old(self).spec_i2c_bus() == Some(d.spec_i2c()) && old(
                self,
            ).spec_rtc() == Some(d.spec_state()) && final(self).spec_i2c_bus() is None && final(self).spec_rtc() is None && final(self).spec_humidity_sensor() == old(
                self,
            ).spec_humidity_sensor(),
    {
        if self.i2c_bus.is_none() || self.rtc.is_none() {
            return Err(Error::ResourceUnavailable);
        }
        let bus = self.i2c_bus.take().unwrap();
        let state = self.rtc.take().unwrap();
        Ok(DS3231::new(bus, state))
    }

    /// Check the bus and the clock-chip state back in.
    pub fn release_rtc(&mut self, rtc: DS3231<B>)
        ensures
            final(self).spec_i2c_bus() == Some(rtc.spec_i2c()),
            final(self).spec_rtc() == Some(rtc.spec_state()),
            final(self).spec_humidity_sensor() == old(self).spec_humidity_sensor(),
    {
        let (bus, state) = rtc.release();
        self.i2c_bus = Some(bus);
        self.rtc = Some(state);
    }

    /// Check the bus and the sensor state out together. Fails fast, with
    /// nothing moved, when either is already out.
    pub fn claim_humidity_sensor(&mut self) -> (r: Result<BME280<B>, Error>)
        ensures
            r is Ok <==> old(self).parked_humidity(),
            r is Err ==> r == Err::<BME280<B>, Error>(Error::ResourceUnavailable) && *final(self)
                == *old(self),
            r matches Ok(d) ==> old(self).spec_i2c_bus() == Some(d.spec_i2c()) && old(
                self,
            ).spec_humidity_sensor() == Some(d.spec_state()) && final(self).spec_i2c_bus() is None
                && final(self).spec_humidity_sensor() is None && final(self).spec_rtc() == old(
                self,
            ).spec_rtc(),
    {
        if self.i2c_bus.is_none() || self.humidity_sensor.is_none() {
            return Err(Error::ResourceUnavailable);
        }
        let bus = self.i2c_bus.take().unwrap();
        let state = self.humidity_sensor.take().unwrap();
        Ok(BME280::new(bus, state))
    }

    /// Check the bus and the sensor state back in.
    pub fn release_humidity_sensor(&mut self, sensor: BME280<B>)
        ensures
            final(self).spec_i2c_bus() == Some(sensor.spec_i2c()),
            final(self).spec_humidity_sensor() == Some(sensor.spec_state()),
            final(self).spec_rtc() == old(self).spec_rtc(),
    {
        let (bus, state) = sensor.release();
        self.i2c_bus = Some(bus);
        self.humidity_sensor = Some(state);
    }

    /// Run one operation on the clock chip. The bus handle and the saved
    /// state are checked out together, combined into a transient driver,
    /// and parked again on every exit path; a reentrant or concurrent call
    /// finds a slot empty and fails with [`Error::ResourceUnavailable`]
    /// before any bus traffic.
    pub fn with_rtc<R, F: FnOnce(DS3231<B>) -> (DS3231<B>, R)>(&mut self, f: F) -> (r: Result<
        R,
        Error,
    >)
        requires
            forall|d: DS3231<B>| #[trigger] f.requires((d,)),
        ensures
            r is Ok <==> old(self).parked_rtc(),
            r is Err ==> r == Err::<R, Error>(Error::ResourceUnavailable) && *final(self) == *old(
                self,
            ),
            r is Ok ==> final(self).parked_rtc() && final(self).spec_humidity_sensor() == old(
                self,
            ).spec_humidity_sensor(),
            r matches Ok(res) ==> (old(self).spec_i2c_bus() matches Some(bus1)
                && old(self).spec_rtc() matches Some(st1) && final(self).spec_i2c_bus()
                matches Some(bus2) && final(self).spec_rtc() matches Some(st2) && f.ensures(
                (DS3231::spec_combine(bus1, st1),),
                (DS3231::spec_combine(bus2, st2), res),
            )),
    {
        let rtc = self.claim_rtc()?;
        let ghost din = rtc;
        let (rtc, result) = f(rtc);
        let ghost dout = rtc;
        self.release_rtc(rtc);
        proof {
            DS3231::lemma_combine(din);
            DS3231::lemma_combine(dout);
            assert(f.ensures((din,), (dout, result)));
        }
        Ok(result)
    }

    /// Run one operation on the environmental sensor; the same checkout
    /// protocol as [`Self::with_rtc`].
    pub fn with_humidity_sensor<R, F: FnOnce(BME280<B>) -> (BME280<B>, R)>(&mut self, f: F) -> (r:
        Result<R, Error>)
        requires
            forall|d: BME280<B>| #[trigger] f.requires((d,)),
        ensures
            r is Ok <==> old(self).parked_humidity(),
            r is Err ==> r == Err::<R, Error>(Error::ResourceUnavailable) && *final(self) == *old(
                self,
            ),
            r is Ok ==> final(self).parked_humidity() && final(self).spec_rtc() == old(
                self,
            ).spec_rtc(),
            r matches Ok(res) ==> (old(self).spec_i2c_bus() matches Some(bus1)
                && old(self).spec_humidity_sensor() matches Some(st1)
                && final(self).spec_i2c_bus() matches Some(bus2)
                && final(self).spec_humidity_sensor() matches Some(st2) && f.ensures(
                (BME280::spec_combine(bus1, st1),),
                (BME280::spec_combine(bus2, st2), res),
            )),
    {
        let sensor = self.claim_humidity_sensor()?;
        let ghost din = sensor;
        let (sensor, result) = f(sensor);
        let ghost dout = sensor;
        self.release_humidity_sensor(sensor);
        proof {
            BME280::lemma_combine(din);
            BME280::lemma_combine(dout);
            assert(f.ensures((din,), (dout, result)));
        }
        Ok(result)
    }
}

impl<B: I2cBus> LcdClockHardware<B> {
    /// Install the two devices' saved states at their product addresses
    /// and run each device's own initialization through the arbiter.
    pub fn init(&mut self) -> (r: Result<(), Error>)
        ensures
            old(self).spec_i2c_bus() is None ==> r == Err::<(), Error>(Error::ResourceUnavailable),
            r is Ok ==> final(self).parked_rtc() && final(self).parked_humidity(),
            r is Ok ==> (final(self).spec_humidity_sensor() matches Some(st)
                && st.spec_compensator() is Some),
    {
        self.install_rtc(DS3231State::new(DS3231_I2C_ADDR));
        self.install_humidity_sensor(BME280State::new(BME280_I2C_ADDR));
        let mut rtc = self.claim_rtc()?;
        let rtc_result = rtc.init();
        self.release_rtc(rtc);
        match rtc_result {
            Ok(()) => {},
            Err(e) => {
                return Err(Error::Rtc(e));
            },
        }
        let mut sensor = self.claim_humidity_sensor()?;
        let sensor_result = sensor.init();
        self.release_humidity_sensor(sensor);
        match sensor_result {
            Ok(()) => {},
            Err(e) => {
                return Err(Error::HumiditySensor(e));
            },
        }
        Ok(())
    }
}

} // verus!
