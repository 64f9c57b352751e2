//! One way to read any kind of validated reading.

use crate::double::Double;
use crate::sensors::co2::CO2Sensor;
use crate::sensors::humidity::HumiditySensor;
use crate::sensors::reading::Reading;
use crate::sensors::temperature::TemperatureSensor;
use crate::time::Timestamp;
use vstd::prelude::*;

verus! {

/// What all kinds of reading have in common. The unit is shown as text, so
/// that readings of different kinds can be handled alike.
pub trait Sensor {
    /// The reading with its unit as the text under which it is shown.
    spec fn shown(&self) -> Reading<Seq<char>>;

    /// The device that measured.
    fn device_id(&self) -> (r: &str)
        ensures
            r@ == self.shown().device_id,
    ;

    /// The moment of the measurement.
    fn timestamp(&self) -> (r: Timestamp)
        ensures
            r == self.shown().timestamp,
    ;

    /// The value measured.
    fn value(&self) -> (r: Double)
        ensures
            r == self.shown().value,
    ;

    /// The unit of the measurement, as text.
    fn unit(&self) -> (r: &str)
        ensures
            r@ == self.shown().unit,
    ;
}

impl Sensor for TemperatureSensor {
    open spec fn shown(&self) -> Reading<Seq<char>> {
        Reading {
            device_id: self@.device_id,
            timestamp: self@.timestamp,
            value: self@.value,
            unit: self@.unit.label(),
        }
    }

    fn device_id(&self) -> (r: &str) {
        TemperatureSensor::device_id(self)
    }

    fn timestamp(&self) -> (r: Timestamp) {
        TemperatureSensor::timestamp(self)
    }

    fn value(&self) -> (r: Double) {
        TemperatureSensor::value(self)
    }

    fn unit(&self) -> (r: &str) {
        TemperatureSensor::unit(self).as_str()
    }
}

impl Sensor for HumiditySensor {
    open spec fn shown(&self) -> Reading<Seq<char>> {
        Reading {
            device_id: self@.device_id,
            timestamp: self@.timestamp,
            value: self@.value,
            unit: self@.unit.label(),
        }
    }

    fn device_id(&self) -> (r: &str) {
        HumiditySensor::device_id(self)
    }

    fn timestamp(&self) -> (r: Timestamp) {
        HumiditySensor::timestamp(self)
    }

    fn value(&self) -> (r: Double) {
        HumiditySensor::value(self)
    }

    fn unit(&self) -> (r: &str) {
        HumiditySensor::unit(self).as_str()
    }
}

impl Sensor for CO2Sensor {
    open spec fn shown(&self) -> Reading<Seq<char>> {
        Reading {
            device_id: self@.device_id,
            timestamp: self@.timestamp,
            value: self@.value,
            unit: self@.unit.label(),
        }
    }

    fn device_id(&self) -> (r: &str) {
        CO2Sensor::device_id(self)
    }

    fn timestamp(&self) -> (r: Timestamp) {
        CO2Sensor::timestamp(self)
    }

    fn value(&self) -> (r: Double) {
        CO2Sensor::value(self)
    }

    fn unit(&self) -> (r: &str) {
        CO2Sensor::unit(self).as_str()
    }
}

} // verus!
