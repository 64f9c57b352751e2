//! The aggregate record and the measurements in it.
//!
//! A record is a shape for storage, not a place of validation: it takes any
//! device, any timestamp, any value and any text for a unit.

use crate::double::Double;
use crate::entities::measurement_map::MeasurementMap;
use crate::time::Timestamp;
use vstd::prelude::*;

verus! {

/// A measurement as a mathematical value: a number and the text of its unit.
pub struct Measurement {
    pub value: Double,
    pub unit: Seq<char>,
}

/// A value with the label of its unit, neither of them checked.
#[derive(Debug)]
pub struct SensorMeasurement {
    pub value: Double,
    pub unit: String,
}

impl View for SensorMeasurement {
    type V = Measurement;

    open spec fn view(&self) -> Measurement {
        Measurement { value: self.value, unit: self.unit@ }
    }
}

impl Clone for SensorMeasurement {
    fn clone(&self) -> (r: SensorMeasurement)
        ensures
            r@ == self@,
    {
        SensorMeasurement { value: self.value, unit: self.unit.clone() }
    }
}

/// A record as a mathematical value.
pub struct SensorDataView {
    pub device_id: Seq<char>,
    pub timestamp: Timestamp,
    pub temperature: Option<Measurement>,
    pub humidity: Option<Measurement>,
    pub co2: Option<Measurement>,
    pub additional_sensors: Map<Seq<char>, Measurement>,
}

/// What a slot of a record stands for.
pub open spec fn slot_view(slot: Option<SensorMeasurement>) -> Option<Measurement> {
    match slot {
        Some(measurement) => Some(measurement@),
        None => None,
    }
}

/// Everything one device reported at one moment: a slot each for temperature,
/// humidity and carbon dioxide, and any number of further sensors by name.
#[derive(Debug)]
pub struct SensorData {
    pub device_id: String,
    pub timestamp: Timestamp,
    pub temperature: Option<SensorMeasurement>,
    pub humidity: Option<SensorMeasurement>,
    pub co2: Option<SensorMeasurement>,
    pub additional_sensors: MeasurementMap,
}

impl View for SensorData {
    type V = SensorDataView;

    open spec fn view(&self) -> SensorDataView {
        SensorDataView {
            device_id: self.device_id@,
            timestamp: self.timestamp,
            temperature: slot_view(self.temperature),
            humidity: slot_view(self.humidity),
            co2: slot_view(self.co2),
            additional_sensors: self.additional_sensors@,
        }
    }
}

/// A copy of a slot.
fn clone_slot(slot: &Option<SensorMeasurement>) -> (r: Option<SensorMeasurement>)
    ensures
        slot_view(r) == slot_view(*slot),
{
    match slot {
        Some(measurement) => Some(measurement.clone()),
        None => None,
    }
}

impl Clone for SensorData {
    fn clone(&self) -> (r: SensorData)
        ensures
            r@ == self@,
    {
        SensorData {
            device_id: self.device_id.clone(),
            timestamp: self.timestamp,
            temperature: clone_slot(&self.temperature),
            humidity: clone_slot(&self.humidity),
            co2: clone_slot(&self.co2),
            additional_sensors: self.additional_sensors.clone(),
        }
    }
}

impl SensorData {
    /// A record of `device_id` at `timestamp` with every slot empty. Neither
    /// the device nor the timestamp is checked.
    pub fn new(device_id: String, timestamp: Timestamp) -> (r: SensorData)
        ensures
            r@ == (SensorDataView {
                device_id: device_id@,
                timestamp,
                temperature: None,
                humidity: None,
                co2: None,
                additional_sensors: Map::empty(),
            }),
    {
        SensorData {
            device_id,
            timestamp,
            temperature: None,
            humidity: None,
            co2: None,
            additional_sensors: MeasurementMap::new(),
        }
    }

    /// The record with its temperature slot set to `value` and `unit`, the
    /// unit kept letter for letter. Nothing else changes.
    pub fn with_temperature(self, value: Double, unit: &str) -> (r: SensorData)
        ensures
            r@ == (SensorDataView {
                temperature: Some(Measurement { value, unit: unit@ }),
                ..self@
            }),
    {
        let mut r = self;
        r.temperature = Some(SensorMeasurement { value, unit: unit.to_owned() });
        r
    }

    /// The record with its humidity slot set to `value` and `unit`, the unit
    /// kept letter for letter. Nothing else changes.
    pub fn with_humidity(self, value: Double, unit: &str) -> (r: SensorData)
        ensures
            r@ == (SensorDataView {
                humidity: Some(Measurement { value, unit: unit@ }),
                ..self@
            }),
    {
        let mut r = self;
        r.humidity = Some(SensorMeasurement { value, unit: unit.to_owned() });
        r
    }

    /// The record with its carbon dioxide slot set to `value` and `unit`, the
    /// unit kept letter for letter. Nothing else changes.
    pub fn with_co2(self, value: Double, unit: &str) -> (r: SensorData)
        ensures
            r@ == (SensorDataView { co2: Some(Measurement { value, unit: unit@ }), ..self@ }),
    {
        let mut r = self;
        r.co2 = Some(SensorMeasurement { value, unit: unit.to_owned() });
        r
    }

    /// The record with `value` and `unit` under the sensor called `name`. A
    /// measurement that stood under that name is replaced; nothing else
    /// changes.
    pub fn with_additional_sensor(self, name: &str, value: Double, unit: &str) -> (r: SensorData)
        ensures
            r@ == (SensorDataView {
                additional_sensors: self@.additional_sensors.insert(
                    name@,
                    Measurement { value, unit: unit@ },
                ),
                ..self@
            }),
    {
        let mut r = self;
        r.additional_sensors.insert(
            name.to_owned(),
            SensorMeasurement { value, unit: unit.to_owned() },
        );
        r
    }
}

/// Setting a slot twice leaves what was set last.
pub proof fn lemma_last_write_wins(
    sensors: Map<Seq<char>, Measurement>,
    name: Seq<char>,
    first: Measurement,
    second: Measurement,
)
    ensures
        sensors.insert(name, first).insert(name, second) == sensors.insert(name, second),
{
    assert(sensors.insert(name, first).insert(name, second) =~= sensors.insert(name, second));
}

} // verus!
