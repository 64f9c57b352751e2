//! The record that is stored: one device's measurements at one moment.

pub mod measurement_map;
pub mod sensor_data;

pub use measurement_map::MeasurementMap;
pub use sensor_data::{Measurement, SensorData, SensorDataView, SensorMeasurement};
