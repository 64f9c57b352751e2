//! The sensor kinds, their units and the rules a reading must meet.

pub mod co2;
pub mod error;
pub mod humidity;
pub mod reading;
pub mod sensor;
pub mod temperature;
