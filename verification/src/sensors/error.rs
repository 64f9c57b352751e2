//! Why a reading or a unit was turned down.

use crate::double::Double;
use vstd::prelude::*;

verus! {

/// The reasons for which a reading or a unit is rejected.
#[derive(Debug)]
pub enum SensorValidationError {
    /// The device identifier is the empty text.
    EmptyDeviceId,
    /// The timestamp lies after the moment of construction.
    FutureTimestamp,
    /// The value lies outside the bounds of its kind.
    ValueOutOfRange { value: Double, min: Double, max: Double },
    /// The text names no unit of the kind.
    InvalidUnit(String),
}

impl SensorValidationError {
    /// Whether two faults are the same: of one variant, and with the same
    /// numbers or the same text in it. A value that is no number makes a fault
    /// differ from every fault, itself included.
    pub open spec fn same_fault(self, other: SensorValidationError) -> bool {
        match (self, other) {
            (SensorValidationError::EmptyDeviceId, SensorValidationError::EmptyDeviceId) => true,
            (SensorValidationError::FutureTimestamp, SensorValidationError::FutureTimestamp) => true,
            (
                SensorValidationError::ValueOutOfRange { value, min, max },
                SensorValidationError::ValueOutOfRange {
                    value: other_value,
                    min: other_min,
                    max: other_max,
                },
            ) => value.same_number(other_value) && min.same_number(other_min) && max.same_number(
                other_max,
            ),
            (SensorValidationError::InvalidUnit(raw), SensorValidationError::InvalidUnit(other_raw)) => raw@
                == other_raw@,
            _ => false,
        }
    }
}

impl Clone for SensorValidationError {
    fn clone(&self) -> (r: SensorValidationError)
        ensures
            r == *self,
    {
        match self {
            SensorValidationError::EmptyDeviceId => SensorValidationError::EmptyDeviceId,
            SensorValidationError::FutureTimestamp => SensorValidationError::FutureTimestamp,
            SensorValidationError::ValueOutOfRange { value, min, max } => {
                SensorValidationError::ValueOutOfRange { value: *value, min: *min, max: *max }
            },
            SensorValidationError::InvalidUnit(raw) => SensorValidationError::InvalidUnit(
                raw.clone(),
            ),
        }
    }
}

impl PartialEq for SensorValidationError {
    fn eq(&self, other: &SensorValidationError) -> (r: bool) {
        match (self, other) {
            (SensorValidationError::EmptyDeviceId, SensorValidationError::EmptyDeviceId) => true,
            (SensorValidationError::FutureTimestamp, SensorValidationError::FutureTimestamp) => true,
            (
                SensorValidationError::ValueOutOfRange { value, min, max },
                SensorValidationError::ValueOutOfRange {
                    value: other_value,
                    min: other_min,
                    max: other_max,
                },
            ) => *value == *other_value && *min == *other_min && *max == *other_max,
            (SensorValidationError::InvalidUnit(raw), SensorValidationError::InvalidUnit(other_raw)) => *raw
                == *other_raw,
            _ => false,
        }
    }
}

impl vstd::std_specs::cmp::PartialEqSpecImpl for SensorValidationError {
    open spec fn obeys_eq_spec() -> bool {
        true
    }

    open spec fn eq_spec(&self, other: &SensorValidationError) -> bool {
        self.same_fault(*other)
    }
}

} // verus!
