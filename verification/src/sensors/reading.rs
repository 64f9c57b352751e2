//! What every kind of reading is, and the one rule by which all are checked.

use crate::double::Double;
use crate::sensors::error::SensorValidationError;
use crate::time::Timestamp;
use vstd::prelude::*;

verus! {

/// A reading as a mathematical value: which device measured, when, what, and
/// in which unit of the kind's vocabulary.
pub struct Reading<U> {
    pub device_id: Seq<char>,
    pub timestamp: Timestamp,
    pub value: Double,
    pub unit: U,
}

impl<U> Reading<U> {
    /// Whether two readings are equal field by field, the values compared as
    /// numbers.
    pub open spec fn same_as(self, other: Reading<U>) -> bool {
        &&& self.device_id == other.device_id
        &&& self.timestamp == other.timestamp
        &&& self.value.same_number(other.value)
        &&& self.unit == other.unit
    }
}

/// The first fault of a reading taken at `timestamp` and checked at `now`
/// against the bounds `min` and `max`, or `None` where it has none. The device
/// is looked at first, the timestamp second and the value last.
pub open spec fn first_fault(
    device_id: Seq<char>,
    timestamp: Timestamp,
    now: Timestamp,
    value: Double,
    min: Double,
    max: Double,
) -> Option<SensorValidationError> {
    if device_id.len() == 0 {
        Some(SensorValidationError::EmptyDeviceId)
    } else if timestamp.is_after(now) {
        Some(SensorValidationError::FutureTimestamp)
    } else if !value.within(min, max) {
        Some(SensorValidationError::ValueOutOfRange { value, min, max })
    } else {
        None
    }
}

/// What building a reading at the moment `now` gives, for a kind with the
/// bounds `min` and `max`: the reading exactly as supplied, or its first
/// fault.
pub open spec fn outcome<U>(
    device_id: Seq<char>,
    timestamp: Timestamp,
    value: Double,
    unit: U,
    now: Timestamp,
    min: Double,
    max: Double,
) -> Result<Reading<U>, SensorValidationError> {
    match first_fault(device_id, timestamp, now, value, min, max) {
        Some(fault) => Err(fault),
        None => Ok(Reading { device_id, timestamp, value, unit }),
    }
}

/// Whether `fault` is a fault that the reading has at some moment or other:
/// the missing device where there is none; else a timestamp of the future,
/// or the value out of range where it is.
pub open spec fn possible_fault(
    fault: SensorValidationError,
    device_id: Seq<char>,
    value: Double,
    min: Double,
    max: Double,
) -> bool {
    if device_id.len() == 0 {
        fault == SensorValidationError::EmptyDeviceId
    } else if value.within(min, max) {
        fault == SensorValidationError::FutureTimestamp
    } else {
        fault == SensorValidationError::FutureTimestamp || fault
            == (SensorValidationError::ValueOutOfRange { value, min, max })
    }
}

/// Whether a constructor's result `r` is the outcome `expected`: the same
/// fault, or a value object that stands for the same reading.
pub open spec fn is_outcome<S: View>(
    r: Result<S, SensorValidationError>,
    expected: Result<S::V, SensorValidationError>,
) -> bool {
    match expected {
        Ok(reading) => r is Ok && r->Ok_0@ == reading,
        Err(fault) => r == Err::<S, SensorValidationError>(fault),
    }
}

/// Checks a reading against the bounds `min` and `max` of its kind, as of
/// `now`, and reports its first fault.
pub fn validate(
    device_id: &str,
    timestamp: Timestamp,
    now: Timestamp,
    value: Double,
    min: Double,
    max: Double,
) -> (r: Result<(), SensorValidationError>)
    ensures
        r == match first_fault(device_id@, timestamp, now, value, min, max) {
            Some(fault) => Err::<(), SensorValidationError>(fault),
            None => Ok(()),
        },
{
    if device_id.is_empty() {
        return Err(SensorValidationError::EmptyDeviceId);
    }
    if timestamp.later_than(&now) {
        return Err(SensorValidationError::FutureTimestamp);
    }
    if !value.is_within(&min, &max) {
        return Err(SensorValidationError::ValueOutOfRange { value, min, max });
    }
    Ok(())
}

/// A reading from a named device, taken no later than now, with a value
/// within the bounds, both ends included, is built, and holds exactly the
/// device, the timestamp, the value and the unit that were supplied.
pub proof fn lemma_valid_reading_is_built<U>(
    device_id: Seq<char>,
    timestamp: Timestamp,
    value: Double,
    unit: U,
    now: Timestamp,
    min: Double,
    max: Double,
)
    requires
        device_id.len() > 0,
        !timestamp.is_after(now),
        min.le_spec(value),
        value.le_spec(max),
    ensures
        outcome(device_id, timestamp, value, unit, now, min, max) == Ok::<
            Reading<U>,
            SensorValidationError,
        >(Reading { device_id, timestamp, value, unit }),
{
}

/// A value below the lower bound or above the upper bound is refused as out
/// of range, and the fault carries the value and both bounds. So is a value
/// that is no number.
pub proof fn lemma_value_out_of_range_is_refused<U>(
    device_id: Seq<char>,
    timestamp: Timestamp,
    value: Double,
    unit: U,
    now: Timestamp,
    min: Double,
    max: Double,
)
    requires
        device_id.len() > 0,
        !timestamp.is_after(now),
        value.lt_spec(min) || max.lt_spec(value) || value.is_nan(),
    ensures
        outcome(device_id, timestamp, value, unit, now, min, max) == Err::<
            Reading<U>,
            SensorValidationError,
        >(SensorValidationError::ValueOutOfRange { value, min, max }),
{
}

/// A reading without a device is refused for that, whatever its timestamp, its
/// value and its unit are: the device is checked before anything else.
pub proof fn lemma_empty_device_is_refused_first<U>(
    timestamp: Timestamp,
    value: Double,
    unit: U,
    now: Timestamp,
    min: Double,
    max: Double,
)
    ensures
        outcome(Seq::<char>::empty(), timestamp, value, unit, now, min, max) == Err::<
            Reading<U>,
            SensorValidationError,
        >(SensorValidationError::EmptyDeviceId),
{
}

/// A reading from a named device whose timestamp lies strictly after now is
/// refused as being of the future, whatever its value is.
pub proof fn lemma_future_timestamp_is_refused<U>(
    device_id: Seq<char>,
    timestamp: Timestamp,
    value: Double,
    unit: U,
    now: Timestamp,
    min: Double,
    max: Double,
)
    requires
        device_id.len() > 0,
        timestamp.is_after(now),
    ensures
        outcome(device_id, timestamp, value, unit, now, min, max) == Err::<
            Reading<U>,
            SensorValidationError,
        >(SensorValidationError::FutureTimestamp),
{
}

/// A reading that was built would be built again at any later moment: time
/// passing never turns a valid reading into a faulty one.
pub proof fn lemma_built_stays_built<U>(
    device_id: Seq<char>,
    timestamp: Timestamp,
    value: Double,
    unit: U,
    now: Timestamp,
    later: Timestamp,
    min: Double,
    max: Double,
)
    requires
        outcome(device_id, timestamp, value, unit, now, min, max) is Ok,
        !now.is_after(later),
    ensures
        outcome(device_id, timestamp, value, unit, later, min, max) == outcome(
            device_id,
            timestamp,
            value,
            unit,
            now,
            min,
            max,
        ),
{
}

} // verus!
