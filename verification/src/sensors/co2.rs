//! Readings of carbon dioxide concentration and their unit.

use crate::double::Double;
use crate::sensors::error::SensorValidationError;
use crate::sensors::reading::{is_outcome, outcome, possible_fault, validate, Reading};
use crate::text::{lowered, matches_lowered};
use crate::time::{current_time, Timestamp};
use vstd::prelude::*;

verus! {

/// The bit pattern of 0, the lowest concentration accepted.
pub const MIN_VALUE_BITS: u64 = 0;

/// The bit pattern of 50000, the highest concentration accepted.
pub const MAX_VALUE_BITS: u64 = 0x40e8_6a00_0000_0000;

/// The lowest concentration accepted.
pub open spec fn min_value() -> Double {
    Double { bits: MIN_VALUE_BITS }
}

/// The highest concentration accepted.
pub open spec fn max_value() -> Double {
    Double { bits: MAX_VALUE_BITS }
}

/// The units in which a concentration of carbon dioxide is given.
#[derive(Debug, Clone, Copy, PartialEq, Eq, Structural)]
pub enum CO2Unit {
    Ppm,
}

impl CO2Unit {
    /// The name under which the unit is shown.
    pub open spec fn label(self) -> Seq<char> {
        match self {
            CO2Unit::Ppm => "ppm"@,
        }
    }

    /// The unit that a text names, whatever the case of its letters: `ppm`.
    /// Any other text names none.
    pub open spec fn parse(text: Seq<char>) -> Option<CO2Unit> {
        if lowered(text) == "ppm"@ {
            Some(CO2Unit::Ppm)
        } else {
            None
        }
    }

    /// The name under which the unit is shown.
    pub fn as_str(&self) -> (r: &'static str)
        ensures
            r@ == self.label(),
    {
        match self {
            CO2Unit::Ppm => "ppm",
        }
    }
}

impl TryFrom<&str> for CO2Unit {
    type Error = SensorValidationError;

    /// Reads a unit from text. Text that names no unit comes back inside
    /// `InvalidUnit`, letter for letter.
    fn try_from(value: &str) -> (r: Result<CO2Unit, SensorValidationError>)
        ensures
            match CO2Unit::parse(value@) {
                Some(unit) => r == Ok::<CO2Unit, SensorValidationError>(unit),
                None => r matches Err(SensorValidationError::InvalidUnit(raw)) && raw@ == value@,
            },
    {
        if matches_lowered(value, "ppm") {
            Ok(CO2Unit::Ppm)
        } else {
            Err(SensorValidationError::InvalidUnit(value.to_owned()))
        }
    }
}

/// What `try_from` returns holds a freshly made `String` where it fails, which
/// no specification value can name: the exact statement stands in the
/// `ensures` of `try_from` itself, over `CO2Unit::parse`.
impl vstd::std_specs::convert::TryFromSpecImpl<&str> for CO2Unit {
    open spec fn obeys_try_from_spec() -> bool {
        false
    }

    open spec fn try_from_spec(value: &str) -> Result<CO2Unit, SensorValidationError> {
        match CO2Unit::parse(value@) {
            Some(unit) => Ok(unit),
            None => Err(arbitrary()),
        }
    }
}

/// A carbon dioxide reading that has passed every check.
#[derive(Debug)]
pub struct CO2Sensor {
    device_id: String,
    timestamp: Timestamp,
    value: Double,
    unit: CO2Unit,
}

impl View for CO2Sensor {
    type V = Reading<CO2Unit>;

    closed spec fn view(&self) -> Reading<CO2Unit> {
        Reading {
            device_id: self.device_id@,
            timestamp: self.timestamp,
            value: self.value,
            unit: self.unit,
        }
    }
}

impl Clone for CO2Sensor {
    fn clone(&self) -> (r: CO2Sensor)
        ensures
            r@ == self@,
    {
        proof {
            use_type_invariant(self);
        }
        CO2Sensor {
            device_id: self.device_id.clone(),
            timestamp: self.timestamp,
            value: self.value,
            unit: self.unit,
        }
    }
}

impl PartialEq for CO2Sensor {
    fn eq(&self, other: &CO2Sensor) -> (r: bool) {
        self.device_id == other.device_id && self.timestamp == other.timestamp
            && self.value == other.value && self.unit == other.unit
    }
}

impl vstd::std_specs::cmp::PartialEqSpecImpl for CO2Sensor {
    open spec fn obeys_eq_spec() -> bool {
        true
    }

    open spec fn eq_spec(&self, other: &CO2Sensor) -> bool {
        self@.same_as(other@)
    }
}

impl CO2Sensor {
    /// What holds of every carbon dioxide reading there is: its device is
    /// named and its value lies within the bounds.
    #[verifier::type_invariant]
    closed spec fn checked(&self) -> bool {
        self.device_id@.len() > 0 && self.value.within(min_value(), max_value())
    }

    /// Builds a reading, checked against the wall clock as it stands during
    /// the call. The result is the outcome at some moment `now`; which moment,
    /// the clock decides. What does not hang on the clock is stated apart: a
    /// reading is refused for its missing device exactly when it has none, a
    /// reading that is built holds what was supplied, within the bounds, and
    /// no fault is reported that the reading does not have.
    pub fn new(
        device_id: String,
        timestamp: Timestamp,
        value: Double,
        unit: CO2Unit,
    ) -> (r: Result<CO2Sensor, SensorValidationError>)
        ensures
            exists|now: Timestamp|
                is_outcome(
                    r,
                    outcome(device_id@, timestamp, value, unit, now, min_value(), max_value()),
                ),
            device_id@.len() == 0 <==> r == Err::<CO2Sensor, SensorValidationError>(
                SensorValidationError::EmptyDeviceId,
            ),
            r matches Ok(sensor) ==> sensor@ == (Reading {
                device_id: device_id@,
                timestamp,
                value,
                unit,
            }) && value.within(min_value(), max_value()),
            r matches Err(fault) ==> possible_fault(
                fault,
                device_id@,
                value,
                min_value(),
                max_value(),
            ),
    {
        let now = current_time();
        let r = CO2Sensor::new_at(device_id, timestamp, value, unit, now);
        assert(is_outcome(
            r,
            outcome(device_id@, timestamp, value, unit, now, min_value(), max_value()),
        ));
        r
    }

    /// Builds a reading, checked as of the moment `now`.
    pub fn new_at(
        device_id: String,
        timestamp: Timestamp,
        value: Double,
        unit: CO2Unit,
        now: Timestamp,
    ) -> (r: Result<CO2Sensor, SensorValidationError>)
        ensures
            is_outcome(
                r,
                outcome(device_id@, timestamp, value, unit, now, min_value(), max_value()),
            ),
    {
        let min = Double::from_bits(MIN_VALUE_BITS);
        let max = Double::from_bits(MAX_VALUE_BITS);
        match validate(device_id.as_str(), timestamp, now, value, min, max) {
            Err(fault) => Err(fault),
            Ok(()) => Ok(CO2Sensor { device_id, timestamp, value, unit }),
        }
    }

    /// The device that measured; never the empty text.
    pub fn device_id(&self) -> (r: &str)
        ensures
            r@ == self@.device_id,
            r@.len() > 0,
    {
        proof {
            use_type_invariant(self);
        }
        self.device_id.as_str()
    }

    /// The moment of the measurement.
    pub fn timestamp(&self) -> (r: Timestamp)
        ensures
            r == self@.timestamp,
    {
        self.timestamp
    }

    /// The concentration measured; always within the bounds.
    pub fn value(&self) -> (r: Double)
        ensures
            r == self@.value,
            r.within(min_value(), max_value()),
    {
        proof {
            use_type_invariant(self);
        }
        self.value
    }

    /// The unit of the measurement.
    pub fn unit(&self) -> (r: CO2Unit)
        ensures
            r == self@.unit,
    {
        self.unit
    }
}

/// Two texts that differ only in the case of their ASCII letters name the same
/// unit, or both name none.
pub proof fn lemma_parse_ignores_case(a: Seq<char>, b: Seq<char>)
    requires
        lowered(a) == lowered(b),
    ensures
        CO2Unit::parse(a) == CO2Unit::parse(b),
{
}

/// In capitals as in small letters the same unit is named: `PPM`, `Ppm` and
/// `ppm` are all Ppm.
pub proof fn lemma_spellings_of_the_unit()
    ensures
        CO2Unit::parse("PPM"@) == Some(CO2Unit::Ppm),
        CO2Unit::parse("Ppm"@) == Some(CO2Unit::Ppm),
        CO2Unit::parse("ppm"@) == Some(CO2Unit::Ppm),
{
    reveal_strlit("PPM");
    reveal_strlit("Ppm");
    reveal_strlit("ppm");
    assert(lowered("PPM"@) =~= "ppm"@);
    assert(lowered("Ppm"@) =~= "ppm"@);
    assert(lowered("ppm"@) =~= "ppm"@);
}

} // verus!
