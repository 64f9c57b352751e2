//! Temperature readings and their units.

use crate::double::Double;
use crate::sensors::error::SensorValidationError;
use crate::sensors::reading::{is_outcome, outcome, possible_fault, validate, Reading};
use crate::text::{lowered, matches_lowered};
use crate::time::{current_time, Timestamp};
use vstd::prelude::*;

verus! {

/// The bit pattern of -50, the lowest temperature accepted.
pub const MIN_VALUE_BITS: u64 = 0xc049_0000_0000_0000;

/// The bit pattern of 150, the highest temperature accepted.
pub const MAX_VALUE_BITS: u64 = 0x4062_c000_0000_0000;

/// The lowest temperature accepted.
pub open spec fn min_value() -> Double {
    Double { bits: MIN_VALUE_BITS }
}

/// The highest temperature accepted.
pub open spec fn max_value() -> Double {
    Double { bits: MAX_VALUE_BITS }
}

/// The units in which a temperature is given.
#[derive(Debug, Clone, Copy, PartialEq, Eq, Structural)]
pub enum TemperatureUnit {
    Celsius,
    Fahrenheit,
}

impl TemperatureUnit {
    /// The name under which the unit is shown.
    pub open spec fn label(self) -> Seq<char> {
        match self {
            TemperatureUnit::Celsius => "Celsius"@,
            TemperatureUnit::Fahrenheit => "Fahrenheit"@,
        }
    }

    /// The unit that a text names, whatever the case of its letters: `celsius`
    /// or `c`, `fahrenheit` or `f`. Any other text names none.
    pub open spec fn parse(text: Seq<char>) -> Option<TemperatureUnit> {
        let word = lowered(text);
        if word == "celsius"@ || word == "c"@ {
            Some(TemperatureUnit::Celsius)
        } else if word == "fahrenheit"@ || word == "f"@ {
            Some(TemperatureUnit::Fahrenheit)
        } else {
            None
        }
    }

    /// The name under which the unit is shown.
    pub fn as_str(&self) -> (r: &'static str)
        ensures
            r@ == self.label(),
    {
        match self {
            TemperatureUnit::Celsius => "Celsius",
            TemperatureUnit::Fahrenheit => "Fahrenheit",
        }
    }
}

impl TryFrom<&str> for TemperatureUnit {
    type Error = SensorValidationError;

    /// Reads a unit from text. Text that names no unit comes back inside
    /// `InvalidUnit`, letter for letter.
    fn try_from(value: &str) -> (r: Result<TemperatureUnit, SensorValidationError>)
        ensures
            match TemperatureUnit::parse(value@) {
                Some(unit) => r == Ok::<TemperatureUnit, SensorValidationError>(unit),
                None => r matches Err(SensorValidationError::InvalidUnit(raw)) && raw@ == value@,
            },
    {
        if matches_lowered(value, "celsius") || matches_lowered(value, "c") {
            Ok(TemperatureUnit::Celsius)
        } else if matches_lowered(value, "fahrenheit") || matches_lowered(value, "f") {
            Ok(TemperatureUnit::Fahrenheit)
        } else {
            Err(SensorValidationError::InvalidUnit(value.to_owned()))
        }
    }
}

/// What `try_from` returns holds a freshly made `String` where it fails, which
/// no specification value can name: the exact statement stands in the
/// `ensures` of `try_from` itself, over `TemperatureUnit::parse`.
impl vstd::std_specs::convert::TryFromSpecImpl<&str> for TemperatureUnit {
    open spec fn obeys_try_from_spec() -> bool {
        false
    }

    open spec fn try_from_spec(value: &str) -> Result<TemperatureUnit, SensorValidationError> {
        match TemperatureUnit::parse(value@) {
            Some(unit) => Ok(unit),
            None => Err(arbitrary()),
        }
    }
}

/// A temperature reading that has passed every check.
#[derive(Debug)]
pub struct TemperatureSensor {
    device_id: String,
    timestamp: Timestamp,
    value: Double,
    unit: TemperatureUnit,
}

impl View for TemperatureSensor {
    type V = Reading<TemperatureUnit>;

    closed spec fn view(&self) -> Reading<TemperatureUnit> {
        Reading {
            device_id: self.device_id@,
            timestamp: self.timestamp,
            value: self.value,
            unit: self.unit,
        }
    }
}

impl Clone for TemperatureSensor {
    fn clone(&self) -> (r: TemperatureSensor)
        ensures
            r@ == self@,
    {
        proof {
            use_type_invariant(self);
        }
        TemperatureSensor {
            device_id: self.device_id.clone(),
            timestamp: self.timestamp,
            value: self.value,
            unit: self.unit,
        }
    }
}

impl PartialEq for TemperatureSensor {
    fn eq(&self, other: &TemperatureSensor) -> (r: bool) {
        self.device_id == other.device_id && self.timestamp == other.timestamp
            && self.value == other.value && self.unit == other.unit
    }
}

impl vstd::std_specs::cmp::PartialEqSpecImpl for TemperatureSensor {
    open spec fn obeys_eq_spec() -> bool {
        true
    }

    open spec fn eq_spec(&self, other: &TemperatureSensor) -> bool {
        self@.same_as(other@)
    }
}

impl TemperatureSensor {
    /// What holds of every temperature reading there is: its device is named
    /// and its value lies within the bounds.
    #[verifier::type_invariant]
    closed spec fn checked(&self) -> bool {
        self.device_id@.len() > 0 && self.value.within(min_value(), max_value())
    }

    /// Builds a reading, checked against the wall clock as it stands during
    /// the call. The result is the outcome at some moment `now`; which moment,
    /// the clock decides. What does not hang on the clock is stated apart: a
    /// reading is refused for its missing device exactly when it has none, a
    /// reading that is built holds what was supplied, within the bounds, and
    /// no fault is reported that the reading does not have.
    pub fn new(
        device_id: String,
        timestamp: Timestamp,
        value: Double,
        unit: TemperatureUnit,
    ) -> (r: Result<TemperatureSensor, SensorValidationError>)
        ensures
            exists|now: Timestamp|
                is_outcome(
                    r,
                    outcome(device_id@, timestamp, value, unit, now, min_value(), max_value()),
                ),
            device_id@.len() == 0 <==> r == Err::<TemperatureSensor, SensorValidationError>(
                SensorValidationError::EmptyDeviceId,
            ),
            r matches Ok(sensor) ==> sensor@ == (Reading {
                device_id: device_id@,
                timestamp,
                value,
                unit,
            }) && value.within(min_value(), max_value()),
            r matches Err(fault) ==> possible_fault(
                fault,
                device_id@,
                value,
                min_value(),
                max_value(),
            ),
    {
        let now = current_time();
        let r = TemperatureSensor::new_at(device_id, timestamp, value, unit, now);
        assert(is_outcome(
            r,
            outcome(device_id@, timestamp, value, unit, now, min_value(), max_value()),
        ));
        r
    }

    /// Builds a reading, checked as of the moment `now`.
    pub fn new_at(
        device_id: String,
        timestamp: Timestamp,
        value: Double,
        unit: TemperatureUnit,
        now: Timestamp,
    ) -> (r: Result<TemperatureSensor, SensorValidationError>)
        ensures
            is_outcome(
                r,
                outcome(device_id@, timestamp, value, unit, now, min_value(), max_value()),
            ),
    {
        let min = Double::from_bits(MIN_VALUE_BITS);
        let max = Double::from_bits(MAX_VALUE_BITS);
        match validate(device_id.as_str(), timestamp, now, value, min, max) {
            Err(fault) => Err(fault),
            Ok(()) => Ok(TemperatureSensor { device_id, timestamp, value, unit }),
        }
    }

    /// The device that measured; never the empty text.
    pub fn device_id(&self) -> (r: &str)
        ensures
            r@ == self@.device_id,
            r@.len() > 0,
    {
        proof {
            use_type_invariant(self);
        }
        self.device_id.as_str()
    }

    /// The moment of the measurement.
    pub fn timestamp(&self) -> (r: Timestamp)
        ensures
            r == self@.timestamp,
    {
        self.timestamp
    }

    /// The temperature measured; always within the bounds.
    pub fn value(&self) -> (r: Double)
        ensures
            r == self@.value,
            r.within(min_value(), max_value()),
    {
        proof {
            use_type_invariant(self);
        }
        self.value
    }

    /// The unit of the measurement.
    pub fn unit(&self) -> (r: TemperatureUnit)
        ensures
            r == self@.unit,
    {
        self.unit
    }
}

/// Two texts that differ only in the case of their ASCII letters name the same
/// unit, or both name none.
pub proof fn lemma_parse_ignores_case(a: Seq<char>, b: Seq<char>)
    requires
        lowered(a) == lowered(b),
    ensures
        TemperatureUnit::parse(a) == TemperatureUnit::parse(b),
{
}

/// In capitals as in small letters, in full as in short, the same unit is
/// named: `CELSIUS`, `celsius`, `C` and `c` are Celsius, `FAHRENHEIT`,
/// `fahrenheit`, `F` and `f` are Fahrenheit.
pub proof fn lemma_spellings_of_the_units()
    ensures
        TemperatureUnit::parse("CELSIUS"@) == Some(TemperatureUnit::Celsius),
        TemperatureUnit::parse("celsius"@) == Some(TemperatureUnit::Celsius),
        TemperatureUnit::parse("C"@) == Some(TemperatureUnit::Celsius),
        TemperatureUnit::parse("c"@) == Some(TemperatureUnit::Celsius),
        TemperatureUnit::parse("FAHRENHEIT"@) == Some(TemperatureUnit::Fahrenheit),
        TemperatureUnit::parse("fahrenheit"@) == Some(TemperatureUnit::Fahrenheit),
        TemperatureUnit::parse("F"@) == Some(TemperatureUnit::Fahrenheit),
        TemperatureUnit::parse("f"@) == Some(TemperatureUnit::Fahrenheit),
{
    reveal_strlit("CELSIUS");
    reveal_strlit("celsius");
    reveal_strlit("C");
    reveal_strlit("c");
    reveal_strlit("FAHRENHEIT");
    reveal_strlit("fahrenheit");
    reveal_strlit("F");
    reveal_strlit("f");
    assert(lowered("CELSIUS"@) =~= "celsius"@);
    assert(lowered("celsius"@) =~= "celsius"@);
    assert(lowered("C"@) =~= "c"@);
    assert(lowered("c"@) =~= "c"@);
    assert(lowered("FAHRENHEIT"@) =~= "fahrenheit"@);
    assert(lowered("fahrenheit"@) =~= "fahrenheit"@);
    assert(lowered("F"@) =~= "f"@);
    assert(lowered("f"@) =~= "f"@);
    assert("fahrenheit"@ != "celsius"@ && "fahrenheit"@ != "c"@) by {
        assert("fahrenheit"@.len() == 10);
    }
    assert("f"@ != "celsius"@ && "f"@ != "c"@) by {
        assert("f"@[0] != "c"@[0]);
    }
}

} // verus!
