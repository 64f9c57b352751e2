use chrono::Utc;
use sensor_domain::double::Double;
use sensor_domain::sensors::error::SensorValidationError;
use sensor_domain::sensors::humidity::{HumiditySensor, HumidityUnit, MAX_VALUE_BITS, MIN_VALUE_BITS};
use sensor_domain::time::Timestamp;

fn number(x: f64) -> Double {
    Double::from_bits(x.to_bits())
}

fn float(x: Double) -> f64 {
    f64::from_bits(x.to_bits())
}

fn stamp(t: chrono::DateTime<Utc>) -> Timestamp {
    Timestamp::new(t.timestamp(), t.timestamp_subsec_nanos())
}

#[test]
fn humidity_success_with_valid_data() {
    let result = HumiditySensor::new("device-001".to_string(), stamp(Utc::now()), number(50.0), HumidityUnit::Percent);

    assert!(result.is_ok());
    let sensor = result.unwrap();
    assert_eq!(sensor.device_id(), "device-001");
    assert_eq!(float(sensor.value()), 50.0);
    assert_eq!(sensor.unit(), HumidityUnit::Percent);
}

#[test]
fn humidity_fails_with_empty_device_id() {
    let result = HumiditySensor::new("".to_string(), stamp(Utc::now()), number(50.0), HumidityUnit::Percent);

    assert_eq!(result, Err(SensorValidationError::EmptyDeviceId));
}

#[test]
fn humidity_fails_with_future_timestamp() {
    let future = Utc::now() + chrono::Duration::hours(1);

    let result = HumiditySensor::new("device-001".to_string(), stamp(future), number(50.0), HumidityUnit::Percent);

    assert_eq!(result, Err(SensorValidationError::FutureTimestamp));
}

#[test]
fn humidity_fails_with_value_below_min() {
    let result = HumiditySensor::new("device-001".to_string(), stamp(Utc::now()), number(-1.0), HumidityUnit::Percent);

    assert!(matches!(
        result,
        Err(SensorValidationError::ValueOutOfRange { .. })
    ));
}

#[test]
fn humidity_fails_with_value_above_max() {
    let result = HumiditySensor::new("device-001".to_string(), stamp(Utc::now()), number(101.0), HumidityUnit::Percent);

    assert!(matches!(
        result,
        Err(SensorValidationError::ValueOutOfRange { .. })
    ));
}

#[test]
fn humidity_success_with_min_boundary_value() {
    let result = HumiditySensor::new("device-001".to_string(), stamp(Utc::now()), number(0.0), HumidityUnit::Percent);

    assert!(result.is_ok());
}

#[test]
fn humidity_success_with_max_boundary_value() {
    let result = HumiditySensor::new("device-001".to_string(), stamp(Utc::now()), number(100.0), HumidityUnit::Percent);

    assert!(result.is_ok());
}

#[test]
fn as_str_returns_percent() {
    assert_eq!(HumidityUnit::Percent.as_str(), "Percent");
}

#[test]
fn try_from_lowercase_percent() {
    assert_eq!(HumidityUnit::try_from("percent"), Ok(HumidityUnit::Percent));
}

#[test]
fn try_from_percent_symbol() {
    assert_eq!(HumidityUnit::try_from("%"), Ok(HumidityUnit::Percent));
}

#[test]
fn humidity_every_alias_in_every_case() {
    for text in ["percent", "PERCENT", "Percent", "pErCeNt", "%"] {
        assert_eq!(HumidityUnit::try_from(text), Ok(HumidityUnit::Percent));
    }
}

#[test]
fn humidity_try_from_invalid_unit() {
    let result = HumidityUnit::try_from("invalid");

    assert!(matches!(result, Err(SensorValidationError::InvalidUnit(_))));
}

#[test]
fn humidity_bounds_are_as_documented() {
    assert_eq!(f64::from_bits(MIN_VALUE_BITS), 0.0);
    assert_eq!(f64::from_bits(MAX_VALUE_BITS), 100.0);
}

#[test]
fn humidity_invalid_unit_carries_the_text_as_given() {
    for text in ["invalid", "", " ", "celsius", "c", "pp", "ppmm", "percent ", "%%", "per cent", "ppm", "\u{130}", "p\u{440}m"] {
        assert_eq!(
            HumidityUnit::try_from(text),
            Err(SensorValidationError::InvalidUnit(text.to_string()))
        );
    }
}

#[test]
fn humidity_round_trips_what_was_supplied() {
    let now = Timestamp::new(1_700_000_000, 250);
    let taken = Timestamp::new(1_700_000_000, 250);
    for value in [0.0, -0.0, 5.0e-324, 0.25, 50.0, 100.0] {
        let sensor =
            HumiditySensor::new_at("device-7".to_string(), taken, number(value), HumidityUnit::Percent, now).unwrap();
        assert_eq!(sensor.device_id(), "device-7");
        assert_eq!(sensor.timestamp(), taken);
        assert_eq!(sensor.value().to_bits(), value.to_bits());
        assert_eq!(sensor.unit(), HumidityUnit::Percent);
    }
}

#[test]
fn humidity_outside_the_bounds_is_refused_with_the_bounds() {
    let now = Timestamp::new(1_700_000_000, 0);
    for value in [-5.0e-324, -1.0, f64::NEG_INFINITY, 101.0, 100.0 + 1.0e-9, f64::INFINITY, f64::NAN] {
        let result = HumiditySensor::new_at("device-7".to_string(), now, number(value), HumidityUnit::Percent, now);
        match result {
            Err(SensorValidationError::ValueOutOfRange { value: got, min, max }) => {
                assert_eq!(got.to_bits(), value.to_bits());
                assert_eq!(float(min), 0.0);
                assert_eq!(float(max), 100.0);
            }
            other => panic!("expected a value out of range, got {:?}", other),
        }
    }
}

#[test]
fn humidity_checks_device_then_timestamp_then_value() {
    let now = Timestamp::new(1_700_000_000, 0);
    let future = Timestamp::new(1_700_000_000, 1);
    assert_eq!(
        HumiditySensor::new_at("".to_string(), future, number(-7.0), HumidityUnit::Percent, now),
        Err(SensorValidationError::EmptyDeviceId)
    );
    assert_eq!(
        HumiditySensor::new_at("d".to_string(), future, number(-7.0), HumidityUnit::Percent, now),
        Err(SensorValidationError::FutureTimestamp)
    );
    assert_eq!(
        HumiditySensor::new_at("d".to_string(), future, number(50.0), HumidityUnit::Percent, now),
        Err(SensorValidationError::FutureTimestamp)
    );
}
