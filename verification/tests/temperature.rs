use chrono::Utc;
use sensor_domain::double::Double;
use sensor_domain::sensors::error::SensorValidationError;
use sensor_domain::sensors::temperature::{
    TemperatureSensor, TemperatureUnit, MAX_VALUE_BITS, MIN_VALUE_BITS,
};
use sensor_domain::time::Timestamp;

fn number(x: f64) -> Double {
    Double::from_bits(x.to_bits())
}

fn float(x: Double) -> f64 {
    f64::from_bits(x.to_bits())
}

fn stamp(t: chrono::DateTime<Utc>) -> Timestamp {
    Timestamp::new(t.timestamp(), t.timestamp_subsec_nanos())
}

#[test]
fn temperature_success_with_valid_data() {
    let result = TemperatureSensor::new(
        "device-001".to_string(),
        stamp(Utc::now()),
        number(25.0),
        TemperatureUnit::Celsius,
    );

    assert!(result.is_ok());
    let sensor = result.unwrap();
    assert_eq!(sensor.device_id(), "device-001");
    assert_eq!(float(sensor.value()), 25.0);
    assert_eq!(sensor.unit(), TemperatureUnit::Celsius);
}

#[test]
fn temperature_fails_with_empty_device_id() {
    let result = TemperatureSensor::new(
        "".to_string(),
        stamp(Utc::now()),
        number(25.0),
        TemperatureUnit::Celsius,
    );

    assert_eq!(result, Err(SensorValidationError::EmptyDeviceId));
}

#[test]
fn temperature_fails_with_future_timestamp() {
    let future = Utc::now() + chrono::Duration::hours(1);

    let result = TemperatureSensor::new(
        "device-001".to_string(),
        stamp(future),
        number(25.0),
        TemperatureUnit::Celsius,
    );

    assert_eq!(result, Err(SensorValidationError::FutureTimestamp));
}

#[test]
fn temperature_fails_with_value_below_min() {
    let result = TemperatureSensor::new(
        "device-001".to_string(),
        stamp(Utc::now()),
        number(-60.0),
        TemperatureUnit::Celsius,
    );

    assert!(matches!(
        result,
        Err(SensorValidationError::ValueOutOfRange { .. })
    ));
}

#[test]
fn temperature_fails_with_value_above_max() {
    let result = TemperatureSensor::new(
        "device-001".to_string(),
        stamp(Utc::now()),
        number(160.0),
        TemperatureUnit::Celsius,
    );

    assert!(matches!(
        result,
        Err(SensorValidationError::ValueOutOfRange { .. })
    ));
}

#[test]
fn temperature_success_with_min_boundary_value() {
    let result = TemperatureSensor::new(
        "device-001".to_string(),
        stamp(Utc::now()),
        number(-50.0),
        TemperatureUnit::Celsius,
    );

    assert!(result.is_ok());
}

#[test]
fn temperature_success_with_max_boundary_value() {
    let result = TemperatureSensor::new(
        "device-001".to_string(),
        stamp(Utc::now()),
        number(150.0),
        TemperatureUnit::Celsius,
    );

    assert!(result.is_ok());
}

#[test]
fn success_with_fahrenheit_unit() {
    let result = TemperatureSensor::new(
        "device-001".to_string(),
        stamp(Utc::now()),
        number(77.0),
        TemperatureUnit::Fahrenheit,
    );

    assert!(result.is_ok());
    let sensor = result.unwrap();
    assert_eq!(sensor.unit(), TemperatureUnit::Fahrenheit);
}

#[test]
fn as_str_returns_celsius() {
    assert_eq!(TemperatureUnit::Celsius.as_str(), "Celsius");
}

#[test]
fn as_str_returns_fahrenheit() {
    assert_eq!(TemperatureUnit::Fahrenheit.as_str(), "Fahrenheit");
}

#[test]
fn try_from_lowercase_celsius() {
    assert_eq!(
        TemperatureUnit::try_from("celsius"),
        Ok(TemperatureUnit::Celsius)
    );
}

#[test]
fn try_from_short_celsius() {
    assert_eq!(TemperatureUnit::try_from("C"), Ok(TemperatureUnit::Celsius));
}

#[test]
fn try_from_lowercase_fahrenheit() {
    assert_eq!(
        TemperatureUnit::try_from("fahrenheit"),
        Ok(TemperatureUnit::Fahrenheit)
    );
}

#[test]
fn try_from_short_fahrenheit() {
    assert_eq!(
        TemperatureUnit::try_from("F"),
        Ok(TemperatureUnit::Fahrenheit)
    );
}

#[test]
fn temperature_try_from_invalid_unit() {
    let result = TemperatureUnit::try_from("invalid");

    assert!(matches!(result, Err(SensorValidationError::InvalidUnit(_))));
}

#[test]
fn temperature_bounds_are_minus_fifty_and_one_hundred_fifty() {
    assert_eq!(f64::from_bits(MIN_VALUE_BITS), -50.0);
    assert_eq!(f64::from_bits(MAX_VALUE_BITS), 150.0);
}

#[test]
fn temperature_every_alias_in_every_case() {
    for text in ["CELSIUS", "celsius", "Celsius", "cElSiUs", "C", "c"] {
        assert_eq!(TemperatureUnit::try_from(text), Ok(TemperatureUnit::Celsius));
    }
    for text in ["FAHRENHEIT", "fahrenheit", "Fahrenheit", "F", "f"] {
        assert_eq!(
            TemperatureUnit::try_from(text),
            Ok(TemperatureUnit::Fahrenheit)
        );
    }
}

#[test]
fn temperature_invalid_unit_carries_the_text_as_given() {
    for text in [
        "invalid", "", " c", "c ", "cc", "kelvin", "K", "celsiu", "celsiuss", "Celsius!",
        "cel\u{17f}ius", "\u{212a}", "fahrenhe\u{130}t", "\u{441}", "%", "ppm",
    ] {
        assert_eq!(
            TemperatureUnit::try_from(text),
            Err(SensorValidationError::InvalidUnit(text.to_string()))
        );
    }
}

#[test]
fn temperature_parsing_agrees_with_full_lowercasing() {
    let samples = [
        "celsius", "CELSIUS", "c", "C", "f", "F", "fahrenheit", "FAHRENHEIT", "x", "",
        "cel\u{17f}ius", "\u{212a}", "\u{130}", "\u{c7}", "Celsius ", "\u{ff23}",
    ];
    for text in samples {
        let lowered = text.to_lowercase();
        let expected = match lowered.as_str() {
            "celsius" | "c" => Some(TemperatureUnit::Celsius),
            "fahrenheit" | "f" => Some(TemperatureUnit::Fahrenheit),
            _ => None,
        };
        assert_eq!(TemperatureUnit::try_from(text).ok(), expected);
    }
}

#[test]
fn temperature_scenario_accepts_twenty_five_and_refuses_minus_sixty() {
    let now = stamp(Utc::now());
    let accepted = TemperatureSensor::new(
        "device-1".to_string(),
        now,
        number(25.0),
        TemperatureUnit::Celsius,
    );
    assert!(accepted.is_ok());

    let refused = TemperatureSensor::new(
        "device-1".to_string(),
        now,
        number(-60.0),
        TemperatureUnit::Celsius,
    );
    match refused {
        Err(SensorValidationError::ValueOutOfRange { value, min, max }) => {
            assert_eq!(float(value), -60.0);
            assert_eq!(float(min), -50.0);
            assert_eq!(float(max), 150.0);
        }
        other => panic!("expected a value out of range, got {:?}", other),
    }
}

#[test]
fn temperature_round_trips_what_was_supplied() {
    let now = Timestamp::new(1_700_000_000, 250);
    let taken = Timestamp::new(1_699_999_999, 999_999_999);
    for value in [-50.0, -49.999, -0.0, 0.0, 1.5e-300, 22.5, 149.999_999, 150.0] {
        for unit in [TemperatureUnit::Celsius, TemperatureUnit::Fahrenheit] {
            let sensor =
                TemperatureSensor::new_at("device-7".to_string(), taken, number(value), unit, now)
                    .unwrap();
            assert_eq!(sensor.device_id(), "device-7");
            assert_eq!(sensor.timestamp(), taken);
            assert_eq!(sensor.value().to_bits(), value.to_bits());
            assert_eq!(sensor.unit(), unit);
        }
    }
}

#[test]
fn temperature_outside_the_bounds_is_refused_with_the_bounds() {
    let now = Timestamp::new(1_700_000_000, 0);
    for value in [
        -50.000_000_000_001,
        -60.0,
        -1.0e300,
        f64::NEG_INFINITY,
        150.000_000_000_001,
        160.0,
        1.0e300,
        f64::INFINITY,
        f64::NAN,
    ] {
        let result = TemperatureSensor::new_at(
            "device-7".to_string(),
            now,
            number(value),
            TemperatureUnit::Celsius,
            now,
        );
        match result {
            Err(SensorValidationError::ValueOutOfRange { value: got, min, max }) => {
                assert_eq!(got.to_bits(), value.to_bits());
                assert_eq!(float(min), -50.0);
                assert_eq!(float(max), 150.0);
            }
            other => panic!("expected a value out of range, got {:?}", other),
        }
    }
}

#[test]
fn temperature_timestamp_is_refused_only_when_strictly_later() {
    let now = Timestamp::new(1_700_000_000, 500);
    let build = |taken: Timestamp| {
        TemperatureSensor::new_at(
            "device-7".to_string(),
            taken,
            number(25.0),
            TemperatureUnit::Celsius,
            now,
        )
    };
    assert!(build(now).is_ok());
    assert!(build(Timestamp::new(1_700_000_000, 499)).is_ok());
    assert!(build(Timestamp::new(1_699_999_999, 999_999_999)).is_ok());
    assert!(build(Timestamp::new(-5, 0)).is_ok());
    assert_eq!(
        build(Timestamp::new(1_700_000_000, 501)),
        Err(SensorValidationError::FutureTimestamp)
    );
    assert_eq!(
        build(Timestamp::new(1_700_000_001, 0)),
        Err(SensorValidationError::FutureTimestamp)
    );
    assert_eq!(
        build(Timestamp::new(1_700_003_600, 500)),
        Err(SensorValidationError::FutureTimestamp)
    );
}

#[test]
fn temperature_checks_device_then_timestamp_then_value() {
    let now = Timestamp::new(1_700_000_000, 0);
    let future = Timestamp::new(1_700_003_600, 0);
    let unit = TemperatureUnit::Fahrenheit;
    assert_eq!(
        TemperatureSensor::new_at("".to_string(), future, number(999.0), unit, now),
        Err(SensorValidationError::EmptyDeviceId)
    );
    assert_eq!(
        TemperatureSensor::new_at("".to_string(), now, number(25.0), unit, now),
        Err(SensorValidationError::EmptyDeviceId)
    );
    assert_eq!(
        TemperatureSensor::new_at("d".to_string(), future, number(999.0), unit, now),
        Err(SensorValidationError::FutureTimestamp)
    );
    assert_eq!(
        TemperatureSensor::new(
            "".to_string(),
            stamp(Utc::now() + chrono::Duration::hours(1)),
            number(999.0),
            unit
        ),
        Err(SensorValidationError::EmptyDeviceId)
    );
}

#[test]
fn temperature_equality_is_field_by_field() {
    let now = Timestamp::new(1_700_000_000, 0);
    let build = |id: &str, taken: Timestamp, value: f64, unit: TemperatureUnit| {
        TemperatureSensor::new_at(id.to_string(), taken, number(value), unit, now).unwrap()
    };
    let base = build("a", now, 20.0, TemperatureUnit::Celsius);
    assert_eq!(base, build("a", now, 20.0, TemperatureUnit::Celsius));
    assert_eq!(base, base.clone());
    assert_ne!(base, build("b", now, 20.0, TemperatureUnit::Celsius));
    assert_ne!(base, build("a", Timestamp::new(5, 0), 20.0, TemperatureUnit::Celsius));
    assert_ne!(base, build("a", now, 20.5, TemperatureUnit::Celsius));
    assert_ne!(base, build("a", now, 20.0, TemperatureUnit::Fahrenheit));
    assert_eq!(
        build("a", now, 0.0, TemperatureUnit::Celsius),
        build("a", now, -0.0, TemperatureUnit::Celsius)
    );
}
