use sensor_domain::double::Double;
use sensor_domain::sensors::error::SensorValidationError;
use sensor_domain::text::{matches_lowered, same_text, to_ascii_lower};

#[test]
fn ascii_lower_changes_capitals_only() {
    for code in 0u32..=0x2fff {
        if let Some(c) = char::from_u32(code) {
            assert_eq!(to_ascii_lower(c), c.to_ascii_lowercase());
        }
    }
    assert_eq!(to_ascii_lower('A'), 'a');
    assert_eq!(to_ascii_lower('Z'), 'z');
    assert_eq!(to_ascii_lower('@'), '@');
    assert_eq!(to_ascii_lower('['), '[');
    assert_eq!(to_ascii_lower('\u{c9}'), '\u{c9}');
    assert_eq!(to_ascii_lower('\u{10ffff}'), '\u{10ffff}');
}

#[test]
fn matches_lowered_compares_against_the_word_as_written() {
    assert!(matches_lowered("PPM", "ppm"));
    assert!(matches_lowered("ppm", "ppm"));
    assert!(matches_lowered("", ""));
    assert!(matches_lowered("%", "%"));
    assert!(!matches_lowered("ppm", "PPM"));
    assert!(!matches_lowered("ppm", "pp"));
    assert!(!matches_lowered("pp", "ppm"));
    assert!(!matches_lowered("p\u{e9}m", "ppm"));
    assert!(matches_lowered("\u{c9}T\u{e9}", "\u{c9}t\u{e9}"));
    assert!(!matches_lowered("\u{c9}", "\u{e9}"));
}

#[test]
fn same_text_is_exact() {
    assert!(same_text("", ""));
    assert!(same_text("pressure", "pressure"));
    assert!(!same_text("pressure", "Pressure"));
    assert!(!same_text("pressure", "pressur"));
    assert!(!same_text("", " "));
    assert!(same_text("\u{6e29}\u{5ea6}", "\u{6e29}\u{5ea6}"));
    assert!(!same_text("\u{e9}", "e\u{301}"));
}

#[test]
fn faults_compare_by_variant_and_content() {
    let out = |bits: u64| SensorValidationError::ValueOutOfRange {
        value: Double::from_bits(bits),
        min: Double::from_bits(0),
        max: Double::from_bits(100.0f64.to_bits()),
    };
    assert_eq!(SensorValidationError::EmptyDeviceId, SensorValidationError::EmptyDeviceId);
    assert_ne!(SensorValidationError::EmptyDeviceId, SensorValidationError::FutureTimestamp);
    assert_eq!(out(101.0f64.to_bits()), out(101.0f64.to_bits()));
    assert_ne!(out(101.0f64.to_bits()), out(102.0f64.to_bits()));
    assert_ne!(out(f64::NAN.to_bits()), out(f64::NAN.to_bits()));
    assert_eq!(
        SensorValidationError::InvalidUnit("x".to_string()),
        SensorValidationError::InvalidUnit("x".to_string())
    );
    assert_ne!(
        SensorValidationError::InvalidUnit("x".to_string()),
        SensorValidationError::InvalidUnit("X".to_string())
    );
    assert_ne!(
        SensorValidationError::InvalidUnit("".to_string()),
        SensorValidationError::EmptyDeviceId
    );
    let fault = out(101.0f64.to_bits());
    assert_eq!(fault.clone(), fault);
}
