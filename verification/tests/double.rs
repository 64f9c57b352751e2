use sensor_domain::double::{Double, INFINITY_BITS, SIGN_BIT};

fn number(x: f64) -> Double {
    Double::from_bits(x.to_bits())
}

fn samples() -> Vec<f64> {
    vec![
        f64::NEG_INFINITY,
        f64::MIN,
        -1.0e300,
        -50_000.0,
        -150.0,
        -50.000_000_000_000_01,
        -50.0,
        -49.999_999_999_999_99,
        -1.0,
        -f64::MIN_POSITIVE,
        -5.0e-324,
        -0.0,
        0.0,
        5.0e-324,
        f64::MIN_POSITIVE,
        0.5,
        1.0,
        1.000_000_000_000_000_2,
        22.5,
        100.0,
        150.0,
        1013.25,
        50_000.0,
        1.0e300,
        f64::MAX,
        f64::INFINITY,
        f64::NAN,
        -f64::NAN,
        f64::from_bits(0x7ff0_0000_0000_0001),
        f64::from_bits(0xfff0_0000_0000_0001),
        f64::from_bits(0x7fff_ffff_ffff_ffff),
        f64::from_bits(0xffff_ffff_ffff_ffff),
    ]
}

#[test]
fn double_keeps_its_bits() {
    for x in samples() {
        assert_eq!(number(x).to_bits(), x.to_bits());
    }
    assert_eq!(Double::from_bits(0x4039_0000_0000_0000).to_bits(), 25.0f64.to_bits());
}

#[test]
fn double_constants_are_negative_zero_and_infinity() {
    assert_eq!(SIGN_BIT, (-0.0f64).to_bits());
    assert_eq!(INFINITY_BITS, f64::INFINITY.to_bits());
}

#[test]
fn double_knows_what_is_no_number() {
    for x in samples() {
        assert_eq!(number(x).is_not_a_number(), x.is_nan(), "{:?}", x);
    }
}

#[test]
fn double_orders_as_the_numbers_do() {
    for a in samples() {
        for b in samples() {
            assert_eq!(number(a).le(&number(b)), a <= b, "{:?} <= {:?}", a, b);
            assert_eq!(number(a).lt(&number(b)), a < b, "{:?} < {:?}", a, b);
            assert_eq!(number(a) == number(b), a == b, "{:?} == {:?}", a, b);
        }
    }
}

#[test]
fn double_is_within_as_an_inclusive_range_contains() {
    for min in samples() {
        for max in samples() {
            for x in samples() {
                assert_eq!(
                    number(x).is_within(&number(min), &number(max)),
                    (min..=max).contains(&x),
                    "{:?} in {:?}..={:?}",
                    x,
                    min,
                    max
                );
            }
        }
    }
}

#[test]
fn double_zeros_are_equal_and_ordered_both_ways() {
    let plus = number(0.0);
    let minus = number(-0.0);
    assert!(plus == minus);
    assert!(plus.le(&minus));
    assert!(minus.le(&plus));
    assert!(!plus.lt(&minus));
    assert!(!minus.lt(&plus));
}
