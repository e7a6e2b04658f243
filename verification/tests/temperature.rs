use multi_converter::rational::Rational;
use multi_converter::temperature::Temperature;
use multi_converter::temperature::TemperatureUnit;

fn rat(num: i128, den: i128) -> Rational {
    Rational::new(num, den)
}

fn approx(r: Rational) -> f64 {
    r.num as f64 / r.den as f64
}

/// `a` and `b` denote the same number exactly.
fn same_value(a: Rational, b: Rational) -> bool {
    a.num * b.den == b.num * a.den
}

#[test]
fn celsius_to_faherenheit_it_works() {
    let r = Temperature::new(rat(0, 1), TemperatureUnit::Celsius).convert_to_faherenheit();
    assert!(same_value(r, rat(32, 1)));
}

#[test]
fn celsius_to_faherenheit_it_works_with_decimals_f32() {
    let c: i128 = 12;
    let r = Temperature::new(rat(c, 1), TemperatureUnit::Celsius)
        .convert_to(TemperatureUnit::Faherenheit);
    // 12 * 9/5 + 32 = 53.6 exactly.
    assert!(same_value(r, rat(536, 10)));
    let got: f32 = approx(r) as f32;
    assert_eq!(got, 53.6);
}

#[test]
fn celsius_to_faherenheit_it_works_with_decimals_f64() {
    let c: i128 = 12;
    let r = Temperature::new(rat(c, 1), TemperatureUnit::Celsius)
        .convert_to(TemperatureUnit::Faherenheit);
    // The quoted figure carries single-precision rounding of the factor 1.8;
    // exact arithmetic gives 53.6, well inside the stored rounding error.
    assert!((approx(r) - 53.59999942779541).abs() < 1e-5);
}

#[test]
fn celsius_to_kelvin_it_works() {
    let r = Temperature::new(rat(0, 1), TemperatureUnit::Celsius)
        .convert_to(TemperatureUnit::Kelvin);
    assert!(same_value(r, rat(27315, 100)));
    assert_eq!(approx(r), 273.15);
}

#[test]
fn faherenheit_to_celsius_it_works() {
    let r = Temperature::new(rat(32, 1), TemperatureUnit::Faherenheit)
        .convert_to(TemperatureUnit::Celsius);
    assert!(same_value(r, rat(0, 1)));
}

#[test]
fn faherenheit_to_kelvin_it_works() {
    let r = Temperature::new(rat(32, 1), TemperatureUnit::Faherenheit)
        .convert_to(TemperatureUnit::Kelvin);
    assert!(same_value(r, rat(27315, 100)));
}

#[test]
fn kelvin_to_celsius_it_works() {
    let r = Temperature::new(rat(0, 1), TemperatureUnit::Kelvin)
        .convert_to(TemperatureUnit::Celsius);
    assert!(same_value(r, rat(-27315, 100)));
}

#[test]
fn kelvin_to_faherenheit_it_works() {
    let r = Temperature::new(rat(310, 1), TemperatureUnit::Kelvin)
        .convert_to(TemperatureUnit::Faherenheit);
    // (310 - 273.15) * 9/5 + 32 = 98.33 exactly; the quoted figure carries
    // single-precision rounding.
    assert!(same_value(r, rat(9833, 100)));
    assert!((approx(r) - 98.33001).abs() < 1e-4);
}

#[test]
fn identity_temperature_exact() {
    // Converting to the unit a value is already in returns it unchanged,
    // exactly, whatever the fraction.
    let v = rat(-40, 3);
    for unit in [
        TemperatureUnit::Celsius,
        TemperatureUnit::Faherenheit,
        TemperatureUnit::Kelvin,
    ] {
        let r = Temperature::new(v, unit).convert_to(unit);
        assert_eq!(r, v);
    }
}

#[test]
fn fixed_points_exact() {
    let boiling = Temperature::new(rat(100, 1), TemperatureUnit::Celsius)
        .convert_to(TemperatureUnit::Faherenheit);
    assert!(same_value(boiling, rat(212, 1)));
    let freezing = Temperature::new(rat(0, 1), TemperatureUnit::Celsius)
        .convert_to(TemperatureUnit::Faherenheit);
    assert!(same_value(freezing, rat(32, 1)));
    let zero_c = Temperature::new(rat(0, 1), TemperatureUnit::Celsius)
        .convert_to(TemperatureUnit::Kelvin);
    assert!(same_value(zero_c, rat(27315, 100)));
    let zero_k = Temperature::new(rat(0, 1), TemperatureUnit::Kelvin)
        .convert_to(TemperatureUnit::Celsius);
    assert!(same_value(zero_k, rat(-27315, 100)));
}

#[test]
fn faherenheit_to_kelvin_composes_through_celsius() {
    // Direct Faherenheit -> Kelvin equals Faherenheit -> Celsius -> Kelvin,
    // exactly, not merely within tolerance.
    let v = rat(507, 10);
    let direct = Temperature::new(v, TemperatureUnit::Faherenheit)
        .convert_to(TemperatureUnit::Kelvin);
    let celsius = Temperature::new(v, TemperatureUnit::Faherenheit)
        .convert_to(TemperatureUnit::Celsius);
    let staged = Temperature::new(celsius, TemperatureUnit::Celsius)
        .convert_to(TemperatureUnit::Kelvin);
    assert!(same_value(direct, staged));
}

#[test]
fn below_absolute_zero_is_converted_arithmetically() {
    // No range validation: sub-absolute-zero inputs go through the formula.
    let r = Temperature::new(rat(-500, 1), TemperatureUnit::Celsius)
        .convert_to(TemperatureUnit::Kelvin);
    assert!(same_value(r, rat(-22685, 100)));
}
