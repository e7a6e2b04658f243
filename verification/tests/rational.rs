use multi_converter::rational::Rational;
use multi_converter::rational::VAL_BOUND;

#[test]
fn new_keeps_the_fraction_as_written() {
    let r = Rational::new(-7, 4);
    assert_eq!(r.num, -7);
    assert_eq!(r.den, 4);
}

#[test]
fn in_range_accepts_the_bound_itself() {
    assert!(Rational::new(VAL_BOUND, 1).is_in_range());
    assert!(Rational::new(-VAL_BOUND, VAL_BOUND).is_in_range());
    assert!(Rational::new(0, 1).is_in_range());
}

#[test]
fn in_range_rejects_values_past_the_bound() {
    assert!(!Rational::new(VAL_BOUND + 1, 1).is_in_range());
    assert!(!Rational::new(-VAL_BOUND - 1, 1).is_in_range());
    assert!(!Rational::new(1, VAL_BOUND + 1).is_in_range());
}
