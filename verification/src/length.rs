//! Convert a length between ten linear units.
//!
//! Every unit is given by one fixed ratio to the meter (for instance
//! `1 inch = 254/10000 m` and `1 mile = 1609344/1000 m`), and every
//! conversion goes value -> meters -> target unit using that ratio and its
//! reciprocal.  One table of ten exact factors therefore covers all ninety
//! ordered pairs, and a round trip between any two units returns the exact
//! starting fraction.

use vstd::prelude::*;

use crate::rational::Rational;
use crate::rational::rat_eq;

verus! {

#[derive(Clone, Copy, Debug, PartialEq, Eq, Structural)]
pub enum LengthUnit {
    Micrometer,
    Millimeter,
    Centimeter,
    Meter,
    Kilometer,
    Inch,
    Foot,
    Yard,
    Mile,
    NauticalMile,
}

/// Numerator of the meters-per-unit ratio of `u`.
pub open spec fn unit_num(u: LengthUnit) -> int {
    match u {
        LengthUnit::Micrometer => 1,
        LengthUnit::Millimeter => 1,
        LengthUnit::Centimeter => 1,
        LengthUnit::Meter => 1,
        LengthUnit::Kilometer => 1000,
        LengthUnit::Inch => 254,
        LengthUnit::Foot => 3048,
        LengthUnit::Yard => 9144,
        LengthUnit::Mile => 1609344,
        LengthUnit::NauticalMile => 1852,
    }
}

/// Denominator of the meters-per-unit ratio of `u`.
pub open spec fn unit_den(u: LengthUnit) -> int {
    match u {
        LengthUnit::Micrometer => 1000000,
        LengthUnit::Millimeter => 1000,
        LengthUnit::Centimeter => 100,
        LengthUnit::Meter => 1,
        LengthUnit::Kilometer => 1,
        LengthUnit::Inch => 10000,
        LengthUnit::Foot => 10000,
        LengthUnit::Yard => 10000,
        LengthUnit::Mile => 1000,
        LengthUnit::NauticalMile => 1,
    }
}

/// Numerator of the value `n / d` of unit `from` expressed in `to`:
/// into meters with the ratio of `from`, out of meters with the
/// reciprocal ratio of `to`.
pub open spec fn convert_num(from: LengthUnit, to: LengthUnit, n: int, d: int) -> int {
    n * unit_num(from) * unit_den(to)
}

/// Denominator that goes with [`convert_num`].
pub open spec fn convert_den(from: LengthUnit, to: LengthUnit, d: int) -> int {
    d * unit_den(from) * unit_num(to)
}

/// Both parts of every meters-per-unit ratio are positive and small.
pub proof fn lemma_unit_factor_bounds(u: LengthUnit)
    ensures
        1 <= unit_num(u) <= 1609344,
        1 <= unit_den(u) <= 1000000,
{
}

/// The meters-per-unit ratio of `u` as a pair of machine integers.
fn unit_factor(u: LengthUnit) -> (f: (i128, i128))
    ensures
        f.0 == unit_num(u),
        f.1 == unit_den(u),
        1 <= f.0 <= 1609344,
        1 <= f.1 <= 1000000,
{
    match u {
        LengthUnit::Micrometer => (1, 1000000),
        LengthUnit::Millimeter => (1, 1000),
        LengthUnit::Centimeter => (1, 100),
        LengthUnit::Meter => (1, 1),
        LengthUnit::Kilometer => (1000, 1),
        LengthUnit::Inch => (254, 10000),
        LengthUnit::Foot => (3048, 10000),
        LengthUnit::Yard => (9144, 10000),
        LengthUnit::Mile => (1609344, 1000),
        LengthUnit::NauticalMile => (1852, 1),
    }
}

/// The value `v` of unit `from` expressed in `to`, computed exactly.
fn convert_value(v: Rational, from: LengthUnit, to: LengthUnit) -> (r: Rational)
    requires
        v.in_range(),
    ensures
        r.wf(),
        from == to ==> r == v,
        from != to ==> r.num == convert_num(from, to, v.num as int, v.den as int)
            && r.den == convert_den(from, to, v.den as int),
{
    if from == to {
        return v;
    }
    let ff: (i128, i128) = unit_factor(from);
    let ft: (i128, i128) = unit_factor(to);
    assert(-1_609_344_000_000_000_000_000_000_000_000 <= v.num * ff.0
        <= 1_609_344_000_000_000_000_000_000_000_000) by (nonlinear_arith)
        requires
            -1_000_000_000_000_000_000_000_000 <= v.num <= 1_000_000_000_000_000_000_000_000,
            1 <= ff.0 <= 1609344,
    ;
    let n1: i128 = v.num * ff.0;
    assert(-1_609_344_000_000_000_000_000_000_000_000_000_000 <= n1 * ft.1
        <= 1_609_344_000_000_000_000_000_000_000_000_000_000) by (nonlinear_arith)
        requires
            -1_609_344_000_000_000_000_000_000_000_000 <= n1
                <= 1_609_344_000_000_000_000_000_000_000_000,
            1 <= ft.1 <= 1000000,
    ;
    let num: i128 = n1 * ft.1;
    assert(1 <= v.den * ff.1 <= 1_000_000_000_000_000_000_000_000_000_000) by (nonlinear_arith)
        requires
            1 <= v.den <= 1_000_000_000_000_000_000_000_000,
            1 <= ff.1 <= 1000000,
    ;
    let d1: i128 = v.den * ff.1;
    assert(1 <= d1 * ft.0 <= 1_609_344_000_000_000_000_000_000_000_000_000_000) by (nonlinear_arith)
        requires
            1 <= d1 <= 1_000_000_000_000_000_000_000_000_000_000,
            1 <= ft.0 <= 1609344,
    ;
    let den: i128 = d1 * ft.0;
    Rational::new(num, den)
}

/// A length: a value and the unit it is stated in.
#[derive(Clone, Copy, Debug, PartialEq, Eq, Structural)]
pub struct Length {
    pub value: Rational,
    pub unit: LengthUnit,
}

impl Length {
    pub fn new(value: Rational, unit: LengthUnit) -> (l: Length)
        ensures
            l.value == value,
            l.unit == unit,
    {
        Length { value, unit }
    }

    /// The value of this length expressed in `to`.
    ///
    /// Converting to the unit the value is already stated in returns the
    /// value unchanged, exactly; any other conversion yields precisely the
    /// fraction that the pivot through meters prescribes.
    pub fn convert_to(&self, to: LengthUnit) -> (r: Rational)
        requires
            self.value.in_range(),
        ensures
            r.wf(),
            self.unit == to ==> r == self.value,
            self.unit != to ==> r.num == convert_num(self.unit, to, self.value.num as int, self.value.den as int)
                && r.den == convert_den(self.unit, to, self.value.den as int),
    {
        match to {
            LengthUnit::Micrometer => self.convert_to_micrometer(),
            LengthUnit::Millimeter => self.convert_to_milimeter(),
            LengthUnit::Centimeter => self.convert_to_centimeter(),
            LengthUnit::Meter => self.convert_to_meter(),
            LengthUnit::Kilometer => self.convert_to_kilometer(),
            LengthUnit::Inch => self.convert_to_inch(),
            LengthUnit::Foot => self.convert_to_foot(),
            LengthUnit::Yard => self.convert_to_yard(),
            LengthUnit::Mile => self.convert_to_mile(),
            LengthUnit::NauticalMile => self.convert_to_nautic_mile(),
        }
    }

    /// The value of this length expressed in micrometers.
    pub fn convert_to_micrometer(&self) -> (r: Rational)
        requires
            self.value.in_range(),
        ensures
            r.wf(),
            self.unit == LengthUnit::Micrometer ==> r == self.value,
            self.unit != LengthUnit::Micrometer ==> r.num == convert_num(
                self.unit,
                LengthUnit::Micrometer,
                self.value.num as int,
                self.value.den as int,
            ) && r.den == convert_den(self.unit, LengthUnit::Micrometer, self.value.den as int),
    {
        convert_value(self.value, self.unit, LengthUnit::Micrometer)
    }

    /// The value of this length expressed in millimeters.
    pub fn convert_to_milimeter(&self) -> (r: Rational)
        requires
            self.value.in_range(),
        ensures
            r.wf(),
            self.unit == LengthUnit::Millimeter ==> r == self.value,
            self.unit != LengthUnit::Millimeter ==> r.num == convert_num(
                self.unit,
                LengthUnit::Millimeter,
                self.value.num as int,
                self.value.den as int,
            ) && r.den == convert_den(self.unit, LengthUnit::Millimeter, self.value.den as int),
    {
        convert_value(self.value, self.unit, LengthUnit::Millimeter)
    }

    /// The value of this length expressed in centimeters.
    pub fn convert_to_centimeter(&self) -> (r: Rational)
        requires
            self.value.in_range(),
        ensures
            r.wf(),
            self.unit == LengthUnit::Centimeter ==> r == self.value,
            self.unit != LengthUnit::Centimeter ==> r.num == convert_num(
                self.unit,
                LengthUnit::Centimeter,
                self.value.num as int,
                self.value.den as int,
            ) && r.den == convert_den(self.unit, LengthUnit::Centimeter, self.value.den as int),
    {
        convert_value(self.value, self.unit, LengthUnit::Centimeter)
    }

    /// The value of this length expressed in meters.
    pub fn convert_to_meter(&self) -> (r: Rational)
        requires
            self.value.in_range(),
        ensures
            r.wf(),
            self.unit == LengthUnit::Meter ==> r == self.value,
            self.unit != LengthUnit::Meter ==> r.num == convert_num(
                self.unit,
                LengthUnit::Meter,
                self.value.num as int,
                self.value.den as int,
            ) && r.den == convert_den(self.unit, LengthUnit::Meter, self.value.den as int),
    {
        convert_value(self.value, self.unit, LengthUnit::Meter)
    }

    /// The value of this length expressed in kilometers.
    pub fn convert_to_kilometer(&self) -> (r: Rational)
        requires
            self.value.in_range(),
        ensures
            r.wf(),
            self.unit == LengthUnit::Kilometer ==> r == self.value,
            self.unit != LengthUnit::Kilometer ==> r.num == convert_num(
                self.unit,
                LengthUnit::Kilometer,
                self.value.num as int,
                self.value.den as int,
            ) && r.den == convert_den(self.unit, LengthUnit::Kilometer, self.value.den as int),
    {
        convert_value(self.value, self.unit, LengthUnit::Kilometer)
    }

    /// The value of this length expressed in inches.
    pub fn convert_to_inch(&self) -> (r: Rational)
        requires
            self.value.in_range(),
        ensures
            r.wf(),
            self.unit == LengthUnit::Inch ==> r == self.value,
            self.unit != LengthUnit::Inch ==> r.num == convert_num(
                self.unit,
                LengthUnit::Inch,
                self.value.num as int,
                self.value.den as int,
            ) && r.den == convert_den(self.unit, LengthUnit::Inch, self.value.den as int),
    {
        convert_value(self.value, self.unit, LengthUnit::Inch)
    }

    /// The value of this length expressed in feet.
    pub fn convert_to_foot(&self) -> (r: Rational)
        requires
            self.value.in_range(),
        ensures
            r.wf(),
            self.unit == LengthUnit::Foot ==> r == self.value,
            self.unit != LengthUnit::Foot ==> r.num == convert_num(
                self.unit,
                LengthUnit::Foot,
                self.value.num as int,
                self.value.den as int,
            ) && r.den == convert_den(self.unit, LengthUnit::Foot, self.value.den as int),
    {
        convert_value(self.value, self.unit, LengthUnit::Foot)
    }

    /// The value of this length expressed in yards.
    pub fn convert_to_yard(&self) -> (r: Rational)
        requires
            self.value.in_range(),
        ensures
            r.wf(),
            self.unit == LengthUnit::Yard ==> r == self.value,
            self.unit != LengthUnit::Yard ==> r.num == convert_num(
                self.unit,
                LengthUnit::Yard,
                self.value.num as int,
                self.value.den as int,
            ) && r.den == convert_den(self.unit, LengthUnit::Yard, self.value.den as int),
    {
        convert_value(self.value, self.unit, LengthUnit::Yard)
    }

    /// The value of this length expressed in miles.
    pub fn convert_to_mile(&self) -> (r: Rational)
        requires
            self.value.in_range(),
        ensures
            r.wf(),
            self.unit == LengthUnit::Mile ==> r == self.value,
            self.unit != LengthUnit::Mile ==> r.num == convert_num(
                self.unit,
                LengthUnit::Mile,
                self.value.num as int,
                self.value.den as int,
            ) && r.den == convert_den(self.unit, LengthUnit::Mile, self.value.den as int),
    {
        convert_value(self.value, self.unit, LengthUnit::Mile)
    }

    /// The value of this length expressed in nautical miles.
    pub fn convert_to_nautic_mile(&self) -> (r: Rational)
        requires
            self.value.in_range(),
        ensures
            r.wf(),
            self.unit == LengthUnit::NauticalMile ==> r == self.value,
            self.unit != LengthUnit::NauticalMile ==> r.num == convert_num(
                self.unit,
                LengthUnit::NauticalMile,
                self.value.num as int,
                self.value.den as int,
            ) && r.den == convert_den(self.unit, LengthUnit::NauticalMile, self.value.den as int),
    {
        convert_value(self.value, self.unit, LengthUnit::NauticalMile)
    }
}

/// Round trip: taking the value `v` from unit `a` to unit `b` and then back
/// to `a` lands on a fraction equal to `v` itself, exactly, for every pair
/// of units.  The denominators stay positive along the way, so the two
/// fractions denote the same number.
pub proof fn lemma_round_trip(v: Rational, a: LengthUnit, b: LengthUnit)
    requires
        v.wf(),
    ensures
        convert_den(a, b, v.den as int) >= 1,
        convert_den(b, a, convert_den(a, b, v.den as int)) >= 1,
        rat_eq(
            convert_num(b, a, convert_num(a, b, v.num as int, v.den as int), convert_den(a, b, v.den as int)),
            convert_den(b, a, convert_den(a, b, v.den as int)),
            v.num as int,
            v.den as int,
        ),
{
    let n: int = v.num as int;
    let d: int = v.den as int;
    let pa: int = unit_num(a);
    let qa: int = unit_den(a);
    let pb: int = unit_num(b);
    let qb: int = unit_den(b);
    lemma_unit_factor_bounds(a);
    lemma_unit_factor_bounds(b);
    assert(d * qa * pb >= 1) by (nonlinear_arith)
        requires
            d >= 1,
            qa >= 1,
            pb >= 1,
    ;
    assert((d * qa * pb) * qb * pa >= 1) by (nonlinear_arith)
        requires
            d * qa * pb >= 1,
            qb >= 1,
            pa >= 1,
    ;
    assert((n * pa * qb * pb * qa) * d == n * (d * qa * pb * qb * pa)) by (nonlinear_arith);
}

} // verus!
