//! Convert a temperature between Celsius, Faherenheit and Kelvin.
//!
//! Every conversion pivots through Celsius, so converting to Kelvin via an
//! explicit stop at Celsius gives exactly the same number as converting
//! directly.  The constants are the classical ones, kept as exact fractions:
//! Celsius to Faherenheit multiplies by `9/5` and adds `32`, Celsius to
//! Kelvin adds `273.15`, and Faherenheit to Celsius subtracts `32` and then
//! multiplies by `0.55` (the fraction `11/20`).  The choice of `0.55` over
//! the exact `5/9` is deliberate and documented here: it keeps the six
//! conversion formulas and their long-expected outputs to the digit, at the
//! price that a Celsius round trip through Faherenheit is close but not
//! exact.

use vstd::prelude::*;

use crate::rational::Rational;
use crate::rational::VAL_BOUND;

verus! {

#[derive(Clone, Copy, Debug, PartialEq, Eq, Structural)]
pub enum TemperatureUnit {
    Celsius,
    Faherenheit,
    Kelvin,
}

/// Numerator of the value `n / d` degrees `u` expressed in Celsius.
/// Faherenheit: `(v - 32) * 11/20`; Kelvin: `v - 273.15`.
pub open spec fn to_celsius_num(u: TemperatureUnit, n: int, d: int) -> int {
    match u {
        TemperatureUnit::Celsius => n,
        TemperatureUnit::Faherenheit => 11 * (n - 32 * d),
        TemperatureUnit::Kelvin => 100 * n - 27315 * d,
    }
}

/// Denominator that goes with [`to_celsius_num`].
pub open spec fn to_celsius_den(u: TemperatureUnit, d: int) -> int {
    match u {
        TemperatureUnit::Celsius => d,
        TemperatureUnit::Faherenheit => 20 * d,
        TemperatureUnit::Kelvin => 100 * d,
    }
}

/// Numerator of `cn / cd` degrees Celsius expressed in `u`.
/// Faherenheit: `c * 9/5 + 32`; Kelvin: `c + 273.15`.
pub open spec fn from_celsius_num(u: TemperatureUnit, cn: int, cd: int) -> int {
    match u {
        TemperatureUnit::Celsius => cn,
        TemperatureUnit::Faherenheit => 9 * cn + 160 * cd,
        TemperatureUnit::Kelvin => 100 * cn + 27315 * cd,
    }
}

/// Denominator that goes with [`from_celsius_num`].
pub open spec fn from_celsius_den(u: TemperatureUnit, cd: int) -> int {
    match u {
        TemperatureUnit::Celsius => cd,
        TemperatureUnit::Faherenheit => 5 * cd,
        TemperatureUnit::Kelvin => 100 * cd,
    }
}

/// Numerator of the value `n / d` degrees `from` expressed in `to`:
/// first to Celsius, then from Celsius.
pub open spec fn convert_num(from: TemperatureUnit, to: TemperatureUnit, n: int, d: int) -> int {
    from_celsius_num(to, to_celsius_num(from, n, d), to_celsius_den(from, d))
}

/// Denominator that goes with [`convert_num`].
pub open spec fn convert_den(from: TemperatureUnit, to: TemperatureUnit, d: int) -> int {
    from_celsius_den(to, to_celsius_den(from, d))
}

/// A temperature: a value and the unit it is stated in.
#[derive(Clone, Copy, Debug, PartialEq, Eq, Structural)]
pub struct Temperature {
    pub value: Rational,
    pub unit: TemperatureUnit,
}

/// The value of `v` expressed in Celsius, computed exactly.
fn to_celsius_value(v: Rational, u: TemperatureUnit) -> (r: Rational)
    requires
        v.in_range(),
    ensures
        r.num == to_celsius_num(u, v.num as int, v.den as int),
        r.den == to_celsius_den(u, v.den as int),
        -27415 * VAL_BOUND <= r.num <= 27415 * VAL_BOUND,
        1 <= r.den <= 100 * VAL_BOUND,
{
    match u {
        TemperatureUnit::Celsius => v,
        TemperatureUnit::Faherenheit => Rational::new(11 * (v.num - 32 * v.den), 20 * v.den),
        TemperatureUnit::Kelvin => Rational::new(100 * v.num - 27315 * v.den, 100 * v.den),
    }
}

/// The value of `c` degrees Celsius expressed in `u`, computed exactly.
fn from_celsius_value(c: Rational, u: TemperatureUnit) -> (r: Rational)
    requires
        c.den >= 1,
        -27415 * VAL_BOUND <= c.num <= 27415 * VAL_BOUND,
        c.den <= 100 * VAL_BOUND,
    ensures
        r.num == from_celsius_num(u, c.num as int, c.den as int),
        r.den == from_celsius_den(u, c.den as int),
        r.wf(),
{
    match u {
        TemperatureUnit::Celsius => c,
        TemperatureUnit::Faherenheit => Rational::new(9 * c.num + 160 * c.den, 5 * c.den),
        TemperatureUnit::Kelvin => Rational::new(100 * c.num + 27315 * c.den, 100 * c.den),
    }
}

impl Temperature {
    pub fn new(value: Rational, unit: TemperatureUnit) -> (t: Temperature)
        ensures
            t.value == value,
            t.unit == unit,
    {
        Temperature { value, unit }
    }

    /// The value of this temperature expressed in `to`.
    ///
    /// Converting to the unit the value is already stated in returns the
    /// value unchanged, exactly; any other conversion yields precisely the
    /// fraction that the pivot through Celsius prescribes.
    pub fn convert_to(&self, to: TemperatureUnit) -> (r: Rational)
        requires
            self.value.in_range(),
        ensures
            r.wf(),
            self.unit == to ==> r == self.value,
            self.unit != to ==> r.num == convert_num(self.unit, to, self.value.num as int, self.value.den as int)
                && r.den == convert_den(self.unit, to, self.value.den as int),
    {
        match to {
            TemperatureUnit::Celsius => self.convert_to_celsius(),
            TemperatureUnit::Faherenheit => self.convert_to_faherenheit(),
            TemperatureUnit::Kelvin => self.convert_to_kelvin(),
        }
    }

    /// The value of this temperature expressed in Celsius.
    pub fn convert_to_celsius(&self) -> (r: Rational)
        requires
            self.value.in_range(),
        ensures
            r.wf(),
            self.unit == TemperatureUnit::Celsius ==> r == self.value,
            self.unit != TemperatureUnit::Celsius ==> r.num == convert_num(
                self.unit,
                TemperatureUnit::Celsius,
                self.value.num as int,
                self.value.den as int,
            ) && r.den == convert_den(self.unit, TemperatureUnit::Celsius, self.value.den as int),
    {
        if self.unit == TemperatureUnit::Celsius {
            self.value
        } else {
            to_celsius_value(self.value, self.unit)
        }
    }

    /// The value of this temperature expressed in Faherenheit.
    pub fn convert_to_faherenheit(&self) -> (r: Rational)
        requires
            self.value.in_range(),
        ensures
            r.wf(),
            self.unit == TemperatureUnit::Faherenheit ==> r == self.value,
            self.unit != TemperatureUnit::Faherenheit ==> r.num == convert_num(
                self.unit,
                TemperatureUnit::Faherenheit,
                self.value.num as int,
                self.value.den as int,
            ) && r.den == convert_den(self.unit, TemperatureUnit::Faherenheit, self.value.den as int),
    {
        if self.unit == TemperatureUnit::Faherenheit {
            self.value
        } else {
            from_celsius_value(
                to_celsius_value(self.value, self.unit),
                TemperatureUnit::Faherenheit,
            )
        }
    }

    /// The value of this temperature expressed in Kelvin.
    pub fn convert_to_kelvin(&self) -> (r: Rational)
        requires
            self.value.in_range(),
        ensures
            r.wf(),
            self.unit == TemperatureUnit::Kelvin ==> r == self.value,
            self.unit != TemperatureUnit::Kelvin ==> r.num == convert_num(
                self.unit,
                TemperatureUnit::Kelvin,
                self.value.num as int,
                self.value.den as int,
            ) && r.den == convert_den(self.unit, TemperatureUnit::Kelvin, self.value.den as int),
    {
        if self.unit == TemperatureUnit::Kelvin {
            self.value
        } else {
            from_celsius_value(to_celsius_value(self.value, self.unit), TemperatureUnit::Kelvin)
        }
    }
}

/// Converting `from` to `to` in one step lands on exactly the same fraction
/// as first converting `from` to Celsius and then Celsius to `to`: the pivot
/// through Celsius is exact.  In particular a Faherenheit value taken to
/// Kelvin equals that value taken to Celsius and then to Kelvin.
pub proof fn lemma_convert_via_celsius(v: Rational, from: TemperatureUnit, to: TemperatureUnit)
    requires
        v.wf(),
    ensures
        convert_num(from, to, v.num as int, v.den as int) == convert_num(
            TemperatureUnit::Celsius,
            to,
            convert_num(from, TemperatureUnit::Celsius, v.num as int, v.den as int),
            convert_den(from, TemperatureUnit::Celsius, v.den as int),
        ),
        convert_den(from, to, v.den as int) == convert_den(
            TemperatureUnit::Celsius,
            to,
            convert_den(from, TemperatureUnit::Celsius, v.den as int),
        ),
{
}

/// A Faherenheit value taken straight to Kelvin is exactly the fraction
/// obtained by taking it to Celsius first and then taking that Celsius
/// value to Kelvin.
pub proof fn lemma_faherenheit_to_kelvin_composes(v: Rational)
    requires
        v.wf(),
    ensures
        convert_num(TemperatureUnit::Faherenheit, TemperatureUnit::Kelvin, v.num as int, v.den as int)
            == convert_num(
            TemperatureUnit::Celsius,
            TemperatureUnit::Kelvin,
            convert_num(
                TemperatureUnit::Faherenheit,
                TemperatureUnit::Celsius,
                v.num as int,
                v.den as int,
            ),
            convert_den(TemperatureUnit::Faherenheit, TemperatureUnit::Celsius, v.den as int),
        ),
        convert_den(TemperatureUnit::Faherenheit, TemperatureUnit::Kelvin, v.den as int)
            == convert_den(
            TemperatureUnit::Celsius,
            TemperatureUnit::Kelvin,
            convert_den(TemperatureUnit::Faherenheit, TemperatureUnit::Celsius, v.den as int),
        ),
{
    lemma_convert_via_celsius(v, TemperatureUnit::Faherenheit, TemperatureUnit::Kelvin);
}

} // verus!
