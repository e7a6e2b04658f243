//! Convert values between physical units:
//!     - temperature (Celsius, Faherenheit, Kelvin)
//!     - length (Meter, Kilometer, Inch, Foot, Mile, ...)
//!
//! Values are carried as exact rationals, so every conversion is exact and
//! the stated contracts pin each result down to the number it denotes.

pub mod length;
pub mod rational;
pub mod temperature;

pub use length::Length;
pub use length::LengthUnit;
pub use rational::Rational;
pub use temperature::Temperature;
pub use temperature::TemperatureUnit;
