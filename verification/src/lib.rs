//! A scoring adjustment derived from the `tw` timing metric.
//!
//! The curve is piecewise: a capped quadratic penalty below the neutral
//! value 100, a dead zone from 100 to 103 inclusive where the adjustment is
//! zero, and a growing bonus above 103. All quantities are decimal
//! fixed-point integers with twelve fractional digits, so every threshold
//! of the curve is represented without rounding. A result is rounded down
//! to the unit, but never to zero: with a positive growth factor the
//! multiplier is zero in the dead zone and nowhere else.
//!
//! The bonus grows with a power of 1.02 whose exponent is fractional. The
//! library computes that exponent and takes the value of the power, the
//! growth factor, from its caller.

pub mod units;
pub mod curve;
pub mod laws;
