//! The fixed-point scale and the constants of the curve.

use vstd::prelude::*;

verus! {

/// The fixed-point encoding of 1.0: one unit is 10^-12.
pub const ONE: i64 = 1_000_000_000_000;

/// The neutral `tw`, 100.0. Below it the penalty applies.
pub const NEUTRAL: i64 = 100_000_000_000_000;

/// The bonus gate, 103.0. The bonus applies strictly above it.
pub const BONUS_GATE: i64 = 103_000_000_000_000;

/// The largest magnitude the penalty can take, 0.048.
pub const PENALTY_CAP: i64 = 48_000_000_000;

/// The least distance below [`NEUTRAL`] at which the quadratic penalty
/// reaches [`PENALTY_CAP`]: the square root of 30, rounded up to the next
/// unit (5.477225575052).
pub const CAP_DISTANCE: i64 = 5_477_225_575_052;

/// The divisor of the bonus, 150.
pub const BONUS_DIVISOR: i64 = 150;

/// The number of `tw` units over which the growth exponent rises by one, 5.
pub const GROWTH_STEP: i64 = 5;

/// The growth factor at the bonus gate, 1.02 raised to -0.4, rounded down
/// to the unit. The exponent rises with `tw`, so no growth factor above
/// that threshold is smaller.
pub const GATE_GROWTH: u64 = 992_110_237_937;

/// A bound that every bonus exceeds when the growth factor is at least
/// [`GATE_GROWTH`], 0.0198.
pub const BONUS_FLOOR: i64 = 19_800_000_000;

} // verus!
