//! The penalty, the bonus and their sum.
//!
//! Every argument and result is a fixed-point integer in units of
//! [`ONE`]. The specification functions give the value of each formula
//! rounded down to the unit, except that a positive quantity smaller than
//! one unit is one unit: zero stands for zero alone, so the sign of every
//! result is that of the exact value. The executable functions compute
//! exactly those values for every input, without overflow.

use vstd::prelude::*;
use crate::units::{
    ONE, NEUTRAL, BONUS_GATE, PENALTY_CAP, CAP_DISTANCE, BONUS_DIVISOR, GROWTH_STEP, GATE_GROWTH,
    BONUS_FLOOR,
};
use crate::laws::law_bonus_floor;

verus! {

/// The part of the curve that a `tw` falls in.
#[derive(Clone, Copy, Debug, PartialEq, Eq)]
pub enum Zone {
    /// Strictly below [`NEUTRAL`]: the penalty applies.
    Penalty,
    /// From [`NEUTRAL`] to [`BONUS_GATE`], both included: the multiplier is zero.
    Dead,
    /// Strictly above [`BONUS_GATE`]: the bonus applies.
    Bonus,
}

/// The zone of `tw`.
pub open spec fn zone_of(tw: int) -> Zone {
    if tw < NEUTRAL {
        Zone::Penalty
    } else if tw <= BONUS_GATE {
        Zone::Dead
    } else {
        Zone::Bonus
    }
}

/// The quotient `n / k` in whole units: rounded down, except that a
/// positive quotient below one unit is one unit.
pub open spec fn in_units(n: int, k: int) -> int {
    if 0 < n < k {
        1
    } else {
        n / k
    }
}

/// The uncapped penalty magnitude `(4 * (100 - tw) / 100)^2` in units.
pub open spec fn penalty_raw(tw: int) -> int {
    let d = NEUTRAL - tw;
    in_units((4 * d) * (4 * d), 100 * 100 * ONE)
}

/// The penalty: the negated raw magnitude, capped at [`PENALTY_CAP`], for
/// `tw` strictly below [`NEUTRAL`]; zero elsewhere.
pub open spec fn penalty_applied(tw: int) -> int {
    if tw < NEUTRAL {
        if penalty_raw(tw) < PENALTY_CAP {
            -penalty_raw(tw)
        } else {
            -PENALTY_CAP
        }
    } else {
        0
    }
}

/// The exponent `max(tw - 100, 0) / 5 - 1` to which the growth base 1.02 is
/// raised, rounded down to the unit.
pub open spec fn growth_exponent_of(tw: int) -> int {
    (if tw > NEUTRAL { tw - NEUTRAL } else { 0 }) / (GROWTH_STEP as int) - ONE
}

/// The ungated bonus `(tw - 100) * growth / 150` in units.
pub open spec fn bonus_raw(tw: int, growth: int) -> int {
    in_units((tw - NEUTRAL) * growth, BONUS_DIVISOR * ONE)
}

/// The bonus: [`bonus_raw`] for `tw` strictly above [`BONUS_GATE`]; zero
/// elsewhere.
pub open spec fn bonus_applied(tw: int, growth: int) -> int {
    if tw > BONUS_GATE {
        bonus_raw(tw, growth)
    } else {
        0
    }
}

/// The multiplier: the sum of the penalty and the bonus.
pub open spec fn multiplier(tw: int, growth: int) -> int {
    penalty_applied(tw) + bonus_applied(tw, growth)
}

/// At or beyond [`CAP_DISTANCE`] below neutral the raw penalty has reached
/// the cap.
pub proof fn lemma_cap_reached(tw: int)
    requires
        NEUTRAL - tw >= CAP_DISTANCE,
    ensures
        penalty_raw(tw) >= PENALTY_CAP,
{
    let d = NEUTRAL - tw;
    assert(d * d >= 5_477_225_575_052 * 5_477_225_575_052) by (nonlinear_arith)
        requires
            d >= 5_477_225_575_052,
    ;
    let n = (4 * d) * (4 * d);
    assert(n == 16 * (d * d)) by (nonlinear_arith)
        requires
            n == (4 * d) * (4 * d),
    ;
    assert(100 * 100 * ONE == 10_000_000_000_000_000);
}

/// Below neutral and closer to it than [`CAP_DISTANCE`] the raw penalty is
/// positive and below the cap, and the square it is computed from stays
/// below 4.8 * 10^26.
pub proof fn lemma_cap_not_reached(tw: int)
    requires
        0 < NEUTRAL - tw < CAP_DISTANCE,
    ensures
        0 < penalty_raw(tw) < PENALTY_CAP,
        0 < (4 * (NEUTRAL - tw)) * (4 * (NEUTRAL - tw)) < 480_000_000_000_000_000_000_000_000,
{
    let d = NEUTRAL - tw;
    assert(0 < d * d <= 5_477_225_575_051 * 5_477_225_575_051) by (nonlinear_arith)
        requires
            0 < d <= 5_477_225_575_051,
    ;
    let n = (4 * d) * (4 * d);
    assert(n == 16 * (d * d)) by (nonlinear_arith)
        requires
            n == (4 * d) * (4 * d),
    ;
    assert(100 * 100 * ONE == 10_000_000_000_000_000);
}

/// `n / k` in whole units, never zero for a positive `n`.
fn to_units(n: u128, k: u128) -> (r: u128)
    requires
        k > 0,
    ensures
        r == in_units(n as int, k as int),
{
    if 0 < n && n < k {
        1
    } else {
        n / k
    }
}

/// Moves a `tw` that rounding carried over a threshold back into the zone
/// it came from. A value already in `zone` is returned unchanged; any other
/// is replaced by the value of `zone` nearest to it.
pub fn settle_in_zone(rounded: i64, zone: Zone) -> (tw: i64)
    ensures
        zone_of(tw as int) == zone,
        zone_of(rounded as int) == zone ==> tw == rounded,
        zone == Zone::Penalty && rounded >= NEUTRAL ==> tw == NEUTRAL - 1,
        zone == Zone::Dead && rounded < NEUTRAL ==> tw == NEUTRAL,
        zone == Zone::Dead && rounded > BONUS_GATE ==> tw == BONUS_GATE,
        zone == Zone::Bonus && rounded <= BONUS_GATE ==> tw == BONUS_GATE + 1,
{
    match zone {
        Zone::Penalty => if rounded >= NEUTRAL { NEUTRAL - 1 } else { rounded },
        Zone::Dead => if rounded < NEUTRAL {
            NEUTRAL
        } else if rounded > BONUS_GATE {
            BONUS_GATE
        } else {
            rounded
        },
        Zone::Bonus => if rounded <= BONUS_GATE { BONUS_GATE + 1 } else { rounded },
    }
}

/// The penalty term of the multiplier at `tw`: strictly negative below
/// [`NEUTRAL`], zero elsewhere.
pub fn penalty_term(tw: i64) -> (r: i64)
    ensures
        r == penalty_applied(tw as int),
        -PENALTY_CAP <= r <= 0,
        r < 0 <==> tw < NEUTRAL,
{
    if tw >= NEUTRAL {
        return 0;
    }
    let d: i128 = NEUTRAL as i128 - tw as i128;
    if d >= CAP_DISTANCE as i128 {
        proof {
            lemma_cap_reached(tw as int);
        }
        -PENALTY_CAP
    } else {
        proof {
            lemma_cap_not_reached(tw as int);
        }
        let s: u128 = 4 * (d as u128);
        let raw: u128 = to_units(s * s, 10_000_000_000_000_000);
        -(raw as i64)
    }
}

/// The exponent of the growth factor at `tw`. The growth factor handed to
/// [`bonus_term`] and [`calculate_tw_multiplier`] is 1.02 raised to this
/// exponent.
pub fn growth_exponent(tw: i64) -> (e: i64)
    ensures
        e == growth_exponent_of(tw as int),
        e >= -ONE,
{
    if tw > NEUTRAL {
        (tw - NEUTRAL) / GROWTH_STEP - ONE
    } else {
        -ONE
    }
}

/// The bonus term of the multiplier at `tw`, given the growth factor:
/// strictly positive above [`BONUS_GATE`] for a positive growth factor,
/// zero elsewhere.
pub fn bonus_term(tw: i64, growth: u64) -> (r: i128)
    ensures
        r == bonus_applied(tw as int, growth as int),
        r >= 0,
        r > 0 <==> tw > BONUS_GATE && growth > 0,
{
    if tw <= BONUS_GATE {
        return 0;
    }
    let q: u128 = (tw - NEUTRAL) as u128;
    let g: u128 = growth as u128;
    assert(0 <= q * g <= 0x7fff_ffff_ffff_ffff * 0xffff_ffff_ffff_ffff && (g > 0 ==> q * g > 0) && (g == 0 ==> q * g == 0))
        by (nonlinear_arith)
        requires
            0 < q <= 0x7fff_ffff_ffff_ffff,
            0 <= g <= 0xffff_ffff_ffff_ffff,
    ;
    let scaled: u128 = to_units(q * g, 150_000_000_000_000);
    scaled as i128
}

/// The multiplier at `tw`: the penalty term plus the bonus term, where
/// `growth` is 1.02 raised to [`growth_exponent`] of `tw`.
///
/// Below [`NEUTRAL`] the result is the capped penalty and strictly
/// negative, from [`NEUTRAL`] to [`BONUS_GATE`] inclusive it is zero, and
/// above [`BONUS_GATE`] it is the bonus, strictly positive for a positive
/// growth factor and above [`BONUS_FLOOR`] for one of at least
/// [`GATE_GROWTH`]. `growth` is read only above [`BONUS_GATE`].
pub fn calculate_tw_multiplier(tw: i64, growth: u64) -> (r: i128)
    ensures
        r == multiplier(tw as int, growth as int),
        tw < NEUTRAL ==> r == penalty_applied(tw as int) && -PENALTY_CAP <= r < 0,
        NEUTRAL <= tw <= BONUS_GATE ==> r == 0,
        tw > BONUS_GATE ==> r == bonus_raw(tw as int, growth as int) && r >= 0,
        tw > BONUS_GATE && growth > 0 ==> r > 0,
        tw > BONUS_GATE && growth >= GATE_GROWTH ==> r > BONUS_FLOOR,
{
    proof {
        if tw > BONUS_GATE && growth >= GATE_GROWTH {
            law_bonus_floor(tw as int, growth as nat);
        }
    }
    let penalty: i64 = penalty_term(tw);
    let bonus: i128 = bonus_term(tw, growth);
    penalty as i128 + bonus
}

} // verus!
