//! Properties of the curve, stated over its specification.

use vstd::prelude::*;
use vstd::arithmetic::div_mod::lemma_div_is_ordered;
use crate::units::{
    ONE, NEUTRAL, BONUS_GATE, PENALTY_CAP, CAP_DISTANCE, BONUS_DIVISOR, GATE_GROWTH, BONUS_FLOOR,
};
use crate::curve::{
    in_units, penalty_raw, penalty_applied, growth_exponent_of, bonus_raw, bonus_applied,
    multiplier, lemma_cap_reached, lemma_cap_not_reached,
};

verus! {

/// A quotient in units is never negative for a dividend that is not, is
/// positive exactly for a positive dividend, and does not shrink when the
/// dividend rises.
pub proof fn lemma_in_units_monotone(a: int, b: int, k: int)
    requires
        0 <= a <= b,
        0 < k,
    ensures
        0 <= in_units(a, k) <= in_units(b, k),
        in_units(a, k) > 0 <==> a > 0,
{
    lemma_div_is_ordered(0, a, k);
    lemma_div_is_ordered(a, b, k);
    assert(0int / k == 0) by (nonlinear_arith)
        requires
            0 < k,
    ;
    assert(a >= k ==> a / k >= 1) by (nonlinear_arith)
        requires
            0 < k,
    ;
    assert(b >= k ==> b / k >= 1) by (nonlinear_arith)
        requires
            0 < k,
    ;
    assert(a < k ==> a / k == 0) by (nonlinear_arith)
        requires
            0 <= a,
            0 < k,
    ;
}

/// The raw penalty magnitude is zero at neutral and positive everywhere
/// else.
pub proof fn lemma_penalty_raw_sign(tw: int)
    ensures
        penalty_raw(tw) >= 0,
        penalty_raw(tw) == 0 <==> tw == NEUTRAL,
{
    let s = 4 * (NEUTRAL - tw);
    assert(s * s >= 0 && (s != 0 ==> s * s > 0) && (s == 0 ==> s * s == 0)) by (nonlinear_arith);
    assert(100 * 100 * ONE == 10_000_000_000_000_000);
    lemma_in_units_monotone(s * s, s * s, 10_000_000_000_000_000);
}

/// The raw penalty magnitude does not grow as `tw` rises towards neutral.
pub proof fn lemma_penalty_raw_monotone(lo: int, hi: int)
    requires
        lo <= hi <= NEUTRAL,
    ensures
        penalty_raw(lo) >= penalty_raw(hi),
{
    let a = 4 * (NEUTRAL - lo);
    let b = 4 * (NEUTRAL - hi);
    assert(a * a >= b * b >= 0) by (nonlinear_arith)
        requires
            a >= b >= 0,
    ;
    assert(100 * 100 * ONE == 10_000_000_000_000_000);
    lemma_in_units_monotone(b * b, a * a, 10_000_000_000_000_000);
}

/// The ungated bonus is never negative above neutral, and does not shrink
/// when `tw` or the growth factor rises.
pub proof fn lemma_bonus_raw_monotone(lo: int, growth_lo: nat, hi: int, growth_hi: nat)
    requires
        NEUTRAL <= lo <= hi,
        growth_lo <= growth_hi,
    ensures
        0 <= bonus_raw(lo, growth_lo as int) <= bonus_raw(hi, growth_hi as int),
{
    let a = lo - NEUTRAL;
    let b = hi - NEUTRAL;
    assert(0 <= a * growth_lo <= b * growth_hi) by (nonlinear_arith)
        requires
            0 <= a <= b,
            0 <= growth_lo <= growth_hi,
    ;
    assert(BONUS_DIVISOR * ONE == 150_000_000_000_000);
    lemma_in_units_monotone(a * growth_lo, b * growth_hi, 150_000_000_000_000);
}

/// From neutral up to the bonus gate, both bounds included, the multiplier
/// is exactly zero, whatever the growth factor.
pub proof fn law_dead_zone(tw: int, growth: int)
    requires
        NEUTRAL <= tw <= BONUS_GATE,
    ensures
        multiplier(tw, growth) == 0,
{
}

/// Below 90 the multiplier is exactly the negated cap, whatever the growth
/// factor.
pub proof fn law_capped_below_ninety(tw: int, growth: int)
    requires
        tw < 90 * ONE,
    ensures
        multiplier(tw, growth) == -PENALTY_CAP,
{
    lemma_cap_reached(tw);
}

/// Below neutral the multiplier is the negated cap exactly when the raw
/// penalty has reached the cap, which is exactly when `tw` lies at least
/// [`CAP_DISTANCE`] below neutral. Nearer to neutral it is the negated raw
/// penalty, strictly between the negated cap and zero.
pub proof fn law_cap_crossover(tw: int, growth: int)
    requires
        tw < NEUTRAL,
    ensures
        multiplier(tw, growth) == -PENALTY_CAP <==> penalty_raw(tw) >= PENALTY_CAP,
        multiplier(tw, growth) == -PENALTY_CAP <==> tw <= NEUTRAL - CAP_DISTANCE,
        tw > NEUTRAL - CAP_DISTANCE ==> multiplier(tw, growth) == -penalty_raw(tw)
            && -PENALTY_CAP < multiplier(tw, growth) < 0,
{
    if tw <= NEUTRAL - CAP_DISTANCE {
        lemma_cap_reached(tw);
    } else {
        lemma_cap_not_reached(tw);
    }
}

/// The multiplier is never below the negated cap. With a positive growth
/// factor, as every power of 1.02 is, it is negative exactly below neutral,
/// zero exactly from neutral to the bonus gate, and positive exactly above
/// the bonus gate.
pub proof fn law_sign(tw: int, growth: nat)
    requires
        growth > 0,
    ensures
        multiplier(tw, growth as int) >= -PENALTY_CAP,
        multiplier(tw, growth as int) < 0 <==> tw < NEUTRAL,
        multiplier(tw, growth as int) == 0 <==> NEUTRAL <= tw <= BONUS_GATE,
        multiplier(tw, growth as int) > 0 <==> tw > BONUS_GATE,
{
    lemma_penalty_raw_sign(tw);
    if tw > BONUS_GATE {
        let q = tw - NEUTRAL;
        assert(q * growth > 0) by (nonlinear_arith)
            requires
                q > 0,
                growth > 0,
        ;
        assert(BONUS_DIVISOR * ONE == 150_000_000_000_000);
        lemma_in_units_monotone(q * growth, q * growth, 150_000_000_000_000);
    }
}

/// Above the bonus gate, with a growth factor of at least [`GATE_GROWTH`],
/// the multiplier exceeds [`BONUS_FLOOR`]: no bonus between zero and 0.0198
/// is ever awarded.
pub proof fn law_bonus_floor(tw: int, growth: nat)
    requires
        tw > BONUS_GATE,
        growth >= GATE_GROWTH,
    ensures
        multiplier(tw, growth as int) > BONUS_FLOOR,
{
    let q = tw - NEUTRAL;
    assert(q * growth >= 3_000_000_000_001 * 992_110_237_937) by (nonlinear_arith)
        requires
            q >= 3_000_000_000_001,
            growth >= 992_110_237_937,
    ;
    assert(BONUS_DIVISOR * ONE == 150_000_000_000_000);
}

/// The penalty and the bonus never apply together: for every `tw` at least
/// one of the two terms is zero.
pub proof fn law_terms_exclusive(tw: int, growth: int)
    ensures
        penalty_applied(tw) == 0 || bonus_applied(tw, growth) == 0,
{
}

/// The growth exponent does not fall as `tw` rises.
pub proof fn law_growth_exponent_monotone(lo: int, hi: int)
    requires
        lo <= hi,
    ensures
        growth_exponent_of(lo) <= growth_exponent_of(hi),
{
}

/// The multiplier does not fall when `tw` rises and the growth factor does
/// not fall.
pub proof fn law_multiplier_monotone(lo: int, growth_lo: nat, hi: int, growth_hi: nat)
    requires
        lo <= hi,
        growth_lo <= growth_hi,
    ensures
        multiplier(lo, growth_lo as int) <= multiplier(hi, growth_hi as int),
{
    lemma_penalty_raw_sign(lo);
    lemma_penalty_raw_sign(hi);
    if hi < NEUTRAL {
        lemma_penalty_raw_monotone(lo, hi);
    } else if lo > BONUS_GATE {
        lemma_bonus_raw_monotone(lo, growth_lo, hi, growth_hi);
    } else if hi > BONUS_GATE {
        lemma_bonus_raw_monotone(hi, growth_hi, hi, growth_hi);
    }
}

/// With the growth factor taken from any power function that does not fall
/// as its exponent rises, the multiplier does not fall as `tw` rises.
pub proof fn law_monotone_under_power(power: spec_fn(int) -> nat, lo: int, hi: int)
    requires
        forall|a: int, b: int| a <= b ==> #[trigger] power(a) <= #[trigger] power(b),
        lo <= hi,
    ensures
        multiplier(lo, power(growth_exponent_of(lo)) as int) <= multiplier(
            hi,
            power(growth_exponent_of(hi)) as int,
        ),
{
    law_growth_exponent_monotone(lo, hi);
    law_multiplier_monotone(
        lo,
        power(growth_exponent_of(lo)),
        hi,
        power(growth_exponent_of(hi)),
    );
}

} // verus!
