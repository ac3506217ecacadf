//! Percentage–pulse conversion: a validated percentage-open value and the
//! two truncating conversions between it and an absolute pulse count.

use vstd::prelude::*;

use vstd::arithmetic::div_mod::{
    lemma_div_is_ordered, lemma_div_multiples_vanish, lemma_fundamental_div_mod,
};
use vstd::arithmetic::mul::{
    lemma_mul_basics, lemma_mul_inequality, lemma_mul_is_associative, lemma_mul_is_commutative,
};

verus! {

/// The absolute pulse count that a percentage-open value maps to:
/// `percent * max_pulses / 100`, with integer truncation.
pub open spec fn pulses_of_percent(percent: int, max_pulses: int) -> int {
    percent * max_pulses / 100
}

/// The percentage-open value that an absolute pulse count maps to:
/// `pulses * 100 / max_pulses`, with integer truncation.
pub open spec fn percent_of_pulses(pulses: int, max_pulses: int) -> int {
    pulses * 100 / max_pulses
}

/// A percentage-open value, always within 0..=100. Out-of-range raw input
/// never becomes a `Percent`: checked construction rejects it, and the
/// unchecked constructor refuses it by contract.
#[derive(Eq, PartialEq, Copy, Clone, Debug, Structural)]
pub struct Percent {
    value: u8,
}

impl View for Percent {
    type V = int;

    closed spec fn view(&self) -> int {
        self.value as int
    }
}

impl Percent {
    #[verifier::type_invariant]
    closed spec fn in_range(self) -> bool {
        self.value <= 100
    }

    /// Wrap a raw value already known to be a valid percentage.
    pub fn new(value: u8) -> (r: Percent)
        requires
            value <= 100,
        ensures
            r@ == value,
    {
        Percent { value }
    }

    /// Validate a raw value: `Some` exactly when it lies within 0..=100.
    pub fn try_new(value: u8) -> (r: Option<Percent>)
        ensures
            value <= 100 ==> (r matches Some(p) && p@ == value),
            value > 100 ==> r is None,
    {
        if value <= 100 {
            Some(Percent { value })
        } else {
            None
        }
    }

    /// The raw percentage value.
    pub fn value(&self) -> (r: u8)
        ensures
            r == self@,
            r <= 100,
    {
        proof {
            use_type_invariant(&*self);
        }
        self.value
    }
}

/// Convert a percentage-open value to the absolute pulse count it stands
/// for, given the pulse count spanning the whole travel range.
pub fn to_pulses(percent: Percent, max_pulses: u16) -> (r: u16)
    ensures
        r == pulses_of_percent(percent@, max_pulses as int),
        r <= max_pulses,
        percent@ == 0 ==> r == 0,
        percent@ == 100 ==> r == max_pulses,
{
    proof {
        use_type_invariant(&percent);
        lemma_pulses_le_max(percent@, max_pulses as int);
    }
    let wide: u32 = (percent.value as u32) * (max_pulses as u32) / 100;
    wide as u16
}

/// Convert an absolute pulse count back to the percentage-open value it
/// stands for. The pulse count must lie within the travel range, so the
/// result always fits 0..=100.
pub fn to_percent(pulses: u16, max_pulses: u16) -> (r: u16)
    requires
        1 <= max_pulses,
        pulses <= max_pulses,
    ensures
        r == percent_of_pulses(pulses as int, max_pulses as int),
        r <= 100,
{
    proof {
        lemma_percent_le_100(pulses as int, max_pulses as int);
    }
    ((pulses as u32) * 100 / (max_pulses as u32)) as u16
}

/// A percentage maps to a pulse count within the travel range.
pub proof fn lemma_pulses_le_max(percent: int, max_pulses: int)
    requires
        0 <= percent <= 100,
        0 <= max_pulses,
    ensures
        0 <= pulses_of_percent(percent, max_pulses) <= max_pulses,
        percent == 0 ==> pulses_of_percent(percent, max_pulses) == 0,
        percent == 100 ==> pulses_of_percent(percent, max_pulses) == max_pulses,
{
    lemma_mul_basics(max_pulses);
    lemma_mul_inequality(percent, 100, max_pulses);
    lemma_div_is_ordered(percent * max_pulses, 100 * max_pulses, 100);
    lemma_div_multiples_vanish(max_pulses, 100);
    lemma_div_is_ordered(0, percent * max_pulses, 100);
}

/// A pulse count within the travel range maps to a percentage within
/// 0..=100.
pub proof fn lemma_percent_le_100(pulses: int, max_pulses: int)
    requires
        1 <= max_pulses,
        0 <= pulses <= max_pulses,
    ensures
        0 <= percent_of_pulses(pulses, max_pulses) <= 100,
{
    lemma_mul_inequality(pulses, max_pulses, 100);
    lemma_mul_is_commutative(max_pulses, 100);
    lemma_div_is_ordered(pulses * 100, 100 * max_pulses, max_pulses);
    lemma_div_multiples_vanish(100, max_pulses);
    lemma_div_is_ordered(0, pulses * 100, max_pulses);
}

/// Converting a percentage to pulses and back never overstates the opening:
/// the truncating conventions err downward.
pub proof fn lemma_round_trip_le(percent: int, max_pulses: int)
    requires
        0 <= percent <= 100,
        1 <= max_pulses,
    ensures
        percent_of_pulses(pulses_of_percent(percent, max_pulses), max_pulses) <= percent,
{
    let t: int = pulses_of_percent(percent, max_pulses);
    lemma_fundamental_div_mod(percent * max_pulses, 100);
    assert(100 * t <= percent * max_pulses);
    lemma_mul_is_commutative(100, t);
    lemma_mul_is_commutative(percent, max_pulses);
    lemma_div_is_ordered(t * 100, percent * max_pulses, max_pulses);
    lemma_mul_is_commutative(max_pulses, percent);
    lemma_div_multiples_vanish(percent, max_pulses);
}

/// When the travel range is a whole multiple of 100 pulses, the conversion
/// round trip is exact: truncation loses nothing, and every percentage is
/// reachable on the valve.
pub proof fn lemma_round_trip_exact(percent: int, max_pulses: int)
    requires
        0 <= percent <= 100,
        1 <= max_pulses,
        max_pulses % 100 == 0,
    ensures
        percent_of_pulses(pulses_of_percent(percent, max_pulses), max_pulses) == percent,
{
    let k: int = max_pulses / 100;
    lemma_fundamental_div_mod(max_pulses, 100);
    assert(max_pulses == 100 * k);
    assert(percent * max_pulses == 100 * (percent * k)) by {
        lemma_mul_is_associative(percent, 100, k);
        lemma_mul_is_commutative(percent, 100);
        lemma_mul_is_associative(100, percent, k);
    }
    lemma_div_multiples_vanish(percent * k, 100);
    assert(pulses_of_percent(percent, max_pulses) == percent * k);
    assert((percent * k) * 100 == percent * max_pulses) by {
        lemma_mul_is_associative(percent, k, 100);
        lemma_mul_is_commutative(k, 100);
    }
    assert(percent * max_pulses == max_pulses * percent) by {
        lemma_mul_is_commutative(percent, max_pulses);
    }
    lemma_div_multiples_vanish(percent, max_pulses);
}

} // verus!
