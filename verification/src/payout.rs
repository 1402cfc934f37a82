//! The settlement arithmetic: guess distance, platform fee, and the exact
//! split of an odd remainder.

use vstd::prelude::*;
use vstd::arithmetic::div_mod::{lemma_div_is_ordered, lemma_div_multiples_vanish};
use vstd::arithmetic::mul::{lemma_mul_inequality, lemma_mul_is_commutative, lemma_mul_nonnegative};

verus! {

/// Unsigned distance between a guess and the drawn number.
pub open spec fn abs_diff(a: int, b: int) -> int {
    if a >= b {
        a - b
    } else {
        b - a
    }
}

/// The platform's cut of a pot: `floor(pot * percent / 100)`.
pub open spec fn fee_of(pot: int, percent: int) -> int {
    pot * percent / 100
}

/// For every fee percent in [0, 100] and every pot, the platform fee is a
/// flooring fraction of the pot, it never exceeds the pot, and fee plus
/// remainder reassemble the pot exactly.
pub proof fn lemma_fee_conservation(pot: int, percent: int)
    requires
        0 <= pot,
        0 <= percent <= 100,
    ensures
        0 <= fee_of(pot, percent) <= pot,
        fee_of(pot, percent) + (pot - fee_of(pot, percent)) == pot,
{
    lemma_mul_nonnegative(pot, percent);
    lemma_div_is_ordered(0, pot * percent, 100);
    lemma_mul_inequality(percent, 100, pot);
    lemma_mul_is_commutative(pot, percent);
    lemma_mul_is_commutative(100, pot);
    lemma_div_is_ordered(pot * percent, 100 * pot, 100);
    lemma_div_multiples_vanish(pot, 100);
}

/// On a tie the remainder is split in half, and when it is odd the leftover
/// unit goes with the first participant's half: the two halves reassemble
/// the remainder exactly.
pub proof fn lemma_tie_split_exact(remaining: int)
    requires
        0 <= remaining,
    ensures
        (remaining - remaining / 2) + remaining / 2 == remaining,
        remaining % 2 == 1 ==> remaining - remaining / 2 == remaining / 2 + 1,
        remaining % 2 == 0 ==> remaining - remaining / 2 == remaining / 2,
{
}

/// Computes `floor(pot * percent / 100)` by widening, so no pot can overflow
/// the multiplication.
pub fn platform_fee_amount(pot: u64, percent: u8) -> (r: u64)
    requires
        percent <= 100,
    ensures
        r == fee_of(pot as int, percent as int),
        r <= pot,
{
    proof {
        lemma_fee_conservation(pot as int, percent as int);
    }
    let wide: u128 = (pot as u128) * (percent as u128) / 100;
    wide as u64
}

} // verus!
