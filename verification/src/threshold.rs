use vstd::arithmetic::div_mod::{lemma_div_is_ordered, lemma_div_multiples_vanish};
use vstd::arithmetic::mul::lemma_mul_inequality;
use vstd::prelude::*;

verus! {

/// Numerator of the confirmation fraction this round is configured with.
pub const THRESHOLD_NUMERATOR: usize = 1;

/// Denominator of the confirmation fraction this round is configured with.
pub const THRESHOLD_DENOMINATOR: usize = 2;

/// The floor of `(numerator / denominator) * committee_size`: the least number
/// of key confirmations that lets the next-round seed be released.
pub open spec fn required_confirmations_spec(
    committee_size: int,
    numerator: int,
    denominator: int,
) -> int {
    (numerator * committee_size) / denominator
}

/// Computes the minimum number of confirmations required for a committee of
/// `committee_size` members under the fraction `numerator / denominator`.
/// The result is the floor of the product, so exactly meeting it suffices.
pub fn required_confirmations(committee_size: usize, numerator: usize, denominator: usize) -> (r:
    usize)
    requires
        0 < denominator,
        numerator <= denominator,
    ensures
        r == required_confirmations_spec(
            committee_size as int,
            numerator as int,
            denominator as int,
        ),
        r <= committee_size,
{
    proof {
        lemma_mul_inequality(numerator as int, denominator as int, committee_size as int);
        lemma_div_is_ordered(
            numerator as int * committee_size as int,
            denominator as int * committee_size as int,
            denominator as int,
        );
        lemma_div_multiples_vanish(committee_size as int, denominator as int);
        assert((numerator as int) * (committee_size as int) <= u128::MAX) by (nonlinear_arith)
            requires
                numerator <= u64::MAX,
                committee_size <= u64::MAX,
        ;
    }
    let product: u128 = (numerator as u128) * (committee_size as u128);
    let quotient: u128 = product / (denominator as u128);
    quotient as usize
}

} // verus!
