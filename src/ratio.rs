use vstd::prelude::*;
use crate::state::{borrow_ceiling, RATIO_DENOMINATOR};

verus! {

/// Relies on cosmwasm_std::Uint128::checked_multiply_ratio: it returns the floor
/// of `value * numerator / denominator`, computed without intermediate
/// overflow, and an error when the denominator is zero or the quotient does
/// not fit in 128 bits.
#[verifier::external_body]
fn checked_multiply_ratio(value: u128, numerator: u128, denominator: u128) -> (r: Option<u128>)
    ensures
        denominator == 0 ==> r is None,
        denominator != 0 ==> (r is Some <==> (value as int * numerator as int) / (denominator as int) <= u128::MAX),
        r matches Some(q) ==> q as int == (value as int * numerator as int) / (denominator as int),
{
    cosmwasm_std::Uint128::new(value).checked_multiply_ratio(numerator, denominator).ok().map(|q| q.u128())
}

/// The borrow ceiling of `staked` units of collateral at `ratio` percent, or
/// `None` when the ceiling lies beyond the range of `u128` (no amount that can
/// be owed reaches it then).
pub fn max_borrow(staked: u128, ratio: u128) -> (r: Option<u128>)
    ensures
        r is Some <==> borrow_ceiling(staked, ratio) <= u128::MAX,
        r matches Some(c) ==> c as int == borrow_ceiling(staked, ratio),
{
    checked_multiply_ratio(staked, ratio, RATIO_DENOMINATOR)
}

/// What a borrow ceiling says of the amount owed: owing no more than the
/// ceiling is owing no more than the stake times the ratio, over the
/// denominator, without rounding.
pub proof fn lemma_within_ceiling(owed: u128, staked: u128, ratio: u128)
    ensures
        owed as int <= borrow_ceiling(staked, ratio)
            <==> owed as int * RATIO_DENOMINATOR as int <= staked as int * ratio as int,
{
    let p = staked as int * ratio as int;
    let d = RATIO_DENOMINATOR as int;
    assert(p >= 0) by (nonlinear_arith)
        requires
            staked >= 0,
            ratio >= 0,
            p == staked as int * ratio as int,
    ;
    assert((p / d) * d <= p && p < (p / d) * d + d) by (nonlinear_arith)
        requires
            d == 100,
            p >= 0,
    ;
    if owed as int <= p / d {
        assert(owed as int * d <= (p / d) * d) by (nonlinear_arith)
            requires
                owed as int <= p / d,
                d == 100,
        ;
    } else {
        assert(owed as int * d >= (p / d + 1) * d) by (nonlinear_arith)
            requires
                owed as int >= p / d + 1,
                d == 100,
        ;
    }
}

} // verus!
