//! Shares stated in basis points.

use vstd::arithmetic::div_mod::{lemma_div_is_ordered, lemma_div_multiples_vanish};
use vstd::arithmetic::mul::lemma_mul_inequality;
use vstd::prelude::*;

use crate::error::ProgramError;

verus! {

/// How many basis points make the whole.
pub const BASIS_POINTS: u64 = 10_000;

/// The share of `amount` at a rate of `basis_points`, rounded down. There is
/// none where the product of the two leaves the 64-bit domain.
pub open spec fn share_of(amount: u64, basis_points: u16) -> Result<u64, ProgramError> {
    if amount * basis_points > u64::MAX {
        Err(ProgramError::ArithmeticOverflow)
    } else {
        Ok(((amount * basis_points) / (BASIS_POINTS as int)) as u64)
    }
}

/// A rate of at most the whole gives a share of at most the amount.
pub proof fn lemma_share_within_amount(amount: u64, basis_points: u16)
    requires
        basis_points <= BASIS_POINTS,
    ensures
        (amount * basis_points) / (BASIS_POINTS as int) <= amount,
{
    lemma_mul_inequality(basis_points as int, BASIS_POINTS as int, amount as int);
    assert(amount * basis_points == basis_points * amount) by (nonlinear_arith);
    assert(BASIS_POINTS * amount == amount * BASIS_POINTS) by (nonlinear_arith);
    lemma_div_is_ordered(amount * basis_points, amount * BASIS_POINTS, BASIS_POINTS as int);
    lemma_div_multiples_vanish(amount as int, BASIS_POINTS as int);
}

/// Computes the share of `amount` at a rate of `basis_points`.
pub fn compute_share(amount: u64, basis_points: u16) -> (result: Result<u64, ProgramError>)
    ensures
        result == share_of(amount, basis_points),
{
    match amount.checked_mul(basis_points as u64) {
        Some(product) => Ok(product / BASIS_POINTS),
        None => Err(ProgramError::ArithmeticOverflow),
    }
}

} // verus!
