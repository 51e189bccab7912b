//! The fee engine: what a loan costs.
//!
//! The fee is a fixed share of the amount, counted in basis points and
//! rounded down. Rounding down is part of the protocol: a loan of fewer than
//! twenty units costs nothing.

use vstd::prelude::*;
use crate::error::ProtocolError;

verus! {

/// The fee rate in basis points: five percent.
pub const FEE_BPS: u64 = 500;

/// How many basis points make the whole.
pub const BPS_DENOMINATOR: u64 = 10_000;

/// The fee owed on `amount`: the rate applied to it, rounded down.
pub open spec fn fee_of(amount: nat) -> nat {
    amount * 500 / 10_000
}

/// What a borrower of `amount` must return: the amount and its fee.
pub open spec fn total_of(amount: nat) -> nat {
    amount + fee_of(amount)
}

/// What a borrower of `amount` must return, as the protocol computes it in
/// 64 bits: the sum where it fits, and `Overflow` where it does not.
pub open spec fn total_due_of(amount: u64) -> Result<u64, ProtocolError> {
    if total_of(amount as nat) <= u64::MAX {
        Ok(total_of(amount as nat) as u64)
    } else {
        Err(ProtocolError::Overflow)
    }
}

/// The fee is at most a twentieth of the amount, so it fits wherever the
/// amount fits.
pub proof fn lemma_fee_bound(amount: nat)
    ensures
        20 * fee_of(amount) <= amount,
        fee_of(amount) <= amount,
{
}

/// For every amount up to a thousandth of the largest 64-bit number, the
/// total owed is the amount and its fee, and computing it does not overflow.
pub proof fn lemma_total_fits(amount: u64)
    requires
        amount <= u64::MAX / 1000,
    ensures
        fee_of(amount as nat) == (amount as nat) * 500 / 10_000,
        total_due_of(amount) == Ok::<u64, ProtocolError>((amount + fee_of(amount as nat)) as u64),
        amount + fee_of(amount as nat) <= u64::MAX,
{
    lemma_fee_bound(amount as nat);
}

/// Computes the fee owed on `amount`. The product is taken in 128 bits, and
/// the quotient is proved to fit in 64.
pub fn fee(amount: u64) -> (f: u64)
    ensures
        f == fee_of(amount as nat),
{
    assert(amount * FEE_BPS <= u64::MAX * 500) by (nonlinear_arith)
        requires
            amount <= u64::MAX,
            FEE_BPS == 500,
    ;
    let wide: u128 = (amount as u128) * (FEE_BPS as u128) / (BPS_DENOMINATOR as u128);
    proof {
        lemma_fee_bound(amount as nat);
    }
    wide as u64
}

/// Computes what a borrower of `amount` must return, or `Overflow` where the
/// sum does not fit in 64 bits.
pub fn total_due(amount: u64) -> (r: Result<u64, ProtocolError>)
    ensures
        r == total_due_of(amount),
{
    let f = fee(amount);
    match amount.checked_add(f) {
        Some(total) => Ok(total),
        None => Err(ProtocolError::Overflow),
    }
}

} // verus!
