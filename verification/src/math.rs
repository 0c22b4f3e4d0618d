//! Overflow-checked fee arithmetic.

use vstd::prelude::*;
use crate::error::SwapError;

verus! {

/// Number of basis points that make up the whole amount.
pub const BPS_DENOMINATOR: u64 = 10_000;

/// The fee owed on `amount` at `fee_bps` basis points, rounded down.
pub open spec fn fee_of(amount: u64, fee_bps: u16) -> int {
    (amount * fee_bps) / 10_000
}

/// Whether fee and net amount can be computed within 64 bits: the product
/// fits, and the fee does not exceed the amount.
pub open spec fn fee_computable(amount: u64, fee_bps: u16) -> bool {
    amount * fee_bps <= u64::MAX && fee_of(amount, fee_bps) <= amount
}

/// The split of `amount` into fee and net amount, or the rejection where the
/// two cannot be computed within 64 bits.
pub open spec fn fee_split(amount: u64, fee_bps: u16) -> Result<(u64, u64), SwapError> {
    if fee_computable(amount, fee_bps) {
        Ok((fee_of(amount, fee_bps) as u64, (amount - fee_of(amount, fee_bps)) as u64))
    } else {
        Err(SwapError::MathOverflow)
    }
}

/// Splits `amount` into the fee at `fee_bps` basis points, rounded down, and
/// the net amount that is left.
///
/// Fails with `MathOverflow` exactly when the product of amount and rate
/// leaves the 64-bit range or the fee exceeds the amount.
pub fn compute_fee(amount: u64, fee_bps: u16) -> (r: Result<(u64, u64), SwapError>)
    ensures
        r == fee_split(amount, fee_bps),
        r matches Ok((fee, net)) ==> fee <= amount && fee + net == amount,
{
    let rate: u64 = fee_bps.into();
    let product: u64 = match amount.checked_mul(rate) {
        Some(p) => p,
        None => {
            return Err(SwapError::MathOverflow);
        },
    };
    let fee: u64 = match product.checked_div(BPS_DENOMINATOR) {
        Some(f) => f,
        None => {
            return Err(SwapError::MathOverflow);
        },
    };
    match amount.checked_sub(fee) {
        Some(net) => Ok((fee, net)),
        None => Err(SwapError::MathOverflow),
    }
}

/// At a rate of at most the whole, the fee never exceeds the amount.
pub proof fn lemma_fee_at_most_amount(amount: u64, fee_bps: u16)
    requires
        fee_bps <= 10_000,
    ensures
        0 <= fee_of(amount, fee_bps) <= amount,
{
    let a = amount as int;
    let b = fee_bps as int;
    assert(0 <= a * b <= a * 10_000) by (nonlinear_arith)
        requires
            0 <= a,
            0 <= b <= 10_000,
    ;
    assert((a * b) / 10_000 <= a && 0 <= (a * b) / 10_000) by (nonlinear_arith)
        requires
            0 <= a * b <= a * 10_000,
    ;
}

/// Fee monotonicity: at a rate of at most the whole, and where the product of
/// amount and rate fits in 64 bits, the split succeeds, the fee is at most
/// the amount, and fee and net amount add up to the amount.
pub proof fn lemma_fee_monotonicity(amount: u64, fee_bps: u16)
    requires
        fee_bps <= 10_000,
        amount * fee_bps <= u64::MAX,
    ensures
        fee_split(amount, fee_bps) matches Ok((fee, net)) && fee <= amount && fee + net == amount,
{
    lemma_fee_at_most_amount(amount, fee_bps);
}

/// A zero rate takes no fee, whatever the amount.
pub proof fn lemma_zero_rate(amount: u64)
    ensures
        fee_split(amount, 0) == Ok::<(u64, u64), SwapError>((0u64, amount)),
{
    assert(amount * 0u16 == 0) by (nonlinear_arith);
}

/// A zero amount owes no fee, whatever the rate.
pub proof fn lemma_zero_amount(fee_bps: u16)
    ensures
        fee_split(0, fee_bps) == Ok::<(u64, u64), SwapError>((0u64, 0u64)),
{
    assert(0u64 * fee_bps == 0) by (nonlinear_arith);
}

} // verus!
