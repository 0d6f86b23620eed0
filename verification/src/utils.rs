//! Basis-point fee arithmetic: the fee splitter used by every join.

use vstd::prelude::*;
use vstd::arithmetic::div_mod::{lemma_div_is_ordered, lemma_div_by_multiple};
use vstd::arithmetic::mul::lemma_mul_inequality;

verus! {

/// The basis-point denominator: 10_000 bps equal the whole amount.
pub const BPS_DENOMINATOR: u64 = 10_000;

/// The fee taken from `amount` at `bps` basis points, rounded down.
pub open spec fn fee_of(amount: u64, bps: u64) -> int {
    (amount * bps) / (BPS_DENOMINATOR as int)
}

/// The part of `amount` that remains once the fee is taken.
pub open spec fn applied_of(amount: u64, bps: u64) -> int {
    amount - fee_of(amount, bps)
}

/// Multiply `amount` by `bps / denominator`, rounding down; `None` exactly
/// when the multiplication would overflow.
pub fn bps_mul(bps: u64, amount: u64, denominator: u64) -> (r: Option<u64>)
    requires
        denominator != 0,
    ensures
        amount * bps <= u64::MAX ==> r == Some((((amount * bps) as int / (denominator as int)) as u64)),
        amount * bps > u64::MAX ==> r is None,
{
    match amount.checked_mul(bps) {
        Some(product) => {
            proof {
                lemma_div_is_ordered(0, product as int, denominator as int);
                lemma_div_is_ordered(product as int, u64::MAX as int, denominator as int);
            }
            Some(product / denominator)
        },
        None => None,
    }
}

/// The fee never exceeds the amount, and fee plus remainder reassemble the
/// amount exactly, whenever the rate is a valid basis-point value.
pub proof fn lemma_fee_split(amount: u64, bps: u64)
    requires
        bps <= 10_000,
    ensures
        0 <= fee_of(amount, bps) <= amount,
        fee_of(amount, bps) + applied_of(amount, bps) == amount,
{
    lemma_mul_inequality(bps as int, 10_000, amount as int);
    assert(amount * bps == bps * amount) by (nonlinear_arith);
    assert(amount * 10_000 == 10_000 * amount) by (nonlinear_arith);
    lemma_div_is_ordered(0, (amount * bps) as int, 10_000);
    lemma_div_is_ordered((amount * bps) as int, (amount * 10_000) as int, 10_000);
    lemma_div_by_multiple(amount as int, 10_000);
}

} // verus!
