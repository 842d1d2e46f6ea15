//! Fee arithmetic: from a rate in basis points to the share of a price that
//! is owed to the network, and what is left for the seller.

use crate::outside::{checked_sub, mul_decimal, DECIMAL_FRACTIONAL};
use crate::types::Decimal;
use vstd::arithmetic::div_mod::{lemma_div_multiples_vanish_quotient, lemma_hoist_over_denominator};
use vstd::arithmetic::mul::{lemma_mul_is_associative, lemma_mul_is_commutative};
use vstd::prelude::*;

verus! {

/// The number of basis points in one whole.
pub const BPS_PER_WHOLE: u64 = 10_000;

/// The atomic units of one basis point.
pub const ATOMICS_PER_BPS: u128 = 100_000_000_000_000u128;

/// The network's share of a price at a rate in basis points, rounded down.
pub open spec fn network_fee_of(price: u128, bps: u64) -> int {
    (price * bps) / (BPS_PER_WHOLE as int)
}

/// Whether the network's share of a price can be held in 128 bits. It always
/// can while the rate is at most one whole.
pub open spec fn fee_fits(price: u128, bps: u64) -> bool {
    network_fee_of(price, bps) <= u128::MAX
}

/// A share of at most one whole never exceeds the price.
pub proof fn lemma_fee_within_price(price: u128, bps: u64)
    requires
        bps <= BPS_PER_WHOLE,
    ensures
        0 <= network_fee_of(price, bps) <= price,
{
    assert(0 <= (price * bps) / 10_000 <= price) by (nonlinear_arith)
        requires
            0 <= price,
            0 <= bps <= 10_000,
    ;
}

/// Splitting the price into whole ten-thousands and a rest splits the share.
proof fn lemma_fee_by_parts(price: u128, bps: u64)
    ensures
        network_fee_of(price, bps) == (price / 10_000) * bps + ((price % 10_000) * bps) / 10_000,
        0 <= (price % 10_000) * bps <= 10_000 * u64::MAX,
        0 <= (price / 10_000) * bps,
{
    let q = (price / 10_000) as int;
    let r = (price % 10_000) as int;
    let b = bps as int;
    assert(price == q * 10_000 + r);
    assert(price * b == (q * b) * 10_000 + r * b) by (nonlinear_arith)
        requires
            price == q * 10_000 + r,
    ;
    assert(0 <= r * b <= 10_000 * u64::MAX) by (nonlinear_arith)
        requires
            0 <= r < 10_000,
            0 <= b <= u64::MAX,
    ;
    assert(0 <= q * b) by (nonlinear_arith)
        requires
            0 <= q,
            0 <= b,
    ;
    lemma_hoist_over_denominator(r * b, q * b, 10_000);
}

/// Whether the network's share of a price can be held in 128 bits.
pub fn fee_in_range(price: u128, bps: u64) -> (fits: bool)
    ensures
        fits == fee_fits(price, bps),
{
    proof {
        lemma_fee_by_parts(price, bps);
    }
    let whole = (price / 10_000).checked_mul(bps as u128);
    let rest: u128 = (price % 10_000) * (bps as u128) / 10_000;
    match whole {
        None => false,
        Some(w) => w.checked_add(rest).is_some(),
    }
}

/// The rate in basis points as a decimal.
pub fn bps_to_decimal(bps: u64) -> (rate: Decimal)
    ensures
        rate.atomics == bps * ATOMICS_PER_BPS,
{
    assert(bps * 100_000_000_000_000 <= u128::MAX) by (nonlinear_arith)
        requires
            bps <= u64::MAX,
    ;
    Decimal { atomics: (bps as u128) * ATOMICS_PER_BPS }
}

proof fn lemma_fee_in_atomics(price: u128, bps: u64)
    ensures
        (price * (bps * ATOMICS_PER_BPS)) / (DECIMAL_FRACTIONAL as int) == network_fee_of(
            price,
            bps,
        ),
{
    let scale = ATOMICS_PER_BPS as int;
    let a = price * bps;
    assert(DECIMAL_FRACTIONAL as int == scale * 10_000);
    assert(0 <= a) by (nonlinear_arith)
        requires
            a == price * bps,
            0 <= price,
            0 <= bps,
    ;
    lemma_mul_is_associative(price as int, bps as int, scale);
    lemma_mul_is_commutative(a, scale);
    lemma_div_multiples_vanish_quotient(scale, a, 10_000);
}

/// The network's share of a price.
pub fn network_fee(price: u128, bps: u64) -> (fee: u128)
    requires
        fee_fits(price, bps),
    ensures
        fee == network_fee_of(price, bps),
{
    let rate = bps_to_decimal(bps);
    proof {
        lemma_fee_in_atomics(price, bps);
    }
    mul_decimal(price, rate.atomics)
}

/// What is left of a price once the network's share is taken, or nothing
/// where the share is larger than the price.
pub fn seller_amount(price: u128, fee: u128) -> (rest: Option<u128>)
    ensures
        rest == if fee <= price {
            Some((price - fee) as u128)
        } else {
            None
        },
{
    checked_sub(price, fee)
}

} // verus!
