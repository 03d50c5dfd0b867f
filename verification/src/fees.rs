use vstd::prelude::*;
use vstd::arithmetic::div_mod::{lemma_div_is_ordered, lemma_div_multiples_vanish};
use vstd::arithmetic::mul::lemma_mul_inequality;
use crate::error::ErrorCode;

verus! {

/// The marketplace fee for a sale: `floor(price * fee_bps / 10_000)`, in
/// mathematical integers. `fee_bps` is a rate in basis points.
pub open spec fn spec_fee(price: u64, fee_bps: u16) -> int {
    (price * fee_bps) / 10000
}

/// The seller's share of a sale: the price minus the fee.
pub open spec fn spec_seller_amount(price: u64, fee_bps: u16) -> int {
    price - spec_fee(price, fee_bps)
}

/// The fee computation stays within machine bounds iff the product
/// `price * fee_bps` fits in a `u64`.
pub open spec fn fee_computable(price: u64, fee_bps: u16) -> bool {
    price * fee_bps <= u64::MAX
}

/// A fee rate never exceeding 10_000 basis points keeps the fee within the
/// price, so the seller amount never underflows.
pub proof fn lemma_fee_le_price(price: u64, fee_bps: u16)
    requires
        fee_bps <= 10000,
    ensures
        0 <= spec_fee(price, fee_bps) <= price,
{
    lemma_mul_inequality(fee_bps as int, 10000, price as int);
    lemma_div_is_ordered(price * fee_bps, price * 10000, 10000);
    lemma_div_multiples_vanish(price as int, 10000);
}

/// Settlement conservation: for every price and in-bounds fee rate, the fee
/// and the seller amount partition the price exactly — no currency is
/// created or destroyed by the split.
pub proof fn lemma_settlement_conservation(price: u64, fee_bps: u16)
    requires
        fee_bps <= 10000,
    ensures
        spec_fee(price, fee_bps) + spec_seller_amount(price, fee_bps) == price,
        0 <= spec_fee(price, fee_bps) <= price,
        0 <= spec_seller_amount(price, fee_bps) <= price,
{
    lemma_fee_le_price(price, fee_bps);
}

/// A zero fee rate yields a zero fee, so the seller receives the whole
/// price.
pub proof fn lemma_zero_fee(price: u64)
    ensures
        spec_fee(price, 0) == 0,
        spec_seller_amount(price, 0) == price,
{
}

/// Splits a price into the marketplace fee and the seller amount, using
/// checked integer arithmetic. Fails with `ArithmeticOverflow` exactly when
/// `price * fee_bps` does not fit in a `u64`.
pub fn fee_split(price: u64, fee_bps: u16) -> (r: Result<(u64, u64), ErrorCode>)
    requires
        fee_bps <= 10000,
    ensures
        match r {
            Ok((fee, seller)) => {
                &&& fee_computable(price, fee_bps)
                &&& fee == spec_fee(price, fee_bps)
                &&& seller == spec_seller_amount(price, fee_bps)
                &&& fee + seller == price
            },
            Err(e) => {
                &&& e == ErrorCode::ArithmeticOverflow
                &&& !fee_computable(price, fee_bps)
            },
        },
{
    match price.checked_mul(fee_bps as u64) {
        Some(product) => {
            let fee = product / 10000;
            proof {
                lemma_fee_le_price(price, fee_bps);
            }
            let seller = price - fee;
            Ok((fee, seller))
        },
        None => Err(ErrorCode::ArithmeticOverflow),
    }
}

} // verus!
