//! The split of a sale price between the seller and the treasury.
use vstd::prelude::*;

use crate::state::ErrorCode;
use crate::{BASIS_POINTS_DENOMINATOR, MAX_FEE_BASIS_POINTS};

verus! {

/// How a sale price is divided.
#[derive(Clone, Copy, Debug, PartialEq, Eq, Structural)]
pub struct FeeSplit {
    pub seller_amount: u64,
    pub fee_amount: u64,
}

/// The fee on `price`: `price * fee_basis_points / 10000`, rounded down.
pub open spec fn fee_of(price: u64, fee_basis_points: u16) -> int {
    (price * fee_basis_points) / (BASIS_POINTS_DENOMINATOR as int)
}

/// The split fails when the product overflows 64 bits, or when the fee
/// would exceed the price.
pub open spec fn split_fails(price: u64, fee_basis_points: u16) -> bool {
    price * fee_basis_points > u64::MAX || fee_of(price, fee_basis_points) > price
}

/// Computes the marketplace fee on `price` and what is left for the seller,
/// with every step checked for overflow.
pub fn compute_fee_split(price: u64, fee_basis_points: u16) -> (r: Result<FeeSplit, ErrorCode>)
    ensures
        match r {
            Ok(s) => {
                &&& !split_fails(price, fee_basis_points)
                &&& s.fee_amount == fee_of(price, fee_basis_points)
                &&& s.seller_amount == price - fee_of(price, fee_basis_points)
            },
            Err(e) => e == ErrorCode::MathOverflow && split_fails(price, fee_basis_points),
        },
{
    let product = match price.checked_mul(fee_basis_points as u64) {
        Some(p) => p,
        None => return Err(ErrorCode::MathOverflow),
    };
    let fee_amount = product / BASIS_POINTS_DENOMINATOR;
    match price.checked_sub(fee_amount) {
        Some(seller_amount) => Ok(FeeSplit { seller_amount, fee_amount }),
        None => Err(ErrorCode::MathOverflow),
    }
}

/// For every fee rate the marketplace accepts, the fee never exceeds the
/// price, so the split succeeds whenever `price * fee_basis_points` fits in
/// 64 bits, and the seller's share and the fee add up to the price.
pub proof fn lemma_split_adds_up(price: u64, fee_basis_points: u16)
    requires
        fee_basis_points <= MAX_FEE_BASIS_POINTS,
        price * fee_basis_points <= u64::MAX,
    ensures
        !split_fails(price, fee_basis_points),
        0 <= fee_of(price, fee_basis_points) <= price,
        (price - fee_of(price, fee_basis_points)) + fee_of(price, fee_basis_points) == price,
{
    let p = price as int;
    let f = fee_basis_points as int;
    assert(0 <= (p * f) / 10000 <= p) by (nonlinear_arith)
        requires
            0 <= p,
            0 <= f <= 1000,
    ;
}

} // verus!
