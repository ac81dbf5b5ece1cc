//! The fee engine: how a tip is split between the platform and the creator.
use crate::amount::{amount_modulus, checked_div, checked_mul, checked_sub, Amount};
use crate::error::FactoryError;
use vstd::prelude::*;

verus! {

/// The highest fee rate the owner may set, in basis points (5%).
pub const MAX_FEE_BPS: u64 = 500;

/// Basis points in a whole.
pub const BPS_DENOMINATOR: u64 = 10000;

/// The platform's share of `amount` at `bps` basis points, rounded down.
pub open spec fn fee_of(amount: nat, bps: nat) -> nat {
    amount * bps / (BPS_DENOMINATOR as nat)
}

/// What the creator keeps of `amount` at `bps` basis points.
pub open spec fn net_of(amount: nat, bps: nat) -> int {
    amount - fee_of(amount, bps)
}

/// Whether splitting `amount` at `bps` stays within 256 bits and leaves the
/// creator a non-negative share.
pub open spec fn split_fits(amount: nat, bps: nat) -> bool {
    amount * bps < amount_modulus() && fee_of(amount, bps) <= amount
}

/// A tip split into the platform fee and the creator's net credit.
#[derive(Clone, Copy, Debug, PartialEq, Eq, Structural)]
pub struct FeeSplit {
    pub fee: Amount,
    pub net: Amount,
}

/// Splits `amount` at the rate `bps`: `fee = floor(amount * bps / 10000)` and
/// `net = amount - fee`. Fails with `Overflow` when the product does not fit
/// in 256 bits, or when a rate above 10000 would make the fee exceed the amount.
pub fn compute_fee(amount: Amount, bps: Amount) -> (r: Result<FeeSplit, FactoryError>)
    ensures
        r.is_ok() <==> split_fits(amount.value(), bps.value()),
        r matches Ok(s) ==> s.fee.value() == fee_of(amount.value(), bps.value()) && s.net.value()
            == net_of(amount.value(), bps.value()) && s.fee.value() + s.net.value()
            == amount.value(),
        r matches Err(e) ==> e == FactoryError::Overflow,
{
    let product = match checked_mul(amount, bps) {
        Some(p) => p,
        None => return Err(FactoryError::Overflow),
    };
    let fee = match checked_div(product, Amount::from_u64(BPS_DENOMINATOR)) {
        Some(f) => f,
        None => return Err(FactoryError::Overflow),
    };
    match checked_sub(amount, fee) {
        Some(net) => Ok(FeeSplit { fee, net }),
        None => Err(FactoryError::Overflow),
    }
}

/// At any rate up to the cap the fee never exceeds the amount, so the split
/// succeeds whenever `amount * bps` fits in 256 bits, and fee plus net is
/// exactly the amount: rounding loses nothing.
pub proof fn lemma_fee_split_exact(amount: nat, bps: nat)
    requires
        bps <= MAX_FEE_BPS,
        amount * bps < amount_modulus(),
    ensures
        split_fits(amount, bps),
        fee_of(amount, bps) <= amount,
        fee_of(amount, bps) + net_of(amount, bps) == amount,
{
    assert(amount * bps <= amount * 10000) by (nonlinear_arith)
        requires
            bps <= 500,
    ;
    assert(amount * bps / 10000 <= amount * 10000 / 10000) by (nonlinear_arith)
        requires
            amount * bps <= amount * 10000,
    ;
    assert(amount * 10000 / 10000 == amount) by (nonlinear_arith);
}

} // verus!
