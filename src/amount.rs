//! 256-bit unsigned amounts, held as four little-endian 64-bit limbs.
//! All arithmetic on them is done by ruint's `U256`.
use stylus_sdk::alloy_primitives::U256;
use vstd::prelude::*;

verus! {

/// The weight of one limb: 2^64.
pub open spec fn limb_base() -> nat {
    0x1_0000_0000_0000_0000nat
}

/// 2^256: every amount is below it.
pub open spec fn amount_modulus() -> nat {
    limb_base() * limb_base() * limb_base() * limb_base()
}

/// An unsigned 256-bit integer; `l0` is the least significant limb.
#[derive(Clone, Copy, Debug, PartialEq, Eq, Structural)]
pub struct Amount {
    l0: u64,
    l1: u64,
    l2: u64,
    l3: u64,
}

impl Amount {
    /// The integer this amount stands for.
    pub closed spec fn value(self) -> nat {
        self.l0 as nat + self.l1 as nat * limb_base() + self.l2 as nat * (limb_base()
            * limb_base()) + self.l3 as nat * (limb_base() * limb_base() * limb_base())
    }

    pub fn zero() -> (r: Amount)
        ensures
            r.value() == 0,
    {
        Amount { l0: 0, l1: 0, l2: 0, l3: 0 }
    }

    pub fn from_u64(x: u64) -> (r: Amount)
        ensures
            r.value() == x as nat,
    {
        Amount { l0: x, l1: 0, l2: 0, l3: 0 }
    }

    /// Builds an amount from its limbs, least significant first.
    pub fn from_limbs(l0: u64, l1: u64, l2: u64, l3: u64) -> (r: Amount)
        ensures
            r.value() == l0 as nat + l1 as nat * limb_base() + l2 as nat * (limb_base()
                * limb_base()) + l3 as nat * (limb_base() * limb_base() * limb_base()),
    {
        Amount { l0, l1, l2, l3 }
    }

    /// The limbs, least significant first.
    pub fn limbs(&self) -> (r: (u64, u64, u64, u64))
        ensures
            self.value() == r.0 as nat + r.1 as nat * limb_base() + r.2 as nat * (limb_base()
                * limb_base()) + r.3 as nat * (limb_base() * limb_base() * limb_base()),
    {
        (self.l0, self.l1, self.l2, self.l3)
    }
}

/// Every amount is below 2^256.
pub proof fn lemma_value_bound(a: Amount)
    ensures
        a.value() < amount_modulus(),
{
    let b = limb_base();
    let (x0, x1, x2, x3) = (a.l0 as nat, a.l1 as nat, a.l2 as nat, a.l3 as nat);
    assert(x0 + x1 * b < b * b) by (nonlinear_arith)
        requires
            x0 < b,
            x1 < b,
    ;
    assert(x0 + x1 * b + x2 * (b * b) < b * b * b) by (nonlinear_arith)
        requires
            x0 + x1 * b < b * b,
            x2 < b,
    ;
    assert(x0 + x1 * b + x2 * (b * b) + x3 * (b * b * b) < b * b * b * b) by (nonlinear_arith)
        requires
            x0 + x1 * b + x2 * (b * b) < b * b * b,
            x3 < b,
    ;
}

/// Relies on ruint's `Uint::checked_add`: the sum, or `None` when it does not
/// fit in 256 bits.
#[verifier::external_body]
pub(crate) fn checked_add(a: Amount, b: Amount) -> (r: Option<Amount>)
    ensures
        r.is_some() <==> a.value() + b.value() < amount_modulus(),
        r matches Some(c) ==> c.value() == a.value() + b.value(),
{
    let x = U256::from_limbs([a.l0, a.l1, a.l2, a.l3]);
    let y = U256::from_limbs([b.l0, b.l1, b.l2, b.l3]);
    match x.checked_add(y) {
        Some(c) => {
            let l = c.into_limbs();
            Some(Amount { l0: l[0], l1: l[1], l2: l[2], l3: l[3] })
        },
        None => None,
    }
}

/// Relies on ruint's `Uint::checked_sub`: the difference, or `None` when `b`
/// exceeds `a`.
#[verifier::external_body]
pub(crate) fn checked_sub(a: Amount, b: Amount) -> (r: Option<Amount>)
    ensures
        r.is_some() <==> b.value() <= a.value(),
        r matches Some(c) ==> c.value() == a.value() - b.value(),
{
    let x = U256::from_limbs([a.l0, a.l1, a.l2, a.l3]);
    let y = U256::from_limbs([b.l0, b.l1, b.l2, b.l3]);
    match x.checked_sub(y) {
        Some(c) => {
            let l = c.into_limbs();
            Some(Amount { l0: l[0], l1: l[1], l2: l[2], l3: l[3] })
        },
        None => None,
    }
}

/// Relies on ruint's `Uint::checked_mul`: the product, or `None` when it does
/// not fit in 256 bits.
#[verifier::external_body]
pub(crate) fn checked_mul(a: Amount, b: Amount) -> (r: Option<Amount>)
    ensures
        r.is_some() <==> a.value() * b.value() < amount_modulus(),
        r matches Some(c) ==> c.value() == a.value() * b.value(),
{
    let x = U256::from_limbs([a.l0, a.l1, a.l2, a.l3]);
    let y = U256::from_limbs([b.l0, b.l1, b.l2, b.l3]);
    match x.checked_mul(y) {
        Some(c) => {
            let l = c.into_limbs();
            Some(Amount { l0: l[0], l1: l[1], l2: l[2], l3: l[3] })
        },
        None => None,
    }
}

/// Relies on ruint's `Uint::checked_div`: the quotient rounded down, or
/// `None` when `b` is zero.
#[verifier::external_body]
pub(crate) fn checked_div(a: Amount, b: Amount) -> (r: Option<Amount>)
    ensures
        r.is_some() <==> b.value() != 0,
        r matches Some(c) ==> c.value() == a.value() / b.value(),
{
    let x = U256::from_limbs([a.l0, a.l1, a.l2, a.l3]);
    let y = U256::from_limbs([b.l0, b.l1, b.l2, b.l3]);
    match x.checked_div(y) {
        Some(c) => {
            let l = c.into_limbs();
            Some(Amount { l0: l[0], l1: l[1], l2: l[2], l3: l[3] })
        },
        None => None,
    }
}

/// Relies on ruint's `Uint::is_zero`.
#[verifier::external_body]
pub(crate) fn is_zero(a: Amount) -> (r: bool)
    ensures
        r == (a.value() == 0),
{
    U256::from_limbs([a.l0, a.l1, a.l2, a.l3]).is_zero()
}

/// Relies on ruint's `PartialOrd::gt` for `Uint`, which orders by value.
#[verifier::external_body]
pub(crate) fn greater_than(a: Amount, b: Amount) -> (r: bool)
    ensures
        r == (a.value() > b.value()),
{
    U256::from_limbs([a.l0, a.l1, a.l2, a.l3]) > U256::from_limbs([b.l0, b.l1, b.l2, b.l3])
}

} // verus!
