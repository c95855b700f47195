//! The pricing of the two-way swap between STKN and PUSD.

use vstd::prelude::*;

verus! {

/// The factor by which a price is scaled: a price of `NORMAL_DECIMAL` is 1.
pub const NORMAL_DECIMAL: u128 = 1_000_000;

/// PUSD paid for `amount` STKN: the caller's `expected` where it converts
/// back to exactly `amount`, else the product with the price, rounded down.
pub open spec fn pusd_for_stkn(price: nat, amount: nat, expected: nat) -> nat
    recommends
        price > 0,
{
    if (expected * NORMAL_DECIMAL as nat) / price == amount {
        expected
    } else {
        (price * amount) / (NORMAL_DECIMAL as nat)
    }
}

/// STKN paid for `amount` PUSD: the caller's `expected` where it converts
/// back to exactly `amount`, else the quotient by the price, rounded down.
pub open spec fn stkn_for_pusd(price: nat, amount: nat, expected: nat) -> nat
    recommends
        price > 0,
{
    if (price * expected) / (NORMAL_DECIMAL as nat) == amount {
        expected
    } else {
        (amount * NORMAL_DECIMAL as nat) / price
    }
}

/// The products of a swap from STKN to PUSD fit, and the price is not zero.
pub open spec fn stkn_swap_defined(price: nat, amount: nat, expected: nat) -> bool {
    price > 0 && price * amount <= u128::MAX && expected * NORMAL_DECIMAL as nat <= u128::MAX
}

/// The products of a swap from PUSD to STKN fit, and the price is not zero.
pub open spec fn pusd_swap_defined(price: nat, amount: nat, expected: nat) -> bool {
    price > 0 && amount * NORMAL_DECIMAL as nat <= u128::MAX && price * expected <= u128::MAX
}

/// Whether `a * b` fits in 128 bits.
pub fn product_fits(a: u128, b: u128) -> (r: bool)
    ensures
        r == (a * b <= u128::MAX),
{
    if a == 0 || b == 0 {
        assert(a * b == 0) by (nonlinear_arith)
            requires
                a == 0 || b == 0,
        ;
        true
    } else {
        let q: u128 = u128::MAX / b;
        proof {
            lemma_product_bound(a as nat, b as nat, u128::MAX as nat);
        }
        a <= q
    }
}

/// For positive `b`, `a * b <= m` exactly when `a <= m / b`.
pub proof fn lemma_product_bound(a: nat, b: nat, m: nat)
    requires
        b > 0,
    ensures
        (a * b <= m) == (a <= m / b),
{
    assert((a * b <= m) == (a <= m / b)) by (nonlinear_arith)
        requires
            b > 0,
    ;
}

/// Whether a swap of `amount` STKN can be priced.
pub fn can_swap_stkn(price: u128, amount: u128, expected: u128) -> (r: bool)
    ensures
        r == stkn_swap_defined(price as nat, amount as nat, expected as nat),
{
    price > 0 && product_fits(price, amount) && product_fits(expected, NORMAL_DECIMAL)
}

/// Whether a swap of `amount` PUSD can be priced.
pub fn can_swap_pusd(price: u128, amount: u128, expected: u128) -> (r: bool)
    ensures
        r == pusd_swap_defined(price as nat, amount as nat, expected as nat),
{
    price > 0 && product_fits(amount, NORMAL_DECIMAL) && product_fits(price, expected)
}

/// The PUSD to mint for `amount` STKN.
pub fn swap_stkn_to_pusd(price: u128, amount: u128, expected: u128) -> (out: u128)
    requires
        stkn_swap_defined(price as nat, amount as nat, expected as nat),
    ensures
        out == pusd_for_stkn(price as nat, amount as nat, expected as nat),
{
    let floor: u128 = price * amount / NORMAL_DECIMAL;
    if expected * NORMAL_DECIMAL / price == amount {
        expected
    } else {
        floor
    }
}

/// The STKN to pay out for `amount` PUSD.
pub fn swap_pusd_to_stkn(price: u128, amount: u128, expected: u128) -> (out: u128)
    requires
        pusd_swap_defined(price as nat, amount as nat, expected as nat),
    ensures
        out == stkn_for_pusd(price as nat, amount as nat, expected as nat),
{
    let floor: u128 = amount * NORMAL_DECIMAL / price;
    if price * expected / NORMAL_DECIMAL == amount {
        expected
    } else {
        floor
    }
}

} // verus!
