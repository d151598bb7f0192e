//! Shared fixed-point arithmetic: scaled multiply-divide, basis-point
//! application, and the 32-bit-precision price conversions.
//!
//! Every function computes a floor quotient over a double-width
//! intermediate product; nothing wraps silently.

use vstd::prelude::*;
use vstd::arithmetic::div_mod::{
    lemma_div_is_ordered, lemma_div_multiples_vanish, lemma_div_pos_is_pos,
    lemma_fundamental_div_mod, lemma_mod_division_less_than_divisor,
};
use vstd::arithmetic::mul::{lemma_mul_inequality, lemma_mul_is_commutative};
use crate::constants::{BASIS_POINTS_100_PERCENT, TWO_POW_32};

verus! {

/// `floor(amount * numerator / denominator)` as an unbounded integer.
pub open spec fn mul_div_spec(amount: u64, numerator: u64, denominator: u64) -> int {
    (amount * numerator) / (denominator as int)
}

/// The quotient exists (denominator is not zero) and fits in 64 bits.
pub open spec fn mul_div_fits(amount: u64, numerator: u64, denominator: u64) -> bool {
    denominator != 0 && mul_div_spec(amount, numerator, denominator) <= u64::MAX
}

/// `floor(amount * numerator / denominator)` over a 128-bit intermediate
/// product, so the multiplication itself can never overflow.
pub fn mul_div(amount: u64, numerator: u64, denominator: u64) -> (r: u64)
    requires
        mul_div_fits(amount, numerator, denominator),
    ensures
        r == mul_div_spec(amount, numerator, denominator),
{
    proof {
        assert((amount as int) * (numerator as int) <= u128::MAX) by (nonlinear_arith);
    }
    let prod: u128 = (amount as u128) * (numerator as u128);
    let q: u128 = prod / (denominator as u128);
    q as u64
}

/// Total version of [`mul_div`]: `None` exactly when the quotient does not
/// exist or does not fit in 64 bits.
pub fn try_mul_div(amount: u64, numerator: u64, denominator: u64) -> (r: Option<u64>)
    ensures
        r is Some <==> mul_div_fits(amount, numerator, denominator),
        r is Some ==> r->0 == mul_div_spec(amount, numerator, denominator),
{
    if denominator == 0 {
        return None;
    }
    proof {
        assert((amount as int) * (numerator as int) <= u128::MAX) by (nonlinear_arith);
    }
    let prod: u128 = (amount as u128) * (numerator as u128);
    let q: u128 = prod / (denominator as u128);
    if q > u64::MAX as u128 {
        None
    } else {
        Some(q as u64)
    }
}

/// SOL-value of an LST amount at a 32-fractional-bit price.
pub open spec fn lst_to_sol_spec(lst_amount: u64, lst_sol_price_p32: u64) -> int {
    mul_div_spec(lst_amount, lst_sol_price_p32, TWO_POW_32)
}

/// LST amount worth a given SOL-value at a 32-fractional-bit price.
pub open spec fn sol_to_lst_spec(sol_value: u64, lst_sol_price_p32: u64) -> int {
    mul_div_spec(sol_value, TWO_POW_32, lst_sol_price_p32)
}

/// Pool shares minted for a SOL-value deposit: 1:1 on an empty pool,
/// otherwise priced by `backing_sol_value / supply`.
pub open spec fn sol_to_shares_spec(sol_value: u64, backing_sol_value: u64, supply: u64) -> int {
    if supply == 0 {
        sol_value as int
    } else {
        mul_div_spec(sol_value, supply, backing_sol_value)
    }
}

/// SOL-value of burned pool shares at the price `backing_sol_value / supply`.
pub open spec fn shares_to_sol_spec(shares: u64, backing_sol_value: u64, supply: u64) -> int {
    mul_div_spec(shares, backing_sol_value, supply)
}

/// Basis-point fraction of an amount, rounded down.
pub open spec fn apply_bp_spec(amount: u64, bp: u16) -> int {
    mul_div_spec(amount, bp as u64, BASIS_POINTS_100_PERCENT as u64)
}

/// Convert a SOL-value into a pool-share amount at the current share price
/// `backing_sol_value / supply`; an empty pool bootstraps at 1:1, so
/// depositing SOL-value and minting the result leaves the price unchanged.
pub fn sol_value_to_mpsol_amount(
    sol_value: u64,
    main_vault_backing_sol_value: u64,
    mpsol_current_supply: u64,
) -> (r: u64)
    requires
        mpsol_current_supply != 0 ==> mul_div_fits(
            sol_value,
            mpsol_current_supply,
            main_vault_backing_sol_value,
        ),
    ensures
        r == sol_to_shares_spec(sol_value, main_vault_backing_sol_value, mpsol_current_supply),
        mpsol_current_supply == 0 ==> r == sol_value,
{
    if mpsol_current_supply == 0 {
        sol_value
    } else {
        mul_div(sol_value, mpsol_current_supply, main_vault_backing_sol_value)
    }
}

/// Convert a pool-share amount into a SOL-value at the current share price;
/// burning the shares and removing the result leaves the price unchanged.
/// An empty pool has no shares to burn, so a zero supply is excluded.
pub fn mpsol_amount_to_sol_value(
    mpsol_amount: u64,
    mpsol_backing_sol_value: u64,
    mpsol_current_supply: u64,
) -> (r: u64)
    requires
        mul_div_fits(mpsol_amount, mpsol_backing_sol_value, mpsol_current_supply),
    ensures
        r == shares_to_sol_spec(mpsol_amount, mpsol_backing_sol_value, mpsol_current_supply),
{
    mul_div(mpsol_amount, mpsol_backing_sol_value, mpsol_current_supply)
}

/// SOL-value of an LST amount, using a 32-fractional-bit price.
pub fn lst_amount_to_sol_value(lst_amount: u64, lst_sol_price_p32: u64) -> (r: u64)
    requires
        mul_div_fits(lst_amount, lst_sol_price_p32, TWO_POW_32),
    ensures
        r == lst_to_sol_spec(lst_amount, lst_sol_price_p32),
{
    mul_div(lst_amount, lst_sol_price_p32, TWO_POW_32)
}

/// LST amount worth a SOL-value, using a 32-fractional-bit price.
pub fn sol_value_to_lst_amount(sol_value: u64, lst_sol_price_p32: u64) -> (r: u64)
    requires
        mul_div_fits(sol_value, TWO_POW_32, lst_sol_price_p32),
    ensures
        r == sol_to_lst_spec(sol_value, lst_sol_price_p32),
{
    mul_div(sol_value, TWO_POW_32, lst_sol_price_p32)
}

/// Apply a basis-point rate to an amount; the result never exceeds the
/// amount itself because the rate is at most 100%.
pub fn apply_bp(amount: u64, bp: u16) -> (r: u64)
    requires
        bp <= BASIS_POINTS_100_PERCENT,
    ensures
        r == apply_bp_spec(amount, bp),
        r <= amount,
{
    proof {
        lemma_mul_div_le_self(amount, bp as u64, BASIS_POINTS_100_PERCENT as u64);
    }
    mul_div(amount, bp as u64, BASIS_POINTS_100_PERCENT as u64)
}

/// The profit half of the reconciliation idiom: how much a reading grew.
pub open spec fn profit_of(prior_value: u64, new_value: u64) -> u64 {
    if new_value >= prior_value {
        (new_value - prior_value) as u64
    } else {
        0u64
    }
}

/// The slashing half of the reconciliation idiom: how much a reading shrank.
pub open spec fn slashing_of(prior_value: u64, new_value: u64) -> u64 {
    if new_value >= prior_value {
        0u64
    } else {
        (prior_value - new_value) as u64
    }
}

/// Split the move from a prior reading to a new one into a profit part and
/// a slashing part; exactly one of the two is nonzero unless both are zero.
pub fn split_profit_slashing(prior_value: u64, new_value: u64) -> (r: (u64, u64))
    ensures
        r.0 == profit_of(prior_value, new_value),
        r.1 == slashing_of(prior_value, new_value),
        new_value == prior_value + r.0 - r.1,
        r.0 == 0 || r.1 == 0,
{
    if new_value >= prior_value {
        (new_value - prior_value, 0)
    } else {
        (0, prior_value - new_value)
    }
}

/// A quotient with a numerator no larger than the denominator stays within
/// the original amount (and hence always fits).
pub proof fn lemma_mul_div_le_self(amount: u64, numerator: u64, denominator: u64)
    requires
        numerator <= denominator,
        denominator != 0,
    ensures
        0 <= mul_div_spec(amount, numerator, denominator) <= amount,
        mul_div_fits(amount, numerator, denominator),
{
    lemma_mul_inequality(numerator as int, denominator as int, amount as int);
    lemma_mul_is_commutative(amount as int, numerator as int);
    lemma_mul_is_commutative(amount as int, denominator as int);
    assert((amount as int) * (numerator as int) <= (amount as int) * (denominator as int));
    lemma_div_is_ordered(
        (amount as int) * (numerator as int),
        (amount as int) * (denominator as int),
        denominator as int,
    );
    lemma_div_multiples_vanish(amount as int, denominator as int);
    if amount * numerator > 0 {
        lemma_div_pos_is_pos((amount as int) * (numerator as int), denominator as int);
    }
    assert((amount as int) * (numerator as int) >= 0) by (nonlinear_arith);
}

/// A quotient whose amount is no larger than the denominator stays within
/// the numerator (and hence always fits).
pub proof fn lemma_mul_div_le_numerator(amount: u64, numerator: u64, denominator: u64)
    requires
        amount <= denominator,
        denominator != 0,
    ensures
        0 <= mul_div_spec(amount, numerator, denominator) <= numerator,
        mul_div_fits(amount, numerator, denominator),
{
    lemma_mul_is_commutative(amount as int, numerator as int);
    lemma_mul_div_le_self(numerator, amount, denominator);
}

/// Rounding never creates value: converting an LST amount to SOL-value and
/// that SOL-value back to LST returns at most the original amount.
pub proof fn lemma_rounding_never_creates_value(
    lst_amount: u64,
    lst_sol_price_p32: u64,
    sol_value: u64,
)
    requires
        lst_sol_price_p32 != 0,
        sol_value == lst_to_sol_spec(lst_amount, lst_sol_price_p32),
    ensures
        sol_to_lst_spec(sol_value, lst_sol_price_p32) <= lst_amount,
{
    let a = lst_amount as int;
    let p = lst_sol_price_p32 as int;
    let k = TWO_POW_32 as int;
    let s = sol_value as int;
    // s == (a * p) / k, so s * k <= a * p.
    lemma_fundamental_div_mod(a * p, k);
    lemma_mod_division_less_than_divisor(a * p, k);
    assert(k * s <= a * p);
    lemma_mul_is_commutative(s, k);
    // Divide both sides by p.
    lemma_div_is_ordered(s * k, a * p, p);
    // (a * p) / p == a.
    lemma_mul_is_commutative(a, p);
    lemma_div_multiples_vanish(a, p);
}

} // verus!
