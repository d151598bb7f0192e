//! Validation of the fee treasury account.
//!
//! A misconfigured treasury means the protocol does not want to receive
//! fees: validation failure is reported as `None`, never as an error, so
//! a rogue admin can never block user withdrawals by configuring an
//! invalid account.

use vstd::prelude::*;
use crate::keys::AccountId;

verus! {

/// The decoded fields of a token-ledger account.
#[derive(Clone, Copy, Debug)]
pub struct ParsedTokenAccount {
    /// The token this account holds.
    pub mint: AccountId,
    /// Its current balance.
    pub amount: u64,
}

/// What the caller read about the account passed as treasury: whether the
/// token ledger program owns it, and its decoded fields when its data
/// parses as a token account.
#[derive(Clone, Copy, Debug)]
pub struct TokenAccountView {
    /// The account is owned by the token ledger program.
    pub owned_by_token_program: bool,
    /// The decoded token account, when the data parses as one.
    pub parsed: Option<ParsedTokenAccount>,
}

/// A treasury account that can actually receive pool-share fees: owned by
/// the token program, parseable, and holding the pool-share mint.
pub open spec fn treasury_ready(mp_sol_mint: AccountId, view: TokenAccountView) -> bool {
    &&& view.owned_by_token_program
    &&& view.parsed is Some
    &&& view.parsed->0.mint == mp_sol_mint
}

/// `Some(balance)` exactly when the treasury account is valid and ready
/// to receive fee transfers; `None` otherwise, which is not an error.
pub fn verify_treasury_mp_sol_balance(mp_sol_mint: &AccountId, treasury_view: &TokenAccountView) -> (r:
    Option<u64>)
    ensures
        r is Some <==> treasury_ready(*mp_sol_mint, *treasury_view),
        r is Some ==> r->0 == treasury_view.parsed->0.amount,
{
    if !treasury_view.owned_by_token_program {
        return None;
    }
    match treasury_view.parsed {
        None => None,
        Some(token_account) => {
            if token_account.mint == *mp_sol_mint {
                Some(token_account.amount)
            } else {
                None
            }
        },
    }
}

} // verus!
