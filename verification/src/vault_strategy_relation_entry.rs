//! The bridge record between a vault and one attached strategy.

use vstd::prelude::*;
use crate::keys::AccountId;

verus! {

/// One record per `(vault, external strategy state)` pair, created when the
/// strategy is attached.  Its `last_read_strat_lst_amount` is the baseline
/// against which the next reconciliation measures profit or slashing.
#[derive(Clone, Copy, Debug)]
pub struct VaultStrategyRelationEntry {
    /// Owning deployment.
    pub main_state: AccountId,
    /// The LST this strategy works in.
    pub lst_mint: AccountId,
    /// The external strategy's state account.
    pub common_strategy_state: AccountId,
    /// The strategy program owning that state account.
    pub strategy_program_code: AccountId,
    /// LST amount the operator wants unwound from the strategy; collecting
    /// it decrements this toward zero.
    pub next_withdraw_lst_amount: u64,
    /// Reference copy of the vault's ticket target (informational).
    pub tickets_target_sol_amount: u64,
    /// Last reconciled reading of the strategy's reported holdings.
    pub last_read_strat_lst_amount: u64,
    /// When that reading was taken (unix time).
    pub last_read_strat_lst_timestamp: u64,
}

} // verus!
