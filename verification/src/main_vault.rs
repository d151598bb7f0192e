//! Protocol-wide ledger: aggregate backing, outstanding tickets, fees.

use vstd::prelude::*;
use crate::constants::{MAX_PERFORMANCE_FEE_BP, MAX_WITHDRAW_FEE_BP};
use crate::keys::AccountId;

verus! {

/// One record per protocol deployment.
///
/// `backing_sol_value / mpsol_supply` is the pool-share price; every
/// deposit and every ticket creation must leave that ratio unchanged
/// (fee-adjusted amounts aside).  Together with the per-vault ledgers it
/// satisfies, up to in-flight rounding,
/// `sum(vault total SOL-value) == backing_sol_value + outstanding_tickets_sol_value`.
#[derive(Clone, Copy, Debug)]
pub struct MainVaultState {
    /// Main admin identity.
    pub admin: AccountId,
    /// Identity allowed to set parameters and ticket targets.
    pub operator_auth: AccountId,
    /// Identity allowed to move LST in and out of strategies.
    pub strategy_rebalancer_auth: AccountId,
    /// Identity of the pool-share token.
    pub mpsol_mint: AccountId,
    /// Optional sink for protocol fees; a misconfigured sink is never
    /// allowed to block user operations, it only forfeits the fee.
    pub treasury_mpsol_account: Option<AccountId>,
    /// Share of reconciled strategy profit minted to the treasury.
    pub performance_fee_bp: u16,
    /// Share of an unstaked amount transferred to the treasury.
    pub withdraw_fee_bp: u16,
    /// SOL-value backing the outstanding pool-share supply.
    pub backing_sol_value: u64,
    /// Sum of SOL-value reserved in unclaimed unstake tickets.
    pub outstanding_tickets_sol_value: u64,
    /// Delay before a new unstake ticket becomes claimable.
    pub unstake_ticket_waiting_hours: u16,
}

impl MainVaultState {
    /// Both fee rates sit within their protocol-wide maxima.
    pub open spec fn well_formed(&self) -> bool {
        &&& self.performance_fee_bp <= MAX_PERFORMANCE_FEE_BP
        &&& self.withdraw_fee_bp <= MAX_WITHDRAW_FEE_BP
    }
}

} // verus!
