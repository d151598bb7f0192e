//! Structured observations returned by successful operations.
//!
//! Each event carries the before/after ledger quantities an off-chain
//! observer needs to reconstruct the pool-share price series.  Events are
//! append-only output, never control flow; the account identities involved
//! are part of the caller's plumbing and are not repeated here.

use vstd::prelude::*;

verus! {

/// Emitted by a successful stake.
#[derive(Clone, Copy, Debug)]
pub struct StakeEvent {
    /// Opaque referral tag passed through unchanged.
    pub ref_code: u32,
    /// LST amount deposited.
    pub lst_amount: u64,
    /// SOL-value of the deposit at the cached price.
    pub deposited_sol_value: u64,
    /// Pool shares minted to the depositor.
    pub mpsol_received: u64,
    /// Aggregate backing after the stake.
    pub main_vault_backing_sol_value: u64,
    /// Pool-share supply after the stake.
    pub mpsol_supply: u64,
}

/// Emitted by a successful unstake.
#[derive(Clone, Copy, Debug)]
pub struct UnstakeEvent {
    /// Pool shares the user asked to unstake.
    pub mpsol_amount: u64,
    /// Share of the request transferred to the treasury as fee.
    pub withdrawal_fee_mpsol: u64,
    /// Pool shares burned (`mpsol_amount - withdrawal_fee_mpsol`).
    pub mpsol_burned: u64,
    /// SOL-value fixed in the new ticket.
    pub ticket_sol_value: u64,
    /// When the new ticket becomes claimable.
    pub ticket_due_timestamp: u64,
    /// Aggregate backing after the unstake.
    pub main_vault_backing_sol_value: u64,
    /// Pool-share supply after the unstake.
    pub mpsol_supply: u64,
}

/// Emitted by a price update that actually changed the cached price.
#[derive(Clone, Copy, Debug)]
pub struct UpdateVaultTokenSolPriceEvent {
    /// LST amount the vault accounted for at update time.
    pub lst_amount: u64,
    /// Cached price before the update.
    pub old_price_p32: u64,
    /// Vault SOL-value at the old price.
    pub old_sol_value: u64,
    /// Cached price after the update.
    pub new_price_p32: u64,
    /// Vault SOL-value at the new price.
    pub new_sol_value: u64,
    /// Aggregate backing after the delta was applied.
    pub main_vault_backing_sol_value: u64,
}

/// Emitted by a strategy reconciliation poll.
#[derive(Clone, Copy, Debug)]
pub struct UpdateAttachedStratLstAmountEvent {
    /// Baseline reading the poll compared against.
    pub old_lst_amount: u64,
    /// New reported holdings committed as the baseline.
    pub new_lst_amount: u64,
    /// Cached price used to convert the delta to SOL-value.
    pub lst_price_p32: u64,
    /// Aggregate backing after the delta was applied.
    pub main_vault_backing_sol_value: u64,
}

/// Emitted by a (partial) ticket claim.
#[derive(Clone, Copy, Debug)]
pub struct TicketClaimEvent {
    /// SOL-value claimed now.
    pub claimed_sol_value: u64,
    /// SOL-value left in the ticket (zero closes it).
    pub ticket_sol_value_remaining: u64,
    /// LST delivered to the beneficiary for the claimed SOL-value.
    pub lst_amount_delivered: u64,
    /// The ticket's due time, unchanged by claims.
    pub ticket_due_timestamp: u64,
}

/// Emitted when LST is delegated to a strategy.
#[derive(Clone, Copy, Debug)]
pub struct TransferLstToStratEvent {
    /// LST amount moved from local custody into the strategy.
    pub lst_amount: u64,
}

/// Emitted when staged LST is collected back from a strategy.
#[derive(Clone, Copy, Debug)]
pub struct GetLstFromStratEvent {
    /// LST amount the operator wanted unwound.
    pub desired_amount: u64,
    /// LST amount found staged for collection.
    pub existent_amount: u64,
    /// LST amount actually moved back (the smaller of the two).
    pub lst_amount: u64,
}

} // verus!
