//! Value-accounting core of a liquid-restaking pool.
//!
//! Users deposit liquid staking tokens (LSTs) into per-token vaults and
//! receive a pooled receipt token (mpSOL) priced by the aggregate
//! SOL-denominated value backing it.  Redemption goes through delayed
//! unstake tickets.  A fraction of the deposits may be delegated to
//! external yield strategies whose reported holdings are reconciled back
//! into the vault accounting.
//!
//! Every operation is a pure state transition on plain values: the caller
//! loads the ledger records, supplies the current time and any external
//! readings, and applies the returned changes atomically.

pub mod common_strategy_state;
pub mod config;
pub mod constants;
pub mod error;
pub mod events;
pub mod keys;
pub mod laws;
pub mod main_vault;
pub mod math;
pub mod price;
pub mod secondary_vault;
pub mod stake;
pub mod strategy;
pub mod ticket_claim;
pub mod treasury;
pub mod unstake;
pub mod unstake_ticket;
pub mod vault_strategy_relation_entry;
