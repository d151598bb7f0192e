//! Delayed-settlement withdrawal tickets.

use vstd::prelude::*;
use crate::keys::AccountId;

verus! {

/// One record per unstake request.  Created when pool shares are burned,
/// drawn down by (partial) claims once due, and destroyed when its
/// SOL-value reaches exactly zero.
#[derive(Clone, Copy, Debug)]
pub struct UnstakeTicket {
    /// The deployment this ticket belongs to.
    pub main_state: AccountId,
    /// The only identity allowed to claim the ticket.
    pub beneficiary: AccountId,
    /// Remaining claimable SOL-value (lamports).
    pub ticket_sol_value: u64,
    /// Unix time after which claims are permitted.
    pub ticket_due_timestamp: u64,
}

} // verus!
