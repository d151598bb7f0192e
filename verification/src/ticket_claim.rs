//! The ticket claim operation: redeem a due ticket's SOL-value for LST.

use vstd::prelude::*;
use crate::constants::{MIN_MOVEMENT_LAMPORTS, ONE_DAY_IN_SECONDS, TWO_POW_32};
use crate::error::ErrorCode;
use crate::events::{TicketClaimEvent, UpdateVaultTokenSolPriceEvent};
use crate::keys::KnownIds;
use crate::main_vault::MainVaultState;
use crate::math::{mul_div_fits, sol_to_lst_spec, try_mul_div};
use crate::price::{
    check_price_not_stale, internal_update_vault_token_sol_price, price_fresh, price_update_model,
    LstStateBlob,
};
use crate::secondary_vault::SecondaryVaultState;
use crate::unstake_ticket::UnstakeTicket;

verus! {

/// What a successful claim reports back.
#[derive(Clone, Copy, Debug)]
pub struct TicketClaimOutcome {
    /// The price refresh folded into the claim, when the price moved.
    pub price_event: Option<UpdateVaultTokenSolPriceEvent>,
    /// The claim quantities, for the observability sink.
    pub event: TicketClaimEvent,
    /// The ticket reached exactly zero: reclaim its storage.
    pub ticket_closed: bool,
}

/// What a claim does.  Once the ticket is due, the claimed SOL-value
/// leaves the outstanding-ticket total and the ticket itself (a nonzero
/// remainder below the minimum movement is refused), the vault price is
/// refreshed and gated for freshness, and the LST equivalent at the
/// current price leaves vault custody.  Any error leaves every record
/// untouched.
pub open spec fn ticket_claim_model(
    main: MainVaultState,
    vault: SecondaryVaultState,
    ticket: UnstakeTicket,
    withdraw_sol_value_amount: u64,
    ids: KnownIds,
    lst_state: LstStateBlob,
    vault_lst_account_amount: u64,
    now_ts: u64,
) -> Result<(MainVaultState, SecondaryVaultState, UnstakeTicket, TicketClaimOutcome), ErrorCode> {
    if now_ts < ticket.ticket_due_timestamp {
        Err(ErrorCode::TicketIsNotDueYet)
    } else if withdraw_sol_value_amount > ticket.ticket_sol_value {
        Err(ErrorCode::NotEnoughSolValueInTicket)
    } else if withdraw_sol_value_amount < ticket.ticket_sol_value && withdraw_sol_value_amount
        < MIN_MOVEMENT_LAMPORTS {
        Err(ErrorCode::UnstakeAmountTooSmall)
    } else if main.outstanding_tickets_sol_value < withdraw_sol_value_amount {
        Err(ErrorCode::ArithmeticOverflow)
    } else {
        let remaining = (ticket.ticket_sol_value - withdraw_sol_value_amount) as u64;
        if remaining > 0 && remaining < MIN_MOVEMENT_LAMPORTS {
            Err(ErrorCode::CantLeaveDustInTicket)
        } else {
            let m1 = MainVaultState {
                outstanding_tickets_sol_value: (main.outstanding_tickets_sol_value
                    - withdraw_sol_value_amount) as u64,
                ..main
            };
            let v1 = SecondaryVaultState {
                tickets_target_sol_amount: if vault.tickets_target_sol_amount
                    >= withdraw_sol_value_amount {
                    (vault.tickets_target_sol_amount - withdraw_sol_value_amount) as u64
                } else {
                    0u64
                },
                ..vault
            };
            let t1 = UnstakeTicket { ticket_sol_value: remaining, ..ticket };
            match price_update_model(m1, v1, ids, lst_state, now_ts) {
                Err(e) => Err(e),
                Ok((m2, v2, price_event)) => {
                    if !price_fresh(v2.lst_sol_price_timestamp, now_ts, ONE_DAY_IN_SECONDS) {
                        Err(ErrorCode::TokenSolPriceIsStale)
                    } else if !mul_div_fits(
                        withdraw_sol_value_amount,
                        TWO_POW_32,
                        v2.lst_sol_price_p32,
                    ) {
                        Err(ErrorCode::ArithmeticOverflow)
                    } else {
                        let lst_amount_to_deliver = sol_to_lst_spec(
                            withdraw_sol_value_amount,
                            v2.lst_sol_price_p32,
                        );
                        if lst_amount_to_deliver > vault_lst_account_amount {
                            Err(ErrorCode::NotEnoughLstInVault)
                        } else if v2.vault_total_lst_amount < lst_amount_to_deliver {
                            Err(ErrorCode::ArithmeticOverflow)
                        } else if v2.locally_stored_amount < lst_amount_to_deliver {
                            Err(ErrorCode::ArithmeticOverflow)
                        } else {
                            Ok(
                                (
                                    m2,
                                    SecondaryVaultState {
                                        vault_total_lst_amount: (v2.vault_total_lst_amount
                                            - lst_amount_to_deliver) as u64,
                                        locally_stored_amount: (v2.locally_stored_amount
                                            - lst_amount_to_deliver) as u64,
                                        ..v2
                                    },
                                    t1,
                                    TicketClaimOutcome {
                                        price_event,
                                        event: TicketClaimEvent {
                                            claimed_sol_value: withdraw_sol_value_amount,
                                            ticket_sol_value_remaining: remaining,
                                            lst_amount_delivered: lst_amount_to_deliver as u64,
                                            ticket_due_timestamp: ticket.ticket_due_timestamp,
                                        },
                                        ticket_closed: remaining == 0,
                                    },
                                ),
                            )
                        }
                    }
                },
            }
        }
    }
}

/// Claim `withdraw_sol_value_amount` from a due ticket: draw it out of
/// the outstanding totals and the ticket, refresh and gate the vault
/// price, and deliver the LST equivalent from vault custody.
///
/// `vault_lst_account_amount` is the custody account's actual balance; on
/// success the caller must transfer `lst_amount_delivered` LST to the
/// beneficiary, and reclaim the ticket's storage when `ticket_closed`.
pub fn handle_ticket_claim(
    main_state: &mut MainVaultState,
    vault_state: &mut SecondaryVaultState,
    ticket_account: &mut UnstakeTicket,
    withdraw_sol_value_amount: u64,
    ids: &KnownIds,
    lst_state: &LstStateBlob,
    vault_lst_account_amount: u64,
    now_ts: u64,
) -> (r: Result<TicketClaimOutcome, ErrorCode>)
    requires
        old(main_state).well_formed(),
        old(vault_state).well_formed(),
    ensures
        ({
            let model = ticket_claim_model(
                *old(main_state),
                *old(vault_state),
                *old(ticket_account),
                withdraw_sol_value_amount,
                *ids,
                *lst_state,
                vault_lst_account_amount,
                now_ts,
            );
            match model {
                Ok((m2, v2, t2, outcome)) => r == Ok::<_, ErrorCode>(outcome)
                    && *final(main_state) == m2 && *final(vault_state) == v2
                    && *final(ticket_account) == t2,
                Err(e) => r == Err::<TicketClaimOutcome, _>(e)
                    && *final(main_state) == *old(main_state)
                    && *final(vault_state) == *old(vault_state)
                    && *final(ticket_account) == *old(ticket_account),
            }
        }),
        final(main_state).well_formed(),
{
    if now_ts < ticket_account.ticket_due_timestamp {
        return Err(ErrorCode::TicketIsNotDueYet);
    }
    let ticket_sol_value = ticket_account.ticket_sol_value;
    if withdraw_sol_value_amount > ticket_sol_value {
        return Err(ErrorCode::NotEnoughSolValueInTicket);
    }
    if withdraw_sol_value_amount < ticket_sol_value && withdraw_sol_value_amount
        < MIN_MOVEMENT_LAMPORTS {
        return Err(ErrorCode::UnstakeAmountTooSmall);
    }
    let new_outstanding = match main_state.outstanding_tickets_sol_value.checked_sub(
        withdraw_sol_value_amount,
    ) {
        Some(v) => v,
        None => {
            return Err(ErrorCode::ArithmeticOverflow);
        },
    };
    let remaining = ticket_sol_value - withdraw_sol_value_amount;
    if remaining > 0 && remaining < MIN_MOVEMENT_LAMPORTS {
        return Err(ErrorCode::CantLeaveDustInTicket);
    }
    // Work on copies; commit only when nothing can fail any more.
    let mut main_updated: MainVaultState = *main_state;
    let mut vault_updated: SecondaryVaultState = *vault_state;
    main_updated.outstanding_tickets_sol_value = new_outstanding;
    vault_updated.tickets_target_sol_amount = if vault_updated.tickets_target_sol_amount
        >= withdraw_sol_value_amount {
        vault_updated.tickets_target_sol_amount - withdraw_sol_value_amount
    } else {
        0
    };
    // A claim must convert at the current value: refresh the price first.
    let price_event = match internal_update_vault_token_sol_price(
        &mut main_updated,
        &mut vault_updated,
        ids,
        lst_state,
        now_ts,
    ) {
        Ok(ev) => ev,
        Err(e) => {
            return Err(e);
        },
    };
    match check_price_not_stale(vault_updated.lst_sol_price_timestamp, now_ts) {
        Ok(()) => {},
        Err(e) => {
            return Err(e);
        },
    }
    let lst_amount_to_deliver = match try_mul_div(
        withdraw_sol_value_amount,
        TWO_POW_32,
        vault_updated.lst_sol_price_p32,
    ) {
        Some(v) => v,
        None => {
            return Err(ErrorCode::ArithmeticOverflow);
        },
    };
    if lst_amount_to_deliver > vault_lst_account_amount {
        return Err(ErrorCode::NotEnoughLstInVault);
    }
    let new_total = match vault_updated.vault_total_lst_amount.checked_sub(lst_amount_to_deliver) {
        Some(v) => v,
        None => {
            return Err(ErrorCode::ArithmeticOverflow);
        },
    };
    let new_locally = match vault_updated.locally_stored_amount.checked_sub(
        lst_amount_to_deliver,
    ) {
        Some(v) => v,
        None => {
            return Err(ErrorCode::ArithmeticOverflow);
        },
    };
    vault_updated.vault_total_lst_amount = new_total;
    vault_updated.locally_stored_amount = new_locally;
    *main_state = main_updated;
    *vault_state = vault_updated;
    ticket_account.ticket_sol_value = remaining;
    Ok(
        TicketClaimOutcome {
            price_event,
            event: TicketClaimEvent {
                claimed_sol_value: withdraw_sol_value_amount,
                ticket_sol_value_remaining: remaining,
                lst_amount_delivered: lst_amount_to_deliver,
                ticket_due_timestamp: ticket_account.ticket_due_timestamp,
            },
            ticket_closed: remaining == 0,
        },
    )
}

} // verus!
