//! The unstake operation: burn pool shares, open a delayed ticket.

use vstd::prelude::*;
use crate::constants::MIN_MOVEMENT_LAMPORTS;
use crate::error::ErrorCode;
use crate::events::UnstakeEvent;
use crate::keys::AccountId;
use crate::main_vault::MainVaultState;
use crate::math::{apply_bp, apply_bp_spec, mul_div_fits, shares_to_sol_spec, try_mul_div};
use crate::treasury::{treasury_ready, verify_treasury_mp_sol_balance, TokenAccountView};
use crate::unstake_ticket::UnstakeTicket;

verus! {

/// The withdrawal fee an unstake actually pays.  No treasury configured
/// means no fee; a configured treasury must be the account passed in; and
/// a treasury that fails validation forfeits the fee rather than blocking
/// the withdrawal.
pub open spec fn unstake_fee_model(
    main: MainVaultState,
    mpsol_amount: u64,
    treasury_account: AccountId,
    treasury_view: TokenAccountView,
) -> Result<u64, ErrorCode> {
    match main.treasury_mpsol_account {
        None => Ok(0u64),
        Some(configured) => {
            if configured != treasury_account {
                Err(ErrorCode::InvalidTreasuryMpsolAccount)
            } else {
                let fee = apply_bp_spec(mpsol_amount, main.withdraw_fee_bp);
                if fee > 0 && treasury_ready(main.mpsol_mint, treasury_view) {
                    Ok(fee as u64)
                } else {
                    Ok(0u64)
                }
            }
        },
    }
}

/// What an unstake does.  The burned shares are valued at the
/// pre-operation share price, that SOL-value moves from the aggregate
/// backing into a new ticket due after the waiting period, and the price
/// is unchanged by the burn.  Any error leaves the ledger untouched.
pub open spec fn unstake_model(
    main: MainVaultState,
    mpsol_supply: u64,
    mpsol_amount: u64,
    treasury_account: AccountId,
    treasury_view: TokenAccountView,
    main_state_key: AccountId,
    unstaker: AccountId,
    now_ts: u64,
) -> Result<(MainVaultState, UnstakeTicket, UnstakeEvent), ErrorCode> {
    match unstake_fee_model(main, mpsol_amount, treasury_account, treasury_view) {
        Err(e) => Err(e),
        Ok(fee) => {
            let burn = (mpsol_amount - fee) as u64;
            if !mul_div_fits(burn, main.backing_sol_value, mpsol_supply) {
                Err(ErrorCode::ArithmeticOverflow)
            } else {
                let ticket_sol_value = shares_to_sol_spec(
                    burn,
                    main.backing_sol_value,
                    mpsol_supply,
                );
                if ticket_sol_value < MIN_MOVEMENT_LAMPORTS {
                    Err(ErrorCode::UnstakeAmountTooSmall)
                } else if ticket_sol_value > main.backing_sol_value {
                    Err(ErrorCode::ArithmeticOverflow)
                } else if burn > mpsol_supply {
                    Err(ErrorCode::ArithmeticOverflow)
                } else if now_ts + main.unstake_ticket_waiting_hours * 3600 > u64::MAX {
                    Err(ErrorCode::ArithmeticOverflow)
                } else if main.outstanding_tickets_sol_value + ticket_sol_value > u64::MAX {
                    Err(ErrorCode::ArithmeticOverflow)
                } else {
                    let due = (now_ts + main.unstake_ticket_waiting_hours * 3600) as u64;
                    let new_backing = (main.backing_sol_value - ticket_sol_value) as u64;
                    Ok(
                        (
                            MainVaultState {
                                backing_sol_value: new_backing,
                                outstanding_tickets_sol_value: (main.outstanding_tickets_sol_value
                                    + ticket_sol_value) as u64,
                                ..main
                            },
                            UnstakeTicket {
                                main_state: main_state_key,
                                beneficiary: unstaker,
                                ticket_sol_value: ticket_sol_value as u64,
                                ticket_due_timestamp: due,
                            },
                            UnstakeEvent {
                                mpsol_amount,
                                withdrawal_fee_mpsol: fee,
                                mpsol_burned: burn,
                                ticket_sol_value: ticket_sol_value as u64,
                                ticket_due_timestamp: due,
                                main_vault_backing_sol_value: new_backing,
                                mpsol_supply: (mpsol_supply - burn) as u64,
                            },
                        ),
                    )
                }
            }
        },
    }
}

/// Unstake `mpsol_amount` pool shares: optionally pay the withdrawal fee
/// to the treasury, burn the rest, and open a ticket for their SOL-value,
/// claimable after the configured waiting period.
///
/// `mpsol_supply` is the pool-share supply before the operation; on
/// success the caller must transfer `withdrawal_fee_mpsol` shares to the
/// treasury, burn `mpsol_burned` shares, and persist the returned ticket
/// under a fresh identity.
pub fn handle_unstake(
    main_state: &mut MainVaultState,
    mpsol_supply: u64,
    mpsol_amount: u64,
    treasury_account: AccountId,
    treasury_view: &TokenAccountView,
    main_state_key: AccountId,
    unstaker: AccountId,
    now_ts: u64,
) -> (r: Result<(UnstakeTicket, UnstakeEvent), ErrorCode>)
    requires
        old(main_state).well_formed(),
    ensures
        ({
            let model = unstake_model(
                *old(main_state),
                mpsol_supply,
                mpsol_amount,
                treasury_account,
                *treasury_view,
                main_state_key,
                unstaker,
                now_ts,
            );
            match model {
                Ok((m2, ticket, ev)) => r == Ok::<_, ErrorCode>((ticket, ev)) && *final(main_state)
                    == m2,
                Err(e) => r == Err::<(UnstakeTicket, UnstakeEvent), _>(e) && *final(main_state)
                    == *old(main_state),
            }
        }),
        final(main_state).well_formed(),
{
    let withdrawal_fee_mpsol: u64 = match main_state.treasury_mpsol_account {
        None => 0,
        Some(configured) => {
            if configured != treasury_account {
                return Err(ErrorCode::InvalidTreasuryMpsolAccount);
            }
            let computed_fee = apply_bp(mpsol_amount, main_state.withdraw_fee_bp);
            if computed_fee > 0 {
                match verify_treasury_mp_sol_balance(&main_state.mpsol_mint, treasury_view) {
                    Some(_) => computed_fee,
                    None => 0,
                }
            } else {
                0
            }
        },
    };
    let burn = mpsol_amount - withdrawal_fee_mpsol;
    // Value the burned shares against the pre-burn backing and supply.
    let ticket_sol_value = match try_mul_div(burn, main_state.backing_sol_value, mpsol_supply) {
        Some(v) => v,
        None => {
            return Err(ErrorCode::ArithmeticOverflow);
        },
    };
    if ticket_sol_value < MIN_MOVEMENT_LAMPORTS {
        return Err(ErrorCode::UnstakeAmountTooSmall);
    }
    let new_backing = match main_state.backing_sol_value.checked_sub(ticket_sol_value) {
        Some(v) => v,
        None => {
            return Err(ErrorCode::ArithmeticOverflow);
        },
    };
    let supply_after_burn = match mpsol_supply.checked_sub(burn) {
        Some(v) => v,
        None => {
            return Err(ErrorCode::ArithmeticOverflow);
        },
    };
    let waiting_seconds: u64 = (main_state.unstake_ticket_waiting_hours as u64) * 3600;
    let ticket_due_timestamp = match now_ts.checked_add(waiting_seconds) {
        Some(v) => v,
        None => {
            return Err(ErrorCode::ArithmeticOverflow);
        },
    };
    let new_outstanding = match main_state.outstanding_tickets_sol_value.checked_add(
        ticket_sol_value,
    ) {
        Some(v) => v,
        None => {
            return Err(ErrorCode::ArithmeticOverflow);
        },
    };
    main_state.backing_sol_value = new_backing;
    main_state.outstanding_tickets_sol_value = new_outstanding;
    Ok(
        (
            UnstakeTicket {
                main_state: main_state_key,
                beneficiary: unstaker,
                ticket_sol_value,
                ticket_due_timestamp,
            },
            UnstakeEvent {
                mpsol_amount,
                withdrawal_fee_mpsol,
                mpsol_burned: burn,
                ticket_sol_value,
                ticket_due_timestamp,
                main_vault_backing_sol_value: new_backing,
                mpsol_supply: supply_after_burn,
            },
        ),
    )
}

} // verus!
