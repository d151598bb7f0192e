//! The stake (deposit) operation.

use vstd::prelude::*;
use crate::constants::{MIN_MOVEMENT_LAMPORTS, ONE_DAY_IN_SECONDS, TWO_POW_32};
use crate::error::ErrorCode;
use crate::events::StakeEvent;
use crate::main_vault::MainVaultState;
use crate::math::{lst_to_sol_spec, mul_div_fits, sol_to_shares_spec, try_mul_div};
use crate::price::{check_price_not_stale, price_fresh};
use crate::secondary_vault::SecondaryVaultState;

verus! {

/// What a stake does.  Shares are priced against the pre-deposit backing
/// (the ordering is load-bearing), the deposit then joins local custody
/// and the aggregate backing, so the share price is unchanged by the
/// operation.  Any error leaves both ledgers untouched.
pub open spec fn stake_model(
    main: MainVaultState,
    vault: SecondaryVaultState,
    mpsol_supply: u64,
    lst_amount: u64,
    ref_code: u32,
    now_ts: u64,
) -> Result<(MainVaultState, SecondaryVaultState, StakeEvent), ErrorCode> {
    if vault.deposits_disabled {
        Err(ErrorCode::DepositsInThisVaultAreDisabled)
    } else if lst_amount < MIN_MOVEMENT_LAMPORTS {
        Err(ErrorCode::DepositAmountToSmall)
    } else if vault.lst_sol_price_p32 < TWO_POW_32 {
        Err(ErrorCode::InvalidStoredLstPrice)
    } else if !price_fresh(vault.lst_sol_price_timestamp, now_ts, ONE_DAY_IN_SECONDS) {
        Err(ErrorCode::TokenSolPriceIsStale)
    } else {
        let deposited_sol_value = lst_to_sol_spec(lst_amount, vault.lst_sol_price_p32);
        if deposited_sol_value > u64::MAX {
            Err(ErrorCode::ArithmeticOverflow)
        } else if deposited_sol_value < MIN_MOVEMENT_LAMPORTS {
            Err(ErrorCode::DepositAmountToSmall)
        } else if mpsol_supply != 0 && !mul_div_fits(
            deposited_sol_value as u64,
            mpsol_supply,
            main.backing_sol_value,
        ) {
            Err(ErrorCode::ArithmeticOverflow)
        } else {
            let mpsol_amount = sol_to_shares_spec(
                deposited_sol_value as u64,
                main.backing_sol_value,
                mpsol_supply,
            );
            if vault.vault_total_lst_amount + lst_amount > u64::MAX {
                Err(ErrorCode::ArithmeticOverflow)
            } else if vault.token_deposit_cap > 0 && vault.locally_stored_amount + lst_amount
                + vault.in_strategies_amount > vault.token_deposit_cap {
                Err(ErrorCode::DepositExceedsVaultCap)
            } else if main.backing_sol_value + deposited_sol_value > u64::MAX {
                Err(ErrorCode::ArithmeticOverflow)
            } else if mpsol_supply + mpsol_amount > u64::MAX {
                Err(ErrorCode::ArithmeticOverflow)
            } else {
                Ok(
                    (
                        MainVaultState {
                            backing_sol_value: (main.backing_sol_value + deposited_sol_value) as u64,
                            ..main
                        },
                        SecondaryVaultState {
                            vault_total_lst_amount: (vault.vault_total_lst_amount
                                + lst_amount) as u64,
                            locally_stored_amount: (vault.locally_stored_amount
                                + lst_amount) as u64,
                            ..vault
                        },
                        StakeEvent {
                            ref_code,
                            lst_amount,
                            deposited_sol_value: deposited_sol_value as u64,
                            mpsol_received: mpsol_amount as u64,
                            main_vault_backing_sol_value: (main.backing_sol_value
                                + deposited_sol_value) as u64,
                            mpsol_supply: (mpsol_supply + mpsol_amount) as u64,
                        },
                    ),
                )
            }
        }
    }
}

/// Stake `lst_amount` of the vault's LST: mint pool shares worth its
/// SOL-value at the cached (validated, fresh) price, then record the
/// deposit in vault custody and aggregate backing.
///
/// `mpsol_supply` is the pool-share supply before the operation; on
/// success the caller must transfer the LST into custody and mint
/// `mpsol_received` shares to the depositor.
pub fn handle_stake(
    main_state: &mut MainVaultState,
    vault_state: &mut SecondaryVaultState,
    mpsol_supply: u64,
    lst_amount: u64,
    ref_code: u32,
    now_ts: u64,
) -> (r: Result<StakeEvent, ErrorCode>)
    requires
        old(main_state).well_formed(),
        old(vault_state).well_formed(),
    ensures
        ({
            let model = stake_model(
                *old(main_state),
                *old(vault_state),
                mpsol_supply,
                lst_amount,
                ref_code,
                now_ts,
            );
            match model {
                Ok((m2, v2, ev)) => r == Ok::<_, ErrorCode>(ev) && *final(main_state) == m2
                    && *final(vault_state) == v2,
                Err(e) => r == Err::<StakeEvent, _>(e) && *final(main_state) == *old(main_state)
                    && *final(vault_state) == *old(vault_state),
            }
        }),
        final(main_state).well_formed(),
        final(vault_state).well_formed(),
{
    if vault_state.deposits_disabled {
        return Err(ErrorCode::DepositsInThisVaultAreDisabled);
    }
    if lst_amount < MIN_MOVEMENT_LAMPORTS {
        return Err(ErrorCode::DepositAmountToSmall);
    }
    if vault_state.lst_sol_price_p32 < TWO_POW_32 {
        return Err(ErrorCode::InvalidStoredLstPrice);
    }
    match check_price_not_stale(vault_state.lst_sol_price_timestamp, now_ts) {
        Ok(()) => {},
        Err(e) => {
            return Err(e);
        },
    }
    let deposited_sol_value = match try_mul_div(
        lst_amount,
        vault_state.lst_sol_price_p32,
        TWO_POW_32,
    ) {
        Some(v) => v,
        None => {
            return Err(ErrorCode::ArithmeticOverflow);
        },
    };
    if deposited_sol_value < MIN_MOVEMENT_LAMPORTS {
        return Err(ErrorCode::DepositAmountToSmall);
    }
    // Price the deposit against the pre-deposit backing, before anything
    // is mutated.
    let mpsol_amount = if mpsol_supply == 0 {
        deposited_sol_value
    } else {
        match try_mul_div(deposited_sol_value, mpsol_supply, main_state.backing_sol_value) {
            Some(v) => v,
            None => {
                return Err(ErrorCode::ArithmeticOverflow);
            },
        }
    };
    let new_total = match vault_state.vault_total_lst_amount.checked_add(lst_amount) {
        Some(v) => v,
        None => {
            return Err(ErrorCode::ArithmeticOverflow);
        },
    };
    // The local amount grows by the same deposit, so it stays within the
    // (just checked) new total.
    let new_locally = vault_state.locally_stored_amount + lst_amount;
    if vault_state.token_deposit_cap > 0 && new_total > vault_state.token_deposit_cap {
        return Err(ErrorCode::DepositExceedsVaultCap);
    }
    let new_backing = match main_state.backing_sol_value.checked_add(deposited_sol_value) {
        Some(v) => v,
        None => {
            return Err(ErrorCode::ArithmeticOverflow);
        },
    };
    let new_supply = match mpsol_supply.checked_add(mpsol_amount) {
        Some(v) => v,
        None => {
            return Err(ErrorCode::ArithmeticOverflow);
        },
    };
    vault_state.vault_total_lst_amount = new_total;
    vault_state.locally_stored_amount = new_locally;
    main_state.backing_sol_value = new_backing;
    Ok(
        StakeEvent {
            ref_code,
            lst_amount,
            deposited_sol_value,
            mpsol_received: mpsol_amount,
            main_vault_backing_sol_value: new_backing,
            mpsol_supply: new_supply,
        },
    )
}

} // verus!
