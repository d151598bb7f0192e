//! Price oracle adapter: turn an external LST state reading into a fresh,
//! validated SOL-per-LST price, and fold a price change into the ledgers.

use vstd::prelude::*;
use crate::constants::{ONE_DAY_IN_SECONDS, TWO_POW_32};
use crate::error::ErrorCode;
use crate::events::UpdateVaultTokenSolPriceEvent;
use crate::keys::{AccountId, KnownIds};
use crate::main_vault::MainVaultState;
use crate::math::{lst_to_sol_spec, mul_div_fits, mul_div_spec, try_mul_div};
use crate::secondary_vault::SecondaryVaultState;

verus! {

/// Seconds elapsed since a timestamp; a timestamp in the future counts as
/// zero elapsed.
pub open spec fn elapsed_seconds(timestamp: u64, now_ts: u64) -> int {
    if now_ts >= timestamp {
        now_ts - timestamp
    } else {
        0
    }
}

/// A cached reading taken at `timestamp` is still usable at `now_ts`.
pub open spec fn price_fresh(timestamp: u64, now_ts: u64, max_seconds: u64) -> bool {
    elapsed_seconds(timestamp, now_ts) <= max_seconds
}

/// Fail with [`ErrorCode::TokenSolPriceIsStale`] when more than
/// `max_seconds_allowed` have passed since the cached reading.
pub fn check_price_not_stale_seconds(
    token_sol_price_timestamp: u64,
    max_seconds_allowed: u64,
    now_ts: u64,
) -> (r: Result<(), ErrorCode>)
    ensures
        r is Ok <==> price_fresh(token_sol_price_timestamp, now_ts, max_seconds_allowed),
        r is Err ==> r->Err_0 == ErrorCode::TokenSolPriceIsStale,
{
    let elapsed_seconds = if now_ts >= token_sol_price_timestamp {
        now_ts - token_sol_price_timestamp
    } else {
        0
    };
    if elapsed_seconds > max_seconds_allowed {
        Err(ErrorCode::TokenSolPriceIsStale)
    } else {
        Ok(())
    }
}

/// The staleness gate used by value-affecting operations: one day.
pub fn check_price_not_stale(token_sol_price_timestamp: u64, now_ts: u64) -> (r: Result<
    (),
    ErrorCode,
>)
    ensures
        r is Ok <==> price_fresh(token_sol_price_timestamp, now_ts, ONE_DAY_IN_SECONDS),
        r is Err ==> r->Err_0 == ErrorCode::TokenSolPriceIsStale,
{
    check_price_not_stale_seconds(token_sol_price_timestamp, ONE_DAY_IN_SECONDS, now_ts)
}

/// Type tag stored in a stake-pool state blob.
#[derive(Clone, Copy, Debug, PartialEq, Eq, Structural)]
pub enum PoolAccountType {
    /// Blob not initialised yet.
    Uninitialized,
    /// The stake-pool record itself — the only accepted tag.
    StakePool,
    /// A validator list record.
    ValidatorList,
}

/// An external price-source reading, already decoded to plain values by
/// the caller.  Unrecognised shapes fail closed; nothing here is trusted
/// beyond the validation below.
#[derive(Clone, Copy, Debug)]
pub enum LstStateBlob {
    /// No state account was supplied.
    Missing,
    /// The cached-price shape: the supplying account's address and the
    /// 32-fractional-bit price it stores.
    Marinade {
        /// Address of the account the reading came from.
        state_address: AccountId,
        /// The price stored in that account.
        msol_price_p32: u64,
    },
    /// The stake-pool shape: a `(total backing lamports, pool token
    /// supply)` pair, validated by owner program and type tag.
    SplStakePool {
        /// Program that owns the state account.
        owner_program: AccountId,
        /// The blob's type tag.
        account_type: PoolAccountType,
        /// Mint of the pool's token, must match the vault's LST.
        pool_mint: AccountId,
        /// Lamports backing the whole pool.
        total_lamports: u64,
        /// Pool tokens in circulation.
        pool_token_supply: u64,
    },
}

/// The price a reading yields for a given LST mint, or why it is
/// rejected.  Wrapped SOL is always exact parity and needs no reading;
/// every accepted price is at least `2^32` (one LST is never worth less
/// than one SOL).
pub open spec fn computed_lst_price(ids: KnownIds, lst_mint: AccountId, blob: LstStateBlob) -> Result<
    u64,
    ErrorCode,
> {
    if lst_mint == ids.wsol_mint {
        Ok(TWO_POW_32)
    } else if lst_mint == ids.marinade_msol_mint {
        match blob {
            LstStateBlob::Missing => Err(ErrorCode::MissingLstStateInRemainingAccounts),
            LstStateBlob::Marinade { state_address, msol_price_p32 } => {
                if state_address != ids.marinade_state_address {
                    Err(ErrorCode::IncorrectMarinadeStateAddress)
                } else if msol_price_p32 < TWO_POW_32 {
                    Err(ErrorCode::InvalidStoredLstPrice)
                } else {
                    Ok(msol_price_p32)
                }
            },
            LstStateBlob::SplStakePool { .. } => Err(ErrorCode::IncorrectMarinadeStateAddress),
        }
    } else {
        match blob {
            LstStateBlob::Missing => Err(ErrorCode::MissingLstStateInRemainingAccounts),
            LstStateBlob::Marinade { .. } => Err(
                ErrorCode::SplStakePoolStateAccountOwnerIsNotTheSplStakePoolProgram,
            ),
            LstStateBlob::SplStakePool {
                owner_program,
                account_type,
                pool_mint,
                total_lamports,
                pool_token_supply,
            } => {
                if owner_program != ids.spl_stake_pool_program {
                    Err(ErrorCode::SplStakePoolStateAccountOwnerIsNotTheSplStakePoolProgram)
                } else if pool_mint != lst_mint {
                    Err(ErrorCode::SplStakePoolMintMismatch)
                } else if account_type != PoolAccountType::StakePool {
                    Err(ErrorCode::AccountTypeIsNotStakePool)
                } else if !mul_div_fits(total_lamports, TWO_POW_32, pool_token_supply) {
                    Err(ErrorCode::ArithmeticOverflow)
                } else if mul_div_spec(total_lamports, TWO_POW_32, pool_token_supply) < TWO_POW_32 {
                    Err(ErrorCode::InvalidStoredLstPrice)
                } else {
                    Ok(mul_div_spec(total_lamports, TWO_POW_32, pool_token_supply) as u64)
                }
            },
        }
    }
}

/// Validate a price-source reading and compute the SOL-per-LST price for
/// this vault's mint.
pub fn compute_lst_sol_price(ids: &KnownIds, lst_mint: AccountId, blob: &LstStateBlob) -> (r:
    Result<u64, ErrorCode>)
    ensures
        r == computed_lst_price(*ids, lst_mint, *blob),
{
    if lst_mint == ids.wsol_mint {
        return Ok(TWO_POW_32);
    }
    if lst_mint == ids.marinade_msol_mint {
        match blob {
            LstStateBlob::Missing => Err(ErrorCode::MissingLstStateInRemainingAccounts),
            LstStateBlob::Marinade { state_address, msol_price_p32 } => {
                if *state_address != ids.marinade_state_address {
                    Err(ErrorCode::IncorrectMarinadeStateAddress)
                } else if *msol_price_p32 < TWO_POW_32 {
                    Err(ErrorCode::InvalidStoredLstPrice)
                } else {
                    Ok(*msol_price_p32)
                }
            },
            LstStateBlob::SplStakePool { .. } => Err(ErrorCode::IncorrectMarinadeStateAddress),
        }
    } else {
        match blob {
            LstStateBlob::Missing => Err(ErrorCode::MissingLstStateInRemainingAccounts),
            LstStateBlob::Marinade { .. } => Err(
                ErrorCode::SplStakePoolStateAccountOwnerIsNotTheSplStakePoolProgram,
            ),
            LstStateBlob::SplStakePool {
                owner_program,
                account_type,
                pool_mint,
                total_lamports,
                pool_token_supply,
            } => {
                if *owner_program != ids.spl_stake_pool_program {
                    return Err(ErrorCode::SplStakePoolStateAccountOwnerIsNotTheSplStakePoolProgram);
                }
                if *pool_mint != lst_mint {
                    return Err(ErrorCode::SplStakePoolMintMismatch);
                }
                if *account_type != PoolAccountType::StakePool {
                    return Err(ErrorCode::AccountTypeIsNotStakePool);
                }
                match try_mul_div(*total_lamports, TWO_POW_32, *pool_token_supply) {
                    None => Err(ErrorCode::ArithmeticOverflow),
                    Some(price) => {
                        if price < TWO_POW_32 {
                            Err(ErrorCode::InvalidStoredLstPrice)
                        } else {
                            Ok(price)
                        }
                    },
                }
            },
        }
    }
}

/// What a price update does: nothing at all when the price is unchanged
/// (idempotence); otherwise it re-prices the vault's whole holding and
/// moves the SOL-value delta into the aggregate backing.
pub open spec fn price_update_model(
    main: MainVaultState,
    vault: SecondaryVaultState,
    ids: KnownIds,
    blob: LstStateBlob,
    now_ts: u64,
) -> Result<(MainVaultState, SecondaryVaultState, Option<UpdateVaultTokenSolPriceEvent>), ErrorCode> {
    match computed_lst_price(ids, vault.lst_mint, blob) {
        Err(e) => Err(e),
        Ok(new_price) => {
            if new_price == vault.lst_sol_price_p32 {
                Ok((main, vault, None))
            } else {
                let lst_amount = vault.vault_total_lst_amount;
                let old_sv = lst_to_sol_spec(lst_amount, vault.lst_sol_price_p32);
                let new_sv = lst_to_sol_spec(lst_amount, new_price);
                if old_sv > u64::MAX || new_sv > u64::MAX {
                    Err(ErrorCode::ArithmeticOverflow)
                } else if main.backing_sol_value + new_sv - old_sv < 0 || main.backing_sol_value
                    + new_sv - old_sv > u64::MAX {
                    Err(ErrorCode::ArithmeticOverflow)
                } else {
                    let new_backing = (main.backing_sol_value + new_sv - old_sv) as u64;
                    Ok(
                        (
                            MainVaultState { backing_sol_value: new_backing, ..main },
                            SecondaryVaultState {
                                lst_sol_price_p32: new_price,
                                lst_sol_price_timestamp: now_ts,
                                ..vault
                            },
                            Some(
                                UpdateVaultTokenSolPriceEvent {
                                    lst_amount,
                                    old_price_p32: vault.lst_sol_price_p32,
                                    old_sol_value: old_sv as u64,
                                    new_price_p32: new_price,
                                    new_sol_value: new_sv as u64,
                                    main_vault_backing_sol_value: new_backing,
                                },
                            ),
                        ),
                    )
                }
            }
        },
    }
}

/// Validate the reading, and if the price moved, cache it with the current
/// time and fold the vault's SOL-value delta into the aggregate backing.
/// Atomic: on any error both ledgers are untouched.
pub fn internal_update_vault_token_sol_price(
    main_state: &mut MainVaultState,
    secondary_state: &mut SecondaryVaultState,
    ids: &KnownIds,
    lst_state: &LstStateBlob,
    now_ts: u64,
) -> (r: Result<Option<UpdateVaultTokenSolPriceEvent>, ErrorCode>)
    ensures
        ({
            let model = price_update_model(
                *old(main_state),
                *old(secondary_state),
                *ids,
                *lst_state,
                now_ts,
            );
            match model {
                Ok((m2, v2, ev)) => r == Ok::<_, ErrorCode>(ev) && *final(main_state) == m2
                    && *final(secondary_state) == v2,
                Err(e) => r == Err::<Option<UpdateVaultTokenSolPriceEvent>, _>(e)
                    && *final(main_state) == *old(main_state)
                    && *final(secondary_state) == *old(secondary_state),
            }
        }),
{
    let old_price = secondary_state.lst_sol_price_p32;
    let new_price = match compute_lst_sol_price(ids, secondary_state.lst_mint, lst_state) {
        Ok(p) => p,
        Err(e) => {
            return Err(e);
        },
    };
    if new_price == old_price {
        return Ok(None);
    }
    let lst_amount = secondary_state.vault_total_lst_amount;
    let old_sol_value = match try_mul_div(lst_amount, old_price, TWO_POW_32) {
        Some(v) => v,
        None => {
            return Err(ErrorCode::ArithmeticOverflow);
        },
    };
    let new_sol_value = match try_mul_div(lst_amount, new_price, TWO_POW_32) {
        Some(v) => v,
        None => {
            return Err(ErrorCode::ArithmeticOverflow);
        },
    };
    let new_backing = if new_sol_value >= old_sol_value {
        match main_state.backing_sol_value.checked_add(new_sol_value - old_sol_value) {
            Some(b) => b,
            None => {
                return Err(ErrorCode::ArithmeticOverflow);
            },
        }
    } else {
        match main_state.backing_sol_value.checked_sub(old_sol_value - new_sol_value) {
            Some(b) => b,
            None => {
                return Err(ErrorCode::ArithmeticOverflow);
            },
        }
    };
    main_state.backing_sol_value = new_backing;
    secondary_state.lst_sol_price_p32 = new_price;
    secondary_state.lst_sol_price_timestamp = now_ts;
    Ok(
        Some(
            UpdateVaultTokenSolPriceEvent {
                lst_amount,
                old_price_p32: old_price,
                old_sol_value,
                new_price_p32: new_price,
                new_sol_value,
                main_vault_backing_sol_value: new_backing,
            },
        ),
    )
}

} // verus!
