//! Strategy bridge operations: reconciliation polling and LST movement
//! between vault custody and attached strategies.

use vstd::prelude::*;
use crate::common_strategy_state::CommonStrategyState;
use crate::constants::ONE_DAY_IN_SECONDS;
use crate::constants::TWO_POW_32;
use crate::error::ErrorCode;
use crate::events::{GetLstFromStratEvent, TransferLstToStratEvent, UpdateAttachedStratLstAmountEvent};
use crate::keys::AccountId;
use crate::main_vault::MainVaultState;
use crate::math::{
    apply_bp, apply_bp_spec, lemma_mul_div_le_numerator, lst_to_sol_spec, profit_of,
    slashing_of, sol_to_shares_spec, sol_value_to_mpsol_amount, split_profit_slashing,
    try_mul_div,
};
use crate::price::{check_price_not_stale, price_fresh};
use crate::secondary_vault::SecondaryVaultState;
use crate::treasury::{treasury_ready, verify_treasury_mp_sol_balance, TokenAccountView};
use crate::vault_strategy_relation_entry::VaultStrategyRelationEntry;

verus! {

/// What a successful reconciliation poll reports back.
#[derive(Clone, Copy, Debug)]
pub struct StratPollOutcome {
    /// The reconciliation quantities, for the observability sink.
    pub event: UpdateAttachedStratLstAmountEvent,
    /// Pool shares the caller must mint to the treasury as performance
    /// fee; zero when there was no profit or no valid treasury.
    pub performance_fee_mpsol: u64,
}

/// Whether the performance fee can actually be paid: a treasury is
/// configured, it is the account passed in, and that account is ready to
/// receive pool shares.  Anything else only skips the fee; reconciliation
/// itself is never blocked by a misconfigured treasury.
pub open spec fn poll_treasury_ok(
    main: MainVaultState,
    treasury_account: AccountId,
    treasury_view: TokenAccountView,
) -> bool {
    match main.treasury_mpsol_account {
        Some(configured) => configured == treasury_account && treasury_ready(
            main.mpsol_mint,
            treasury_view,
        ),
        None => false,
    }
}

/// What a reconciliation poll does.  The strategy's reported holdings
/// (its own reading plus both staging accounts) are compared against the
/// last committed baseline; the difference is applied as profit or
/// slashing to the vault split, converted at the fresh cached price, and
/// folded into the aggregate backing; the new reading becomes the
/// baseline unconditionally.  A share of the profit is minted to a valid
/// treasury as performance fee.  Any error leaves all records untouched.
pub open spec fn strat_poll_model(
    main: MainVaultState,
    vault: SecondaryVaultState,
    entry: VaultStrategyRelationEntry,
    mpsol_supply: u64,
    strategy_state: CommonStrategyState,
    strategy_deposit_amount: u64,
    lst_withdraw_amount: u64,
    treasury_account: AccountId,
    treasury_view: TokenAccountView,
    now_ts: u64,
) -> Result<
    (MainVaultState, SecondaryVaultState, VaultStrategyRelationEntry, StratPollOutcome),
    ErrorCode,
> {
    if strategy_state.lst_mint != entry.lst_mint {
        Err(ErrorCode::StrategyLstMintMismatch)
    } else if strategy_state.strat_total_lst_amount + strategy_deposit_amount
        + lst_withdraw_amount > u64::MAX {
        Err(ErrorCode::ArithmeticOverflow)
    } else {
        let reported = (strategy_state.strat_total_lst_amount + strategy_deposit_amount
            + lst_withdraw_amount) as u64;
        let prior = entry.last_read_strat_lst_amount;
        let profit = profit_of(prior, reported);
        let loss = slashing_of(prior, reported);
        if !price_fresh(vault.lst_sol_price_timestamp, now_ts, ONE_DAY_IN_SECONDS) {
            Err(ErrorCode::TokenSolPriceIsStale)
        } else if vault.vault_total_lst_amount + profit - loss < 0
            || vault.vault_total_lst_amount + profit - loss > u64::MAX {
            Err(ErrorCode::ArithmeticOverflow)
        } else if vault.in_strategies_amount + profit - loss < 0 || vault.in_strategies_amount
            + profit - loss > u64::MAX {
            Err(ErrorCode::ArithmeticOverflow)
        } else if lst_to_sol_spec(profit, vault.lst_sol_price_p32) > u64::MAX {
            Err(ErrorCode::ArithmeticOverflow)
        } else if lst_to_sol_spec(loss, vault.lst_sol_price_p32) > u64::MAX {
            Err(ErrorCode::ArithmeticOverflow)
        } else {
            let profit_sol_value = lst_to_sol_spec(profit, vault.lst_sol_price_p32);
            let slashing_sol_value = lst_to_sol_spec(loss, vault.lst_sol_price_p32);
            if main.backing_sol_value + profit_sol_value - slashing_sol_value < 0
                || main.backing_sol_value + profit_sol_value - slashing_sol_value > u64::MAX {
                Err(ErrorCode::ArithmeticOverflow)
            } else {
                let new_backing = (main.backing_sol_value + profit_sol_value
                    - slashing_sol_value) as u64;
                let fee_sol_value = apply_bp_spec(
                    profit_sol_value as u64,
                    main.performance_fee_bp,
                );
                let fee_mpsol = if fee_sol_value == 0 {
                    0
                } else {
                    sol_to_shares_spec(fee_sol_value as u64, new_backing, mpsol_supply)
                };
                let performance_fee_mpsol = if fee_mpsol > 0 && poll_treasury_ok(
                    main,
                    treasury_account,
                    treasury_view,
                ) {
                    fee_mpsol as u64
                } else {
                    0u64
                };
                if mpsol_supply + performance_fee_mpsol > u64::MAX {
                    Err(ErrorCode::ArithmeticOverflow)
                } else {
                    Ok(
                        (
                            MainVaultState { backing_sol_value: new_backing, ..main },
                            SecondaryVaultState {
                                vault_total_lst_amount: (vault.vault_total_lst_amount + profit
                                    - loss) as u64,
                                in_strategies_amount: (vault.in_strategies_amount + profit
                                    - loss) as u64,
                                ..vault
                            },
                            VaultStrategyRelationEntry {
                                last_read_strat_lst_amount: reported,
                                last_read_strat_lst_timestamp: now_ts,
                                ..entry
                            },
                            StratPollOutcome {
                                event: UpdateAttachedStratLstAmountEvent {
                                    old_lst_amount: prior,
                                    new_lst_amount: reported,
                                    lst_price_p32: vault.lst_sol_price_p32,
                                    main_vault_backing_sol_value: new_backing,
                                },
                                performance_fee_mpsol,
                            },
                        ),
                    )
                }
            }
        }
    }
}

/// Permissionless reconciliation poll: compare the strategy's reported
/// holdings against the committed baseline, apply the profit/slashing
/// delta to the vault and the aggregate backing, commit the new baseline,
/// and compute the performance fee owed to a valid treasury.
///
/// On success the caller must mint `performance_fee_mpsol` pool shares to
/// the treasury.
pub fn handle_update_attached_strat_lst_amount(
    main_state: &mut MainVaultState,
    vault_state: &mut SecondaryVaultState,
    vault_strategy_relation_entry: &mut VaultStrategyRelationEntry,
    mpsol_supply: u64,
    common_strategy_state: &CommonStrategyState,
    strategy_deposit_amount: u64,
    lst_withdraw_amount: u64,
    treasury_account: AccountId,
    treasury_view: &TokenAccountView,
    now_ts: u64,
) -> (r: Result<StratPollOutcome, ErrorCode>)
    requires
        old(main_state).well_formed(),
        old(vault_state).well_formed(),
    ensures
        ({
            let model = strat_poll_model(
                *old(main_state),
                *old(vault_state),
                *old(vault_strategy_relation_entry),
                mpsol_supply,
                *common_strategy_state,
                strategy_deposit_amount,
                lst_withdraw_amount,
                treasury_account,
                *treasury_view,
                now_ts,
            );
            match model {
                Ok((m2, v2, e2, outcome)) => r == Ok::<_, ErrorCode>(outcome)
                    && *final(main_state) == m2 && *final(vault_state) == v2
                    && *final(vault_strategy_relation_entry) == e2,
                Err(e) => r == Err::<StratPollOutcome, _>(e)
                    && *final(main_state) == *old(main_state)
                    && *final(vault_state) == *old(vault_state)
                    && *final(vault_strategy_relation_entry) == *old(
                    vault_strategy_relation_entry,
                ),
            }
        }),
        final(main_state).well_formed(),
        final(vault_state).well_formed(),
{
    if common_strategy_state.lst_mint != vault_strategy_relation_entry.lst_mint {
        return Err(ErrorCode::StrategyLstMintMismatch);
    }
    let reported_part = match common_strategy_state.strat_total_lst_amount.checked_add(
        strategy_deposit_amount,
    ) {
        Some(v) => v,
        None => {
            return Err(ErrorCode::ArithmeticOverflow);
        },
    };
    let reported = match reported_part.checked_add(lst_withdraw_amount) {
        Some(v) => v,
        None => {
            return Err(ErrorCode::ArithmeticOverflow);
        },
    };
    match check_price_not_stale(vault_state.lst_sol_price_timestamp, now_ts) {
        Ok(()) => {},
        Err(e) => {
            return Err(e);
        },
    }
    let prior = vault_strategy_relation_entry.last_read_strat_lst_amount;
    let (profit, loss) = split_profit_slashing(prior, reported);
    let total_plus = match vault_state.vault_total_lst_amount.checked_add(profit) {
        Some(v) => v,
        None => {
            return Err(ErrorCode::ArithmeticOverflow);
        },
    };
    let new_total = match total_plus.checked_sub(loss) {
        Some(v) => v,
        None => {
            return Err(ErrorCode::ArithmeticOverflow);
        },
    };
    let in_strat_plus = match vault_state.in_strategies_amount.checked_add(profit) {
        Some(v) => v,
        None => {
            return Err(ErrorCode::ArithmeticOverflow);
        },
    };
    let new_in_strat = match in_strat_plus.checked_sub(loss) {
        Some(v) => v,
        None => {
            return Err(ErrorCode::ArithmeticOverflow);
        },
    };
    let profit_sol_value = match try_mul_div(profit, vault_state.lst_sol_price_p32, TWO_POW_32) {
        Some(v) => v,
        None => {
            return Err(ErrorCode::ArithmeticOverflow);
        },
    };
    let slashing_sol_value = match try_mul_div(loss, vault_state.lst_sol_price_p32, TWO_POW_32) {
        Some(v) => v,
        None => {
            return Err(ErrorCode::ArithmeticOverflow);
        },
    };
    proof {
        // One side of the split is always zero, so its SOL-value is too.
        vstd::arithmetic::div_mod::lemma_div_of0(TWO_POW_32 as int);
        assert((profit as int) * (vault_state.lst_sol_price_p32 as int) == 0 || (loss as int)
            * (vault_state.lst_sol_price_p32 as int) == 0) by (nonlinear_arith)
            requires
                profit == 0 || loss == 0,
        ;
        assert(profit_sol_value == 0 || slashing_sol_value == 0);
    }
    let backing_plus = match main_state.backing_sol_value.checked_add(profit_sol_value) {
        Some(v) => v,
        None => {
            return Err(ErrorCode::ArithmeticOverflow);
        },
    };
    let new_backing = match backing_plus.checked_sub(slashing_sol_value) {
        Some(v) => v,
        None => {
            return Err(ErrorCode::ArithmeticOverflow);
        },
    };
    let fee_sol_value = apply_bp(profit_sol_value, main_state.performance_fee_bp);
    let fee_mpsol = if fee_sol_value == 0 {
        0
    } else {
        proof {
            // A positive fee means a positive profit, so there was no
            // slashing and the new backing covers the whole fee.
            assert(slashing_sol_value == 0);
            lemma_mul_div_le_numerator(fee_sol_value, mpsol_supply, new_backing);
        }
        sol_value_to_mpsol_amount(fee_sol_value, new_backing, mpsol_supply)
    };
    let treasury_ok = match main_state.treasury_mpsol_account {
        Some(configured) => configured == treasury_account && verify_treasury_mp_sol_balance(
            &main_state.mpsol_mint,
            treasury_view,
        ).is_some(),
        None => false,
    };
    let performance_fee_mpsol = if fee_mpsol > 0 && treasury_ok {
        fee_mpsol
    } else {
        0
    };
    match mpsol_supply.checked_add(performance_fee_mpsol) {
        Some(_) => {},
        None => {
            return Err(ErrorCode::ArithmeticOverflow);
        },
    }
    vault_state.vault_total_lst_amount = new_total;
    vault_state.in_strategies_amount = new_in_strat;
    main_state.backing_sol_value = new_backing;
    vault_strategy_relation_entry.last_read_strat_lst_amount = reported;
    vault_strategy_relation_entry.last_read_strat_lst_timestamp = now_ts;
    Ok(
        StratPollOutcome {
            event: UpdateAttachedStratLstAmountEvent {
                old_lst_amount: prior,
                new_lst_amount: reported,
                lst_price_p32: vault_state.lst_sol_price_p32,
                main_vault_backing_sol_value: new_backing,
            },
            performance_fee_mpsol,
        },
    )
}

/// What delegating LST to a strategy does: the amount moves from local
/// custody into the delegated split, the vault total is untouched.
pub open spec fn transfer_to_strat_model(vault: SecondaryVaultState, lst_amount: u64) -> Result<
    (SecondaryVaultState, TransferLstToStratEvent),
    ErrorCode,
> {
    if lst_amount == 0 {
        Err(ErrorCode::AmountIsZero)
    } else if vault.in_strategies_amount + lst_amount > u64::MAX {
        Err(ErrorCode::ArithmeticOverflow)
    } else if vault.locally_stored_amount < lst_amount {
        Err(ErrorCode::ArithmeticOverflow)
    } else {
        Ok(
            (
                SecondaryVaultState {
                    in_strategies_amount: (vault.in_strategies_amount + lst_amount) as u64,
                    locally_stored_amount: (vault.locally_stored_amount - lst_amount) as u64,
                    ..vault
                },
                TransferLstToStratEvent { lst_amount },
            ),
        )
    }
}

/// Operator-gated: record that `lst_amount` was moved from vault custody
/// into the strategy's deposit account.  The vault total is invariant.
pub fn handle_transfer_lst_to_strat(vault_state: &mut SecondaryVaultState, lst_amount: u64) -> (r:
    Result<TransferLstToStratEvent, ErrorCode>)
    requires
        old(vault_state).well_formed(),
    ensures
        ({
            let model = transfer_to_strat_model(*old(vault_state), lst_amount);
            match model {
                Ok((v2, ev)) => r == Ok::<_, ErrorCode>(ev) && *final(vault_state) == v2,
                Err(e) => r == Err::<TransferLstToStratEvent, _>(e) && *final(vault_state) == *old(
                    vault_state,
                ),
            }
        }),
        final(vault_state).vault_total_lst_amount == old(vault_state).vault_total_lst_amount,
        final(vault_state).well_formed(),
{
    if lst_amount == 0 {
        return Err(ErrorCode::AmountIsZero);
    }
    let new_in_strat = match vault_state.in_strategies_amount.checked_add(lst_amount) {
        Some(v) => v,
        None => {
            return Err(ErrorCode::ArithmeticOverflow);
        },
    };
    let new_locally = match vault_state.locally_stored_amount.checked_sub(lst_amount) {
        Some(v) => v,
        None => {
            return Err(ErrorCode::ArithmeticOverflow);
        },
    };
    vault_state.in_strategies_amount = new_in_strat;
    vault_state.locally_stored_amount = new_locally;
    Ok(TransferLstToStratEvent { lst_amount })
}

/// What collecting staged LST back from a strategy does: the smaller of
/// the requested and staged amounts returns to local custody; the
/// withdrawal is no loss event, so the baseline shrinks with it.
pub open spec fn get_from_strat_model(
    vault: SecondaryVaultState,
    entry: VaultStrategyRelationEntry,
    lst_withdraw_account_amount: u64,
) -> Result<(SecondaryVaultState, VaultStrategyRelationEntry, GetLstFromStratEvent), ErrorCode> {
    let desired_amount = entry.next_withdraw_lst_amount;
    if desired_amount == 0 {
        Err(ErrorCode::AmountIsZero)
    } else if lst_withdraw_account_amount == 0 {
        Err(ErrorCode::ExistingAmountIsZero)
    } else {
        let lst_amount: u64 = if lst_withdraw_account_amount < desired_amount {
            lst_withdraw_account_amount
        } else {
            desired_amount
        };
        if vault.locally_stored_amount + lst_amount > u64::MAX {
            Err(ErrorCode::ArithmeticOverflow)
        } else if vault.in_strategies_amount < lst_amount {
            Err(ErrorCode::ArithmeticOverflow)
        } else if entry.last_read_strat_lst_amount < lst_amount {
            Err(ErrorCode::ArithmeticOverflow)
        } else {
            Ok(
                (
                    SecondaryVaultState {
                        locally_stored_amount: (vault.locally_stored_amount + lst_amount) as u64,
                        in_strategies_amount: (vault.in_strategies_amount - lst_amount) as u64,
                        ..vault
                    },
                    VaultStrategyRelationEntry {
                        next_withdraw_lst_amount: (entry.next_withdraw_lst_amount
                            - lst_amount) as u64,
                        last_read_strat_lst_amount: (entry.last_read_strat_lst_amount
                            - lst_amount) as u64,
                        ..entry
                    },
                    GetLstFromStratEvent {
                        desired_amount,
                        existent_amount: lst_withdraw_account_amount,
                        lst_amount,
                    },
                ),
            )
        }
    }
}

/// Permissionless: collect LST the strategy staged for withdrawal back
/// into vault custody, up to the requested unwind amount.  The vault
/// total is invariant; the decrease of the strategy baseline is not a
/// loss event.
pub fn handle_get_lst_from_strat(
    vault_state: &mut SecondaryVaultState,
    vault_strategy_relation_entry: &mut VaultStrategyRelationEntry,
    lst_withdraw_account_amount: u64,
) -> (r: Result<GetLstFromStratEvent, ErrorCode>)
    requires
        old(vault_state).well_formed(),
    ensures
        ({
            let model = get_from_strat_model(
                *old(vault_state),
                *old(vault_strategy_relation_entry),
                lst_withdraw_account_amount,
            );
            match model {
                Ok((v2, e2, ev)) => r == Ok::<_, ErrorCode>(ev) && *final(vault_state) == v2
                    && *final(vault_strategy_relation_entry) == e2,
                Err(e) => r == Err::<GetLstFromStratEvent, _>(e) && *final(vault_state) == *old(
                    vault_state,
                ) && *final(vault_strategy_relation_entry) == *old(vault_strategy_relation_entry),
            }
        }),
        final(vault_state).vault_total_lst_amount == old(vault_state).vault_total_lst_amount,
        final(vault_state).well_formed(),
{
    let desired_amount = vault_strategy_relation_entry.next_withdraw_lst_amount;
    if desired_amount == 0 {
        return Err(ErrorCode::AmountIsZero);
    }
    if lst_withdraw_account_amount == 0 {
        return Err(ErrorCode::ExistingAmountIsZero);
    }
    let lst_amount = if lst_withdraw_account_amount < desired_amount {
        lst_withdraw_account_amount
    } else {
        desired_amount
    };
    let new_locally = match vault_state.locally_stored_amount.checked_add(lst_amount) {
        Some(v) => v,
        None => {
            return Err(ErrorCode::ArithmeticOverflow);
        },
    };
    let new_in_strat = match vault_state.in_strategies_amount.checked_sub(lst_amount) {
        Some(v) => v,
        None => {
            return Err(ErrorCode::ArithmeticOverflow);
        },
    };
    let new_last_read = match vault_strategy_relation_entry.last_read_strat_lst_amount.checked_sub(
        lst_amount,
    ) {
        Some(v) => v,
        None => {
            return Err(ErrorCode::ArithmeticOverflow);
        },
    };
    vault_state.locally_stored_amount = new_locally;
    vault_state.in_strategies_amount = new_in_strat;
    vault_strategy_relation_entry.next_withdraw_lst_amount = desired_amount - lst_amount;
    vault_strategy_relation_entry.last_read_strat_lst_amount = new_last_read;
    Ok(
        GetLstFromStratEvent {
            desired_amount,
            existent_amount: lst_withdraw_account_amount,
            lst_amount,
        },
    )
}

/// Operator-gated: signal the strategy how much LST to unwind.  A zero
/// request is refused, and anything already staged for collection must be
/// collected first, so the new target may not undershoot the staged
/// amount.
pub fn handle_set_next_withdraw_amount(
    vault_strategy_relation_entry: &mut VaultStrategyRelationEntry,
    lst_amount: u64,
    lst_withdraw_account_amount: u64,
) -> (r: Result<(), ErrorCode>)
    ensures
        lst_amount == 0 ==> r == Err::<(), _>(ErrorCode::AmountIsZero),
        lst_amount != 0 && lst_amount < lst_withdraw_account_amount ==> r == Err::<(), _>(
            ErrorCode::MustWithdrawAllPendingLst,
        ),
        r is Ok <==> lst_amount != 0 && lst_amount >= lst_withdraw_account_amount,
        r is Ok ==> *final(vault_strategy_relation_entry) == (VaultStrategyRelationEntry {
            next_withdraw_lst_amount: lst_amount,
            ..*old(vault_strategy_relation_entry)
        }),
        r is Err ==> *final(vault_strategy_relation_entry) == *old(
            vault_strategy_relation_entry,
        ),
{
    if lst_amount == 0 {
        return Err(ErrorCode::AmountIsZero);
    }
    if lst_amount < lst_withdraw_account_amount {
        return Err(ErrorCode::MustWithdrawAllPendingLst);
    }
    vault_strategy_relation_entry.next_withdraw_lst_amount = lst_amount;
    Ok(())
}

/// Operator-gated: set the SOL-value the ticket fulfiller wants kept in
/// local custody for pending ticket settlement.
pub fn handle_update_vault_ticket_target(
    secondary_state: &mut SecondaryVaultState,
    new_ticket_target_sol_amount: u64,
) -> (r: ())
    ensures
        *final(secondary_state) == (SecondaryVaultState {
            tickets_target_sol_amount: new_ticket_target_sol_amount,
            ..*old(secondary_state)
        }),
{
    secondary_state.tickets_target_sol_amount = new_ticket_target_sol_amount;
}

} // verus!
