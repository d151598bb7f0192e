//! Administration: creating and configuring the ledger records.

use vstd::prelude::*;
use crate::common_strategy_state::CommonStrategyState;
use crate::constants::{MAX_PERFORMANCE_FEE_BP, MAX_WITHDRAW_FEE_BP};
use crate::error::ErrorCode;
use crate::keys::AccountId;
use crate::main_vault::MainVaultState;
use crate::secondary_vault::SecondaryVaultState;
use crate::vault_strategy_relation_entry::VaultStrategyRelationEntry;

verus! {

/// Performance fee a fresh deployment starts with (10%).
pub const INITIAL_PERFORMANCE_FEE_BP: u16 = 1_000;

/// Withdrawal fee a fresh deployment starts with (0.1%).
pub const INITIAL_WITHDRAW_FEE_BP: u16 = 10;

/// Ticket waiting period a fresh deployment starts with.
pub const INITIAL_UNSTAKE_TICKET_WAITING_HOURS: u16 = 48;

/// A fresh deployment: nothing backed, nothing outstanding, no treasury,
/// default fee rates and waiting period.
pub fn handle_initialize(
    admin: AccountId,
    operator_auth: AccountId,
    strategy_rebalancer_auth: AccountId,
    mpsol_mint: AccountId,
) -> (m: MainVaultState)
    ensures
        m == (MainVaultState {
            admin,
            operator_auth,
            strategy_rebalancer_auth,
            mpsol_mint,
            treasury_mpsol_account: None,
            performance_fee_bp: INITIAL_PERFORMANCE_FEE_BP,
            withdraw_fee_bp: INITIAL_WITHDRAW_FEE_BP,
            backing_sol_value: 0u64,
            outstanding_tickets_sol_value: 0u64,
            unstake_ticket_waiting_hours: INITIAL_UNSTAKE_TICKET_WAITING_HOURS,
        }),
        m.well_formed(),
{
    MainVaultState {
        admin,
        operator_auth,
        strategy_rebalancer_auth,
        mpsol_mint,
        treasury_mpsol_account: None,
        performance_fee_bp: INITIAL_PERFORMANCE_FEE_BP,
        withdraw_fee_bp: INITIAL_WITHDRAW_FEE_BP,
        backing_sol_value: 0,
        outstanding_tickets_sol_value: 0,
        unstake_ticket_waiting_hours: INITIAL_UNSTAKE_TICKET_WAITING_HOURS,
    }
}

/// A fresh vault for one LST: empty, price not yet read, deposits
/// disabled until the admin enables them.
pub fn handle_create_secondary_vault(lst_mint: AccountId) -> (v: SecondaryVaultState)
    ensures
        v == (SecondaryVaultState {
            lst_mint,
            lst_sol_price_p32: 0u64,
            lst_sol_price_timestamp: 0u64,
            vault_total_lst_amount: 0u64,
            locally_stored_amount: 0u64,
            in_strategies_amount: 0u64,
            tickets_target_sol_amount: 0u64,
            deposits_disabled: true,
            token_deposit_cap: 0u64,
        }),
        v.well_formed(),
{
    SecondaryVaultState {
        lst_mint,
        lst_sol_price_p32: 0,
        lst_sol_price_timestamp: 0,
        vault_total_lst_amount: 0,
        locally_stored_amount: 0,
        in_strategies_amount: 0,
        tickets_target_sol_amount: 0,
        deposits_disabled: true,
        token_deposit_cap: 0,
    }
}

/// Attach an external strategy to a vault.  The strategy must report the
/// vault's own LST and a zero balance; the new bridge record starts with
/// a zero baseline.
pub fn handle_attach_common_strategy_state(
    main_state_key: AccountId,
    lst_mint: AccountId,
    common_strategy_state_key: AccountId,
    strategy_program_code: AccountId,
    strategy_state: &CommonStrategyState,
) -> (r: Result<VaultStrategyRelationEntry, ErrorCode>)
    ensures
        strategy_state.lst_mint != lst_mint ==> r == Err::<VaultStrategyRelationEntry, _>(
            ErrorCode::StrategyLstMintMismatch,
        ),
        strategy_state.lst_mint == lst_mint && strategy_state.strat_total_lst_amount != 0 ==> r
            == Err::<VaultStrategyRelationEntry, _>(ErrorCode::NewStrategyLstAmountShouldBeZero),
        strategy_state.lst_mint == lst_mint && strategy_state.strat_total_lst_amount == 0 ==> r
            == Ok::<_, ErrorCode>(VaultStrategyRelationEntry {
            main_state: main_state_key,
            lst_mint,
            common_strategy_state: common_strategy_state_key,
            strategy_program_code,
            next_withdraw_lst_amount: 0u64,
            tickets_target_sol_amount: 0u64,
            last_read_strat_lst_amount: 0u64,
            last_read_strat_lst_timestamp: 0u64,
        }),
{
    if strategy_state.lst_mint != lst_mint {
        return Err(ErrorCode::StrategyLstMintMismatch);
    }
    if strategy_state.strat_total_lst_amount != 0 {
        return Err(ErrorCode::NewStrategyLstAmountShouldBeZero);
    }
    Ok(
        VaultStrategyRelationEntry {
            main_state: main_state_key,
            lst_mint,
            common_strategy_state: common_strategy_state_key,
            strategy_program_code,
            next_withdraw_lst_amount: 0,
            tickets_target_sol_amount: 0,
            last_read_strat_lst_amount: 0,
            last_read_strat_lst_timestamp: 0,
        },
    )
}

/// Point the fee treasury at a pool-share token account.  The account
/// must hold the pool-share mint.
pub fn handle_configure_treasury_account(
    main_state: &mut MainVaultState,
    treasury_account: AccountId,
    treasury_account_mint: AccountId,
) -> (r: Result<(), ErrorCode>)
    ensures
        r is Ok <==> treasury_account_mint == old(main_state).mpsol_mint,
        r is Ok ==> *final(main_state) == (MainVaultState {
            treasury_mpsol_account: Some(treasury_account),
            ..*old(main_state)
        }),
        r is Err ==> r->Err_0 == ErrorCode::InvalidTreasuryMpsolAccount && *final(main_state)
            == *old(main_state),
{
    if treasury_account_mint != main_state.mpsol_mint {
        return Err(ErrorCode::InvalidTreasuryMpsolAccount);
    }
    main_state.treasury_mpsol_account = Some(treasury_account);
    Ok(())
}

/// Stop collecting fees: clear the treasury.
pub fn handle_clear_treasury_account(main_state: &mut MainVaultState)
    ensures
        *final(main_state) == (MainVaultState {
            treasury_mpsol_account: None,
            ..*old(main_state)
        }),
{
    main_state.treasury_mpsol_account = None;
}

/// Set the waiting period for new tickets.
pub fn handle_configure_unstake_waiting_hours(main_state: &mut MainVaultState, hours: u16)
    ensures
        *final(main_state) == (MainVaultState {
            unstake_ticket_waiting_hours: hours,
            ..*old(main_state)
        }),
{
    main_state.unstake_ticket_waiting_hours = hours;
}

/// Set the withdrawal fee rate, bounded by its protocol maximum.
pub fn handle_configure_withdrawal_fee(main_state: &mut MainVaultState, bp: u16) -> (r: Result<
    (),
    ErrorCode,
>)
    ensures
        r is Ok <==> bp <= MAX_WITHDRAW_FEE_BP,
        r is Ok ==> *final(main_state) == (MainVaultState {
            withdraw_fee_bp: bp,
            ..*old(main_state)
        }),
        r is Err ==> r->Err_0 == ErrorCode::WithdrawFeeTooHigh && *final(main_state) == *old(
            main_state,
        ),
{
    if bp > MAX_WITHDRAW_FEE_BP {
        return Err(ErrorCode::WithdrawFeeTooHigh);
    }
    main_state.withdraw_fee_bp = bp;
    Ok(())
}

/// Set the performance fee rate, bounded by its protocol maximum.
pub fn handle_configure_performance_fee(main_state: &mut MainVaultState, bp: u16) -> (r: Result<
    (),
    ErrorCode,
>)
    ensures
        r is Ok <==> bp <= MAX_PERFORMANCE_FEE_BP,
        r is Ok ==> *final(main_state) == (MainVaultState {
            performance_fee_bp: bp,
            ..*old(main_state)
        }),
        r is Err ==> r->Err_0 == ErrorCode::PerformanceFeeTooHigh && *final(main_state) == *old(
            main_state,
        ),
{
    if bp > MAX_PERFORMANCE_FEE_BP {
        return Err(ErrorCode::PerformanceFeeTooHigh);
    }
    main_state.performance_fee_bp = bp;
    Ok(())
}

/// Hand the operator role to another identity.
pub fn handle_configure_operator_auth(main_state: &mut MainVaultState, auth: AccountId)
    ensures
        *final(main_state) == (MainVaultState { operator_auth: auth, ..*old(main_state) }),
{
    main_state.operator_auth = auth;
}

/// Hand the admin role to another identity.
pub fn handle_configure_new_admin(main_state: &mut MainVaultState, new_admin: AccountId)
    ensures
        *final(main_state) == (MainVaultState { admin: new_admin, ..*old(main_state) }),
{
    main_state.admin = new_admin;
}

/// Reconfigure a vault: each setting given replaces the stored one,
/// absent settings stay as they are.
pub fn handle_configure_secondary_vault(
    secondary_state: &mut SecondaryVaultState,
    deposits_disabled: Option<bool>,
    token_deposit_cap: Option<u64>,
)
    ensures
        *final(secondary_state) == (SecondaryVaultState {
            deposits_disabled: match deposits_disabled {
                Some(b) => b,
                None => old(secondary_state).deposits_disabled,
            },
            token_deposit_cap: match token_deposit_cap {
                Some(cap) => cap,
                None => old(secondary_state).token_deposit_cap,
            },
            ..*old(secondary_state)
        }),
{
    match deposits_disabled {
        Some(b) => {
            secondary_state.deposits_disabled = b;
        },
        None => {},
    }
    match token_deposit_cap {
        Some(cap) => {
            secondary_state.token_deposit_cap = cap;
        },
        None => {},
    }
}

} // verus!
