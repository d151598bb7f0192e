use mp_sol_restaking::constants::{MIN_MOVEMENT_LAMPORTS, ONE_DAY_IN_SECONDS, TWO_POW_32};
use mp_sol_restaking::error::ErrorCode;
use mp_sol_restaking::keys::AccountId;
use mp_sol_restaking::main_vault::MainVaultState;
use mp_sol_restaking::secondary_vault::SecondaryVaultState;
use mp_sol_restaking::stake::handle_stake;
use mp_sol_restaking::treasury::{ParsedTokenAccount, TokenAccountView};
use mp_sol_restaking::unstake::handle_unstake;

fn key(n: u128) -> AccountId {
    AccountId { hi: 0, lo: n }
}

fn main_state() -> MainVaultState {
    MainVaultState {
        admin: key(1),
        operator_auth: key(2),
        strategy_rebalancer_auth: key(3),
        mpsol_mint: key(4),
        treasury_mpsol_account: None,
        performance_fee_bp: 1_000,
        withdraw_fee_bp: 10,
        backing_sol_value: 0,
        outstanding_tickets_sol_value: 0,
        unstake_ticket_waiting_hours: 48,
    }
}

fn vault(price_p32: u64, price_ts: u64) -> SecondaryVaultState {
    SecondaryVaultState {
        lst_mint: key(10),
        lst_sol_price_p32: price_p32,
        lst_sol_price_timestamp: price_ts,
        vault_total_lst_amount: 0,
        locally_stored_amount: 0,
        in_strategies_amount: 0,
        tickets_target_sol_amount: 0,
        deposits_disabled: false,
        token_deposit_cap: 0,
    }
}

fn no_treasury_view() -> TokenAccountView {
    TokenAccountView { owned_by_token_program: false, parsed: None }
}

const NOW: u64 = 1_700_000_000;

#[test]
fn stake_unstake_round_trip_at_parity() {
    // Vault price 1.0, empty pool: deposit 10_000_000 LST.
    let mut main = main_state();
    let mut v = vault(TWO_POW_32, NOW);
    let ev = handle_stake(&mut main, &mut v, 0, 10_000_000, 0, NOW).unwrap();
    assert_eq!(ev.deposited_sol_value, 10_000_000);
    assert_eq!(ev.mpsol_received, 10_000_000); // no deposit fee is withheld
    assert_eq!(main.backing_sol_value, 10_000_000);
    assert_eq!(v.locally_stored_amount, 10_000_000);
    assert_eq!(v.vault_total_lst_amount, 10_000_000);

    // Unstake all shares: no treasury configured, so no fee.
    let (ticket, uev) =
        handle_unstake(&mut main, 10_000_000, 10_000_000, key(99), &no_treasury_view(), key(50), key(51), NOW)
            .unwrap();
    assert_eq!(uev.withdrawal_fee_mpsol, 0);
    assert_eq!(uev.mpsol_burned, 10_000_000);
    assert_eq!(ticket.ticket_sol_value, 10_000_000);
    assert_eq!(ticket.ticket_due_timestamp, NOW + 48 * 3600);
    assert_eq!(main.backing_sol_value, 0);
    assert_eq!(main.outstanding_tickets_sol_value, 10_000_000);
}

#[test]
fn stake_preserves_price_with_existing_pool() {
    // Pool price 1.25 (backing 125, supply 100, in millions).
    let mut main = main_state();
    main.backing_sol_value = 125_000_000;
    let mut v = vault(TWO_POW_32, NOW);
    let ev = handle_stake(&mut main, &mut v, 100_000_000, 10_000_000, 7, NOW).unwrap();
    assert_eq!(ev.deposited_sol_value, 10_000_000);
    assert_eq!(ev.mpsol_received, 8_000_000); // 10 / 1.25
    assert_eq!(ev.ref_code, 7);
    assert_eq!(main.backing_sol_value, 135_000_000);
    assert_eq!(ev.mpsol_supply, 108_000_000);
    // Price before: 125/100 == 1.25; after: 135/108 == 1.25 exactly.
    assert_eq!(135_000_000u128 * 100_000_000u128, 125_000_000u128 * 108_000_000u128);
}

#[test]
fn stake_rejected_when_deposits_disabled() {
    let mut main = main_state();
    let mut v = vault(TWO_POW_32, NOW);
    v.deposits_disabled = true;
    let r = handle_stake(&mut main, &mut v, 0, 10_000_000, 0, NOW);
    assert_eq!(r.unwrap_err(), ErrorCode::DepositsInThisVaultAreDisabled);
    assert_eq!(main.backing_sol_value, 0);
}

#[test]
fn stake_rejected_below_minimum_movement() {
    let mut main = main_state();
    let mut v = vault(TWO_POW_32, NOW);
    let r = handle_stake(&mut main, &mut v, 0, MIN_MOVEMENT_LAMPORTS - 1, 0, NOW);
    assert_eq!(r.unwrap_err(), ErrorCode::DepositAmountToSmall);
}

#[test]
fn stake_rejected_below_parity_price() {
    let mut main = main_state();
    let mut v = vault(TWO_POW_32 - 1, NOW);
    let r = handle_stake(&mut main, &mut v, 0, 10_000_000, 0, NOW);
    assert_eq!(r.unwrap_err(), ErrorCode::InvalidStoredLstPrice);
}

#[test]
fn stake_staleness_gate() {
    let mut main = main_state();
    // Price cached just over a day ago: stale.
    let mut v = vault(TWO_POW_32, NOW - ONE_DAY_IN_SECONDS - 1);
    let r = handle_stake(&mut main, &mut v, 0, 10_000_000, 0, NOW);
    assert_eq!(r.unwrap_err(), ErrorCode::TokenSolPriceIsStale);
    // Exactly a day old is still accepted.
    let mut v2 = vault(TWO_POW_32, NOW - ONE_DAY_IN_SECONDS);
    assert!(handle_stake(&mut main, &mut v2, 0, 10_000_000, 0, NOW).is_ok());
}

#[test]
fn stake_rejected_over_deposit_cap() {
    let mut main = main_state();
    let mut v = vault(TWO_POW_32, NOW);
    v.token_deposit_cap = 15_000_000;
    v.locally_stored_amount = 6_000_000;
    v.vault_total_lst_amount = 6_000_000;
    let r = handle_stake(&mut main, &mut v, 0, 10_000_000, 0, NOW);
    assert_eq!(r.unwrap_err(), ErrorCode::DepositExceedsVaultCap);
    assert_eq!(v.locally_stored_amount, 6_000_000);
    // A deposit that exactly reaches the cap passes.
    let r2 = handle_stake(&mut main, &mut v, 0, 9_000_000, 0, NOW);
    assert!(r2.is_ok());
    assert_eq!(v.vault_total_lst_amount, 15_000_000);
}

#[test]
fn unstake_pays_fee_to_valid_treasury() {
    let mut main = main_state();
    main.backing_sol_value = 100_000_000;
    main.treasury_mpsol_account = Some(key(77));
    let view = TokenAccountView {
        owned_by_token_program: true,
        parsed: Some(ParsedTokenAccount { mint: key(4), amount: 0 }),
    };
    let (ticket, ev) =
        handle_unstake(&mut main, 100_000_000, 10_000_000, key(77), &view, key(50), key(51), NOW)
            .unwrap();
    // 0.1% of 10_000_000 shares is 10_000; the rest burns at price 1.0.
    assert_eq!(ev.withdrawal_fee_mpsol, 10_000);
    assert_eq!(ev.mpsol_burned, 9_990_000);
    assert_eq!(ticket.ticket_sol_value, 9_990_000);
    assert_eq!(main.backing_sol_value, 100_000_000 - 9_990_000);
    // Share price before: 100/100; after: 90.01/90.01 — unchanged, since
    // the fee is transferred rather than burned.
    assert_eq!(
        u128::from(main.backing_sol_value) * 100_000_000u128,
        100_000_000u128 * u128::from(ev.mpsol_supply)
    );
}

#[test]
fn unstake_misconfigured_treasury_does_not_block() {
    // Treasury configured, but the account holds the wrong mint: the
    // withdrawal must still succeed with zero fee.
    let mut main = main_state();
    main.backing_sol_value = 100_000_000;
    main.treasury_mpsol_account = Some(key(77));
    let wrong_mint_view = TokenAccountView {
        owned_by_token_program: true,
        parsed: Some(ParsedTokenAccount { mint: key(999), amount: 0 }),
    };
    let (ticket, ev) = handle_unstake(
        &mut main,
        100_000_000,
        10_000_000,
        key(77),
        &wrong_mint_view,
        key(50),
        key(51),
        NOW,
    )
    .unwrap();
    assert_eq!(ev.withdrawal_fee_mpsol, 0);
    assert_eq!(ev.mpsol_burned, 10_000_000);
    assert_eq!(ticket.ticket_sol_value, 10_000_000);
}

#[test]
fn unstake_wrong_treasury_account_rejected() {
    let mut main = main_state();
    main.backing_sol_value = 100_000_000;
    main.treasury_mpsol_account = Some(key(77));
    let r = handle_unstake(
        &mut main,
        100_000_000,
        10_000_000,
        key(78),
        &no_treasury_view(),
        key(50),
        key(51),
        NOW,
    );
    assert_eq!(r.unwrap_err(), ErrorCode::InvalidTreasuryMpsolAccount);
    assert_eq!(main.backing_sol_value, 100_000_000);
}

#[test]
fn unstake_rejected_below_minimum_movement() {
    let mut main = main_state();
    main.backing_sol_value = 100_000_000;
    let r = handle_unstake(
        &mut main,
        100_000_000,
        MIN_MOVEMENT_LAMPORTS - 1,
        key(99),
        &no_treasury_view(),
        key(50),
        key(51),
        NOW,
    );
    assert_eq!(r.unwrap_err(), ErrorCode::UnstakeAmountTooSmall);
}

#[test]
fn unstake_from_empty_pool_is_arithmetic_failure() {
    let mut main = main_state();
    let r = handle_unstake(
        &mut main,
        0,
        10_000_000,
        key(99),
        &no_treasury_view(),
        key(50),
        key(51),
        NOW,
    );
    assert_eq!(r.unwrap_err(), ErrorCode::ArithmeticOverflow);
}
