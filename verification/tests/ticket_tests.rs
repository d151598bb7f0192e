use mp_sol_restaking::constants::{MIN_MOVEMENT_LAMPORTS, ONE_DAY_IN_SECONDS, TWO_POW_32};
use mp_sol_restaking::error::ErrorCode;
use mp_sol_restaking::keys::{AccountId, KnownIds};
use mp_sol_restaking::main_vault::MainVaultState;
use mp_sol_restaking::price::LstStateBlob;
use mp_sol_restaking::secondary_vault::SecondaryVaultState;
use mp_sol_restaking::ticket_claim::handle_ticket_claim;
use mp_sol_restaking::unstake_ticket::UnstakeTicket;

fn key(n: u128) -> AccountId {
    AccountId { hi: 0, lo: n }
}

fn ids() -> KnownIds {
    KnownIds {
        wsol_mint: key(100),
        marinade_msol_mint: key(101),
        marinade_state_address: key(102),
        spl_stake_pool_program: key(103),
    }
}

fn main_state(backing: u64, outstanding: u64) -> MainVaultState {
    MainVaultState {
        admin: key(1),
        operator_auth: key(2),
        strategy_rebalancer_auth: key(3),
        mpsol_mint: key(4),
        treasury_mpsol_account: None,
        performance_fee_bp: 1_000,
        withdraw_fee_bp: 10,
        backing_sol_value: backing,
        outstanding_tickets_sol_value: outstanding,
        unstake_ticket_waiting_hours: 48,
    }
}

/// A wrapped-SOL vault: parity price needs no external blob.
fn wsol_vault(total: u64, price_ts: u64) -> SecondaryVaultState {
    SecondaryVaultState {
        lst_mint: key(100),
        lst_sol_price_p32: TWO_POW_32,
        lst_sol_price_timestamp: price_ts,
        vault_total_lst_amount: total,
        locally_stored_amount: total,
        in_strategies_amount: 0,
        tickets_target_sol_amount: 0,
        deposits_disabled: false,
        token_deposit_cap: 0,
    }
}

fn ticket(value: u64, due: u64) -> UnstakeTicket {
    UnstakeTicket {
        main_state: key(50),
        beneficiary: key(51),
        ticket_sol_value: value,
        ticket_due_timestamp: due,
    }
}

const NOW: u64 = 1_700_000_000;

#[test]
fn claim_full_value_closes_ticket() {
    let mut main = main_state(0, 10_000_000);
    let mut v = wsol_vault(10_000_000, NOW);
    let mut t = ticket(10_000_000, NOW);
    let outcome = handle_ticket_claim(
        &mut main,
        &mut v,
        &mut t,
        10_000_000,
        &ids(),
        &LstStateBlob::Missing,
        10_000_000,
        NOW,
    )
    .unwrap();
    assert!(outcome.ticket_closed);
    assert_eq!(outcome.event.lst_amount_delivered, 10_000_000);
    assert_eq!(outcome.event.ticket_sol_value_remaining, 0);
    assert_eq!(t.ticket_sol_value, 0);
    assert_eq!(main.outstanding_tickets_sol_value, 0);
    assert_eq!(v.vault_total_lst_amount, 0);
    assert_eq!(v.locally_stored_amount, 0);
}

#[test]
fn claim_partial_leaves_significant_remainder() {
    let mut main = main_state(0, 10_000_000);
    let mut v = wsol_vault(10_000_000, NOW);
    let mut t = ticket(10_000_000, NOW);
    let outcome = handle_ticket_claim(
        &mut main,
        &mut v,
        &mut t,
        4_000_000,
        &ids(),
        &LstStateBlob::Missing,
        10_000_000,
        NOW,
    )
    .unwrap();
    assert!(!outcome.ticket_closed);
    assert_eq!(t.ticket_sol_value, 6_000_000);
    assert_eq!(main.outstanding_tickets_sol_value, 6_000_000);
    assert_eq!(v.locally_stored_amount, 6_000_000);
}

#[test]
fn claim_dust_remainder_rejected() {
    // Claiming 9_500_000 of 10_000_000 would leave 500_000, strictly
    // between zero and the minimum movement: refused, nothing changes.
    let mut main = main_state(0, 10_000_000);
    let mut v = wsol_vault(10_000_000, NOW);
    let mut t = ticket(10_000_000, NOW);
    let r = handle_ticket_claim(
        &mut main,
        &mut v,
        &mut t,
        10_000_000 - MIN_MOVEMENT_LAMPORTS / 2,
        &ids(),
        &LstStateBlob::Missing,
        10_000_000,
        NOW,
    );
    assert_eq!(r.unwrap_err(), ErrorCode::CantLeaveDustInTicket);
    assert_eq!(t.ticket_sol_value, 10_000_000);
    assert_eq!(main.outstanding_tickets_sol_value, 10_000_000);
    assert_eq!(v.locally_stored_amount, 10_000_000);
}

#[test]
fn claim_partial_below_minimum_rejected() {
    let mut main = main_state(0, 10_000_000);
    let mut v = wsol_vault(10_000_000, NOW);
    let mut t = ticket(10_000_000, NOW);
    let r = handle_ticket_claim(
        &mut main,
        &mut v,
        &mut t,
        MIN_MOVEMENT_LAMPORTS - 1,
        &ids(),
        &LstStateBlob::Missing,
        10_000_000,
        NOW,
    );
    assert_eq!(r.unwrap_err(), ErrorCode::UnstakeAmountTooSmall);
}

#[test]
fn claim_before_due_rejected() {
    let mut main = main_state(0, 10_000_000);
    let mut v = wsol_vault(10_000_000, NOW);
    let mut t = ticket(10_000_000, NOW + 1);
    let r = handle_ticket_claim(
        &mut main,
        &mut v,
        &mut t,
        10_000_000,
        &ids(),
        &LstStateBlob::Missing,
        10_000_000,
        NOW,
    );
    assert_eq!(r.unwrap_err(), ErrorCode::TicketIsNotDueYet);
}

#[test]
fn claim_more_than_ticket_rejected() {
    let mut main = main_state(0, 10_000_000);
    let mut v = wsol_vault(10_000_000, NOW);
    let mut t = ticket(10_000_000, NOW);
    let r = handle_ticket_claim(
        &mut main,
        &mut v,
        &mut t,
        10_000_001,
        &ids(),
        &LstStateBlob::Missing,
        10_000_000,
        NOW,
    );
    assert_eq!(r.unwrap_err(), ErrorCode::NotEnoughSolValueInTicket);
}

#[test]
fn claim_needs_enough_lst_in_custody() {
    let mut main = main_state(0, 10_000_000);
    let mut v = wsol_vault(10_000_000, NOW);
    let mut t = ticket(10_000_000, NOW);
    // The custody account holds less than the claim converts to.
    let r = handle_ticket_claim(
        &mut main,
        &mut v,
        &mut t,
        10_000_000,
        &ids(),
        &LstStateBlob::Missing,
        9_999_999,
        NOW,
    );
    assert_eq!(r.unwrap_err(), ErrorCode::NotEnoughLstInVault);
}

#[test]
fn claim_staleness_gate() {
    // The vault's price timestamp is over a day old and the parity price
    // does not move, so nothing refreshes it: the claim is refused.
    let mut main = main_state(0, 10_000_000);
    let mut v = wsol_vault(10_000_000, NOW - ONE_DAY_IN_SECONDS - 1);
    let mut t = ticket(10_000_000, NOW);
    let r = handle_ticket_claim(
        &mut main,
        &mut v,
        &mut t,
        10_000_000,
        &ids(),
        &LstStateBlob::Missing,
        10_000_000,
        NOW,
    );
    assert_eq!(r.unwrap_err(), ErrorCode::TokenSolPriceIsStale);
}

#[test]
fn claim_refreshes_price_before_converting() {
    // A priced-pool vault whose price rose from 1.0 to 1.25 since the
    // unstake: the inline refresh must be applied before converting, so
    // the claim delivers fewer LST and the backing absorbs the profit.
    let mut main = main_state(100_000_000, 10_000_000);
    let mut v = SecondaryVaultState {
        lst_mint: key(200),
        lst_sol_price_p32: TWO_POW_32,
        lst_sol_price_timestamp: NOW - ONE_DAY_IN_SECONDS - 1,
        vault_total_lst_amount: 100_000_000,
        locally_stored_amount: 100_000_000,
        in_strategies_amount: 0,
        tickets_target_sol_amount: 0,
        deposits_disabled: false,
        token_deposit_cap: 0,
    };
    let mut t = ticket(10_000_000, NOW);
    let blob = LstStateBlob::SplStakePool {
        owner_program: key(103),
        account_type: mp_sol_restaking::price::PoolAccountType::StakePool,
        pool_mint: key(200),
        total_lamports: 125_000_000,
        pool_token_supply: 100_000_000,
    };
    let outcome = handle_ticket_claim(
        &mut main,
        &mut v,
        &mut t,
        10_000_000,
        &ids(),
        &blob,
        100_000_000,
        NOW,
    )
    .unwrap();
    // Price refresh: 100M LST repriced from 100M to 125M SOL-value.
    let pe = outcome.price_event.unwrap();
    assert_eq!(pe.new_price_p32, TWO_POW_32 + TWO_POW_32 / 4);
    assert_eq!(v.lst_sol_price_timestamp, NOW);
    // 10M SOL-value at 1.25 is 8M LST.
    assert_eq!(outcome.event.lst_amount_delivered, 8_000_000);
    assert_eq!(v.vault_total_lst_amount, 92_000_000);
    // Backing: 100M + 25M repricing profit.
    assert_eq!(main.backing_sol_value, 125_000_000);
}
