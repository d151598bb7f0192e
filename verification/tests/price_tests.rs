use mp_sol_restaking::constants::{ONE_DAY_IN_SECONDS, TWO_POW_32};
use mp_sol_restaking::error::ErrorCode;
use mp_sol_restaking::keys::{AccountId, KnownIds};
use mp_sol_restaking::main_vault::MainVaultState;
use mp_sol_restaking::price::{
    check_price_not_stale, check_price_not_stale_seconds, compute_lst_sol_price,
    internal_update_vault_token_sol_price, LstStateBlob, PoolAccountType,
};
use mp_sol_restaking::secondary_vault::SecondaryVaultState;
use mp_sol_restaking::stake::handle_stake;

fn key(n: u128) -> AccountId {
    AccountId { hi: 0, lo: n }
}

fn ids() -> KnownIds {
    KnownIds {
        wsol_mint: key(100),
        marinade_msol_mint: key(101),
        marinade_state_address: key(102),
        spl_stake_pool_program: key(103),
    }
}

fn main_state(backing: u64) -> MainVaultState {
    MainVaultState {
        admin: key(1),
        operator_auth: key(2),
        strategy_rebalancer_auth: key(3),
        mpsol_mint: key(4),
        treasury_mpsol_account: None,
        performance_fee_bp: 1_000,
        withdraw_fee_bp: 10,
        backing_sol_value: backing,
        outstanding_tickets_sol_value: 0,
        unstake_ticket_waiting_hours: 48,
    }
}

fn pool_vault(mint: AccountId, price: u64, ts: u64, total: u64) -> SecondaryVaultState {
    SecondaryVaultState {
        lst_mint: mint,
        lst_sol_price_p32: price,
        lst_sol_price_timestamp: ts,
        vault_total_lst_amount: total,
        locally_stored_amount: total,
        in_strategies_amount: 0,
        tickets_target_sol_amount: 0,
        deposits_disabled: false,
        token_deposit_cap: 0,
    }
}

const NOW: u64 = 1_700_000_000;

#[test]
fn staleness_boundary() {
    assert!(check_price_not_stale(NOW - ONE_DAY_IN_SECONDS, NOW).is_ok());
    assert_eq!(
        check_price_not_stale(NOW - ONE_DAY_IN_SECONDS - 1, NOW).unwrap_err(),
        ErrorCode::TokenSolPriceIsStale
    );
    // A timestamp in the future counts as zero elapsed.
    assert!(check_price_not_stale(NOW + 500, NOW).is_ok());
    assert!(check_price_not_stale_seconds(NOW - 30, 30, NOW).is_ok());
    assert!(check_price_not_stale_seconds(NOW - 31, 30, NOW).is_err());
}

#[test]
fn wsol_is_always_parity() {
    let r = compute_lst_sol_price(&ids(), key(100), &LstStateBlob::Missing);
    assert_eq!(r.unwrap(), TWO_POW_32);
}

#[test]
fn marinade_price_read_from_expected_account() {
    let blob = LstStateBlob::Marinade {
        state_address: key(102),
        msol_price_p32: TWO_POW_32 + 12345,
    };
    assert_eq!(compute_lst_sol_price(&ids(), key(101), &blob).unwrap(), TWO_POW_32 + 12345);
}

#[test]
fn marinade_wrong_account_rejected() {
    let blob = LstStateBlob::Marinade {
        state_address: key(999),
        msol_price_p32: TWO_POW_32 + 12345,
    };
    assert_eq!(
        compute_lst_sol_price(&ids(), key(101), &blob).unwrap_err(),
        ErrorCode::IncorrectMarinadeStateAddress
    );
}

#[test]
fn marinade_missing_blob_rejected() {
    assert_eq!(
        compute_lst_sol_price(&ids(), key(101), &LstStateBlob::Missing).unwrap_err(),
        ErrorCode::MissingLstStateInRemainingAccounts
    );
}

#[test]
fn marinade_price_below_parity_rejected() {
    let blob = LstStateBlob::Marinade { state_address: key(102), msol_price_p32: TWO_POW_32 - 1 };
    assert_eq!(
        compute_lst_sol_price(&ids(), key(101), &blob).unwrap_err(),
        ErrorCode::InvalidStoredLstPrice
    );
}

#[test]
fn stake_pool_price_is_lamports_over_supply() {
    let blob = LstStateBlob::SplStakePool {
        owner_program: key(103),
        account_type: PoolAccountType::StakePool,
        pool_mint: key(200),
        total_lamports: 3_000_000_000,
        pool_token_supply: 2_000_000_000,
    };
    // 3 / 2 in 32-bit fixed point.
    assert_eq!(
        compute_lst_sol_price(&ids(), key(200), &blob).unwrap(),
        TWO_POW_32 + TWO_POW_32 / 2
    );
}

#[test]
fn stake_pool_wrong_owner_rejected() {
    let blob = LstStateBlob::SplStakePool {
        owner_program: key(999),
        account_type: PoolAccountType::StakePool,
        pool_mint: key(200),
        total_lamports: 3_000_000_000,
        pool_token_supply: 2_000_000_000,
    };
    assert_eq!(
        compute_lst_sol_price(&ids(), key(200), &blob).unwrap_err(),
        ErrorCode::SplStakePoolStateAccountOwnerIsNotTheSplStakePoolProgram
    );
}

#[test]
fn stake_pool_wrong_mint_rejected() {
    let blob = LstStateBlob::SplStakePool {
        owner_program: key(103),
        account_type: PoolAccountType::StakePool,
        pool_mint: key(201),
        total_lamports: 3_000_000_000,
        pool_token_supply: 2_000_000_000,
    };
    assert_eq!(
        compute_lst_sol_price(&ids(), key(200), &blob).unwrap_err(),
        ErrorCode::SplStakePoolMintMismatch
    );
}

#[test]
fn stake_pool_wrong_type_tag_rejected() {
    let blob = LstStateBlob::SplStakePool {
        owner_program: key(103),
        account_type: PoolAccountType::ValidatorList,
        pool_mint: key(200),
        total_lamports: 3_000_000_000,
        pool_token_supply: 2_000_000_000,
    };
    assert_eq!(
        compute_lst_sol_price(&ids(), key(200), &blob).unwrap_err(),
        ErrorCode::AccountTypeIsNotStakePool
    );
}

#[test]
fn stake_pool_below_parity_rejected() {
    let blob = LstStateBlob::SplStakePool {
        owner_program: key(103),
        account_type: PoolAccountType::StakePool,
        pool_mint: key(200),
        total_lamports: 1_999_999_999,
        pool_token_supply: 2_000_000_000,
    };
    assert_eq!(
        compute_lst_sol_price(&ids(), key(200), &blob).unwrap_err(),
        ErrorCode::InvalidStoredLstPrice
    );
}

#[test]
fn price_update_applies_profit_to_backing() {
    let mut main = main_state(100_000_000);
    let mut v = pool_vault(key(200), TWO_POW_32, NOW - 7200, 100_000_000);
    let blob = LstStateBlob::SplStakePool {
        owner_program: key(103),
        account_type: PoolAccountType::StakePool,
        pool_mint: key(200),
        total_lamports: 125_000_000,
        pool_token_supply: 100_000_000,
    };
    let ev = internal_update_vault_token_sol_price(&mut main, &mut v, &ids(), &blob, NOW)
        .unwrap()
        .unwrap();
    assert_eq!(ev.old_sol_value, 100_000_000);
    assert_eq!(ev.new_sol_value, 125_000_000);
    assert_eq!(main.backing_sol_value, 125_000_000);
    assert_eq!(v.lst_sol_price_p32, TWO_POW_32 + TWO_POW_32 / 4);
    assert_eq!(v.lst_sol_price_timestamp, NOW);
}

#[test]
fn price_update_applies_slashing_to_backing() {
    let price_one_and_half = TWO_POW_32 + TWO_POW_32 / 2;
    let mut main = main_state(150_000_000);
    let mut v = pool_vault(key(200), price_one_and_half, NOW - 7200, 100_000_000);
    let blob = LstStateBlob::SplStakePool {
        owner_program: key(103),
        account_type: PoolAccountType::StakePool,
        pool_mint: key(200),
        total_lamports: 125_000_000,
        pool_token_supply: 100_000_000,
    };
    let ev = internal_update_vault_token_sol_price(&mut main, &mut v, &ids(), &blob, NOW)
        .unwrap()
        .unwrap();
    assert_eq!(ev.old_sol_value, 150_000_000);
    assert_eq!(ev.new_sol_value, 125_000_000);
    assert_eq!(main.backing_sol_value, 125_000_000);
}

#[test]
fn price_update_unchanged_price_is_idempotent() {
    let mut main = main_state(100_000_000);
    let mut v = pool_vault(key(100), TWO_POW_32, NOW - 7200, 100_000_000);
    // Wrapped SOL stays at parity: no event, no timestamp write.
    let r = internal_update_vault_token_sol_price(
        &mut main,
        &mut v,
        &ids(),
        &LstStateBlob::Missing,
        NOW,
    )
    .unwrap();
    assert!(r.is_none());
    assert_eq!(v.lst_sol_price_timestamp, NOW - 7200);
    assert_eq!(main.backing_sol_value, 100_000_000);
}

#[test]
fn stake_succeeds_right_after_price_update() {
    // A stale vault refuses stakes; a price update in the same timestamp
    // window makes the very next stake succeed.
    let mut main = main_state(0);
    let mut v = pool_vault(key(200), TWO_POW_32, NOW - 2 * ONE_DAY_IN_SECONDS, 0);
    assert_eq!(
        handle_stake(&mut main, &mut v, 0, 10_000_000, 0, NOW).unwrap_err(),
        ErrorCode::TokenSolPriceIsStale
    );
    let blob = LstStateBlob::SplStakePool {
        owner_program: key(103),
        account_type: PoolAccountType::StakePool,
        pool_mint: key(200),
        total_lamports: 150_000_000,
        pool_token_supply: 100_000_000,
    };
    internal_update_vault_token_sol_price(&mut main, &mut v, &ids(), &blob, NOW).unwrap();
    let ev = handle_stake(&mut main, &mut v, 0, 10_000_000, 0, NOW).unwrap();
    assert_eq!(ev.deposited_sol_value, 15_000_000);
}
