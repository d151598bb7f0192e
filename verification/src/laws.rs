//! Protocol-wide laws, proved once over the operation models.

use vstd::prelude::*;
use vstd::arithmetic::div_mod::{lemma_fundamental_div_mod, lemma_mod_division_less_than_divisor};
use crate::constants::{MIN_MOVEMENT_LAMPORTS, ONE_DAY_IN_SECONDS, TWO_POW_32};
use crate::error::ErrorCode;
use crate::keys::{AccountId, KnownIds};
use crate::main_vault::MainVaultState;
use crate::price::{price_fresh, LstStateBlob};
use crate::secondary_vault::SecondaryVaultState;
use crate::stake::stake_model;
use crate::ticket_claim::ticket_claim_model;
use crate::treasury::{treasury_ready, TokenAccountView};
use crate::unstake::{unstake_fee_model, unstake_model};
use crate::unstake_ticket::UnstakeTicket;

verus! {

/// Floor division leaves a remainder within `[0, divisor)`: the algebraic
/// core of both price-invariance laws.
proof fn lemma_floor_remainder(dividend: int, divisor: int)
    requires
        divisor > 0,
    ensures
        0 <= dividend - divisor * (dividend / divisor) < divisor,
{
    lemma_fundamental_div_mod(dividend, divisor);
    lemma_mod_division_less_than_divisor(dividend, divisor);
}

/// Price invariance under deposit: a successful stake never lowers the
/// pool-share price, and raises it by less than one `1/new_supply`
/// fraction of the old backing (the floor-rounding remainder; there is no
/// deposit fee, so rounding is the only source of deviation).
///
/// Written over cross-multiplied integer ratios: with old price
/// `backing / supply` and new price `backing' / supply'`, the claim is
/// `backing * supply' <= backing' * supply < backing * supply' + backing`.
pub proof fn lemma_stake_preserves_share_price(
    main: MainVaultState,
    vault: SecondaryVaultState,
    mpsol_supply: u64,
    lst_amount: u64,
    ref_code: u32,
    now_ts: u64,
)
    requires
        main.well_formed(),
        vault.well_formed(),
        mpsol_supply > 0,
        main.backing_sol_value > 0,
        stake_model(main, vault, mpsol_supply, lst_amount, ref_code, now_ts) is Ok,
    ensures
        ({
            let (m2, v2, ev) = stake_model(
                main,
                vault,
                mpsol_supply,
                lst_amount,
                ref_code,
                now_ts,
            )->Ok_0;
            &&& main.backing_sol_value * ev.mpsol_supply <= m2.backing_sol_value * mpsol_supply
            &&& m2.backing_sol_value * mpsol_supply < main.backing_sol_value * ev.mpsol_supply
                + main.backing_sol_value
        }),
{
    let (m2, v2, ev) = stake_model(main, vault, mpsol_supply, lst_amount, ref_code, now_ts)->Ok_0;
    let b = main.backing_sol_value as int;
    let s = mpsol_supply as int;
    let v = ev.deposited_sol_value as int;
    let m = ev.mpsol_received as int;
    assert(m == (v * s) / b);
    assert(m2.backing_sol_value == b + v);
    assert(ev.mpsol_supply == s + m);
    lemma_floor_remainder(v * s, b);
    assert((b + v) * s - b * (s + m) == v * s - b * m) by (nonlinear_arith);
}

/// Price invariance under unstake: a successful unstake never lowers the
/// pool-share price, and raises it by less than one `1/new_supply` unit
/// (the floor-rounding remainder).  The withdrawal fee is transferred,
/// not burned, so it does not enter the supply side.
///
/// Written over cross-multiplied integer ratios: with old price
/// `backing / supply` and new price `backing' / supply'`, the claim is
/// `backing * supply' <= backing' * supply < backing * supply' + supply`.
pub proof fn lemma_unstake_preserves_share_price(
    main: MainVaultState,
    mpsol_supply: u64,
    mpsol_amount: u64,
    treasury_account: AccountId,
    treasury_view: TokenAccountView,
    main_state_key: AccountId,
    unstaker: AccountId,
    now_ts: u64,
)
    requires
        main.well_formed(),
        mpsol_supply > 0,
        unstake_model(
            main,
            mpsol_supply,
            mpsol_amount,
            treasury_account,
            treasury_view,
            main_state_key,
            unstaker,
            now_ts,
        ) is Ok,
    ensures
        ({
            let (m2, ticket, ev) = unstake_model(
                main,
                mpsol_supply,
                mpsol_amount,
                treasury_account,
                treasury_view,
                main_state_key,
                unstaker,
                now_ts,
            )->Ok_0;
            &&& main.backing_sol_value * ev.mpsol_supply <= m2.backing_sol_value * mpsol_supply
            &&& m2.backing_sol_value * mpsol_supply < main.backing_sol_value * ev.mpsol_supply
                + mpsol_supply
        }),
{
    let (m2, ticket, ev) = unstake_model(
        main,
        mpsol_supply,
        mpsol_amount,
        treasury_account,
        treasury_view,
        main_state_key,
        unstaker,
        now_ts,
    )->Ok_0;
    let b = main.backing_sol_value as int;
    let s = mpsol_supply as int;
    let burn = ev.mpsol_burned as int;
    let t = ticket.ticket_sol_value as int;
    assert(t == (burn * b) / s);
    assert(m2.backing_sol_value == b - t);
    assert(ev.mpsol_supply == s - burn);
    lemma_floor_remainder(burn * b, s);
    assert((b - t) * s - b * (s - burn) == burn * b - s * t) by (nonlinear_arith);
}

/// Staleness gate under stake: a stake that passes every check ahead of
/// the freshness gate — deposits enabled, amount at least the minimum,
/// stored price at least parity — but whose cached price is more than a
/// day old fails with exactly the staleness error, for every pool state.
pub proof fn lemma_stale_price_gates_stake(
    main: MainVaultState,
    vault: SecondaryVaultState,
    mpsol_supply: u64,
    lst_amount: u64,
    ref_code: u32,
    now_ts: u64,
)
    requires
        !vault.deposits_disabled,
        lst_amount >= MIN_MOVEMENT_LAMPORTS,
        vault.lst_sol_price_p32 >= TWO_POW_32,
        !price_fresh(vault.lst_sol_price_timestamp, now_ts, ONE_DAY_IN_SECONDS),
    ensures
        ({
            let model = stake_model(main, vault, mpsol_supply, lst_amount, ref_code, now_ts);
            model is Err && model->Err_0 == ErrorCode::TokenSolPriceIsStale
        }),
{
}

/// A misconfigured treasury never blocks a withdrawal: when the account
/// passed in is the configured one but cannot actually receive pool
/// shares, the fee silently degrades to zero — and so, whatever else the
/// unstake does, it never fails with the treasury error.
pub proof fn lemma_misconfigured_treasury_never_blocks(
    main: MainVaultState,
    mpsol_supply: u64,
    mpsol_amount: u64,
    treasury_account: AccountId,
    treasury_view: TokenAccountView,
    main_state_key: AccountId,
    unstaker: AccountId,
    now_ts: u64,
)
    requires
        main.treasury_mpsol_account == Some(treasury_account),
        !treasury_ready(main.mpsol_mint, treasury_view),
    ensures
        unstake_fee_model(main, mpsol_amount, treasury_account, treasury_view) == Ok::<
            u64,
            ErrorCode,
        >(0u64),
        ({
            let model = unstake_model(
                main,
                mpsol_supply,
                mpsol_amount,
                treasury_account,
                treasury_view,
                main_state_key,
                unstaker,
                now_ts,
            );
            model is Err ==> model->Err_0 != ErrorCode::InvalidTreasuryMpsolAccount
        }),
{
}

/// Ticket lifecycle end state: a successful claim leaves exactly the old
/// value minus the claimed amount in the ticket, and the ticket closes
/// precisely when the claim takes the whole remaining value — never
/// earlier, never later.
pub proof fn lemma_ticket_closes_exactly_at_zero(
    main: MainVaultState,
    vault: SecondaryVaultState,
    ticket: UnstakeTicket,
    withdraw_sol_value_amount: u64,
    ids: KnownIds,
    lst_state: LstStateBlob,
    vault_lst_account_amount: u64,
    now_ts: u64,
)
    requires
        ticket_claim_model(
            main,
            vault,
            ticket,
            withdraw_sol_value_amount,
            ids,
            lst_state,
            vault_lst_account_amount,
            now_ts,
        ) is Ok,
    ensures
        ({
            let (m2, v2, t2, outcome) = ticket_claim_model(
                main,
                vault,
                ticket,
                withdraw_sol_value_amount,
                ids,
                lst_state,
                vault_lst_account_amount,
                now_ts,
            )->Ok_0;
            &&& t2.ticket_sol_value == ticket.ticket_sol_value - withdraw_sol_value_amount
            &&& (outcome.ticket_closed <==> withdraw_sol_value_amount == ticket.ticket_sol_value)
            &&& (outcome.ticket_closed <==> t2.ticket_sol_value == 0)
        }),
{
}

/// Dust rule: a due, covered claim that would leave a remainder strictly
/// between zero and the minimum movement fails with the dust error,
/// whatever the price source says — the remainder must be zero or
/// significant.
pub proof fn lemma_dust_remainder_rejected(
    main: MainVaultState,
    vault: SecondaryVaultState,
    ticket: UnstakeTicket,
    withdraw_sol_value_amount: u64,
    ids: KnownIds,
    lst_state: LstStateBlob,
    vault_lst_account_amount: u64,
    now_ts: u64,
)
    requires
        now_ts >= ticket.ticket_due_timestamp,
        withdraw_sol_value_amount >= MIN_MOVEMENT_LAMPORTS,
        main.outstanding_tickets_sol_value >= withdraw_sol_value_amount,
        withdraw_sol_value_amount <= ticket.ticket_sol_value,
        0 < ticket.ticket_sol_value - withdraw_sol_value_amount < MIN_MOVEMENT_LAMPORTS,
    ensures
        ({
            let model = ticket_claim_model(
                main,
                vault,
                ticket,
                withdraw_sol_value_amount,
                ids,
                lst_state,
                vault_lst_account_amount,
                now_ts,
            );
            model is Err && model->Err_0 == ErrorCode::CantLeaveDustInTicket
        }),
{
}

} // verus!
