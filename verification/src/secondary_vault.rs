//! Per-LST vault ledger: holdings, local/delegated split, price cache.

use vstd::prelude::*;
use crate::constants::TWO_POW_32;
use crate::error::ErrorCode;
use crate::keys::AccountId;
use crate::math::{
    lemma_mul_div_le_self, lst_amount_to_sol_value, lst_to_sol_spec, mul_div_fits,
    sol_to_lst_spec, sol_value_to_lst_amount,
};

verus! {

/// One record per whitelisted LST, keyed by `(main state, lst mint)`.
#[derive(Clone, Copy, Debug)]
pub struct SecondaryVaultState {
    /// The LST type stored in this vault.
    pub lst_mint: AccountId,
    /// Cached LST/SOL price with 32 fractional bits; at least `2^32` once
    /// initialised, because one LST unit is never worth less than one SOL.
    pub lst_sol_price_p32: u64,
    /// When the cached price was last refreshed (unix time).
    pub lst_sol_price_timestamp: u64,
    /// Total LST attributable to this vault, split between local custody
    /// and strategies.
    pub vault_total_lst_amount: u64,
    /// LST held directly in the vault's custody account.
    pub locally_stored_amount: u64,
    /// LST delegated to attached strategies.
    pub in_strategies_amount: u64,
    /// SOL-value the ticket fulfiller wants kept in local custody, so
    /// pending tickets can settle without touching strategies.
    pub tickets_target_sol_amount: u64,
    /// If set, the vault is in only-withdraw mode.
    pub deposits_disabled: bool,
    /// Ceiling on held LST; zero means no cap.
    pub token_deposit_cap: u64,
}

impl SecondaryVaultState {
    /// The split accounting always adds up.
    pub open spec fn well_formed(&self) -> bool {
        self.vault_total_lst_amount == self.locally_stored_amount + self.in_strategies_amount
    }

    /// SOL-value of everything this vault accounts for, at the cached price.
    pub fn vault_total_sol_value(&self) -> (r: u64)
        requires
            mul_div_fits(self.vault_total_lst_amount, self.lst_sol_price_p32, TWO_POW_32),
        ensures
            r == lst_to_sol_spec(self.vault_total_lst_amount, self.lst_sol_price_p32),
    {
        lst_amount_to_sol_value(self.vault_total_lst_amount, self.lst_sol_price_p32)
    }

    /// What [`Self::available_for_strategies_amount`] returns: local custody
    /// minus the LST equivalent of the ticket target, floored at zero.
    pub open spec fn available_for_strategies_spec(&self) -> int {
        let reserved = sol_to_lst_spec(self.tickets_target_sol_amount, self.lst_sol_price_p32);
        if reserved <= self.locally_stored_amount {
            self.locally_stored_amount - reserved
        } else {
            0
        }
    }

    /// LST the rebalancer may delegate without starving pending ticket
    /// settlement.
    pub fn available_for_strategies_amount(&self) -> (r: u64)
        requires
            self.lst_sol_price_p32 >= TWO_POW_32,
        ensures
            r == self.available_for_strategies_spec(),
    {
        proof {
            lemma_mul_div_le_self(self.tickets_target_sol_amount, TWO_POW_32, self.lst_sol_price_p32);
        }
        let reserved = sol_value_to_lst_amount(self.tickets_target_sol_amount, self.lst_sol_price_p32);
        if self.locally_stored_amount >= reserved {
            self.locally_stored_amount - reserved
        } else {
            0
        }
    }

    /// Whether the vault's holdings sit within its configured cap.
    pub open spec fn cap_ok(&self) -> bool {
        self.token_deposit_cap > 0 ==> self.locally_stored_amount + self.in_strategies_amount
            <= self.token_deposit_cap
    }

    /// Re-validate the deposit cap after holdings changed.
    pub fn check_cap(&self) -> (r: Result<(), ErrorCode>)
        requires
            self.well_formed(),
        ensures
            r is Ok <==> self.cap_ok(),
            r is Err ==> r->Err_0 == ErrorCode::DepositExceedsVaultCap,
    {
        if self.token_deposit_cap > 0 {
            if self.locally_stored_amount + self.in_strategies_amount > self.token_deposit_cap {
                return Err(ErrorCode::DepositExceedsVaultCap);
            }
        }
        Ok(())
    }

    /// A vault holding nothing and reserving nothing.
    pub fn is_empty(&self) -> (r: bool)
        ensures
            r == (self.vault_total_lst_amount == 0 && self.locally_stored_amount == 0
                && self.in_strategies_amount == 0 && self.tickets_target_sol_amount == 0),
    {
        self.vault_total_lst_amount == 0 && self.locally_stored_amount == 0
            && self.in_strategies_amount == 0 && self.tickets_target_sol_amount == 0
    }
}

} // verus!
