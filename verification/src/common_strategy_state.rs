//! The read-only state blob an external strategy program exposes, and its
//! wire decoding.
//!
//! The blob is a fixed-layout record: an 8-byte record tag, the 32-byte
//! LST mint, and the strategy's total LST amount as a little-endian
//! 64-bit integer — 48 bytes in all.

use vstd::prelude::*;
use vstd::bytes::{spec_u128_from_le_bytes, spec_u64_from_le_bytes, u128_from_le_bytes, u64_from_le_bytes};
use vstd::slice::slice_subrange;
use crate::error::ErrorCode;
use crate::keys::AccountId;

verus! {

/// Number of bytes a strategy state blob must hold.
pub const COMMON_STRATEGY_STATE_LEN: usize = 48;

/// What an external strategy reports: which LST it works in and how much
/// of it the strategy currently holds.  Untrusted input, reconciled via
/// the profit/slashing idiom, never believed directly.
#[derive(Clone, Copy, Debug)]
pub struct CommonStrategyState {
    /// The blob's 8-byte record tag, read as a little-endian integer.
    pub discriminator: u64,
    /// The LST this strategy works in.
    pub lst_mint: AccountId,
    /// Total LST the strategy claims to hold.
    pub strat_total_lst_amount: u64,
}

/// The account identity encoded little-endian in 32 bytes of the blob.
pub open spec fn account_id_of_bytes(s: Seq<u8>) -> AccountId {
    AccountId {
        lo: spec_u128_from_le_bytes(s.subrange(0, 16)),
        hi: spec_u128_from_le_bytes(s.subrange(16, 32)),
    }
}

/// The record a well-formed 48-byte blob decodes to.
pub open spec fn decoded_strategy_state(data: Seq<u8>) -> CommonStrategyState {
    CommonStrategyState {
        discriminator: spec_u64_from_le_bytes(data.subrange(0, 8)),
        lst_mint: account_id_of_bytes(data.subrange(8, 40)),
        strat_total_lst_amount: spec_u64_from_le_bytes(data.subrange(40, 48)),
    }
}

/// Decode a strategy state blob.  Fails exactly when the blob is shorter
/// than the fixed record; extra trailing bytes are ignored.
pub fn deserialize(data: &Vec<u8>) -> (r: Result<CommonStrategyState, ErrorCode>)
    ensures
        r is Ok <==> data@.len() >= COMMON_STRATEGY_STATE_LEN,
        r is Ok ==> r->Ok_0 == decoded_strategy_state(data@),
        r is Err ==> r->Err_0 == ErrorCode::ErrDeserializingCommonStrategyState,
{
    if data.len() < COMMON_STRATEGY_STATE_LEN {
        return Err(ErrorCode::ErrDeserializingCommonStrategyState);
    }
    let discriminator = u64_from_le_bytes(slice_subrange(data.as_slice(), 0, 8));
    let mint_lo = u128_from_le_bytes(slice_subrange(data.as_slice(), 8, 24));
    let mint_hi = u128_from_le_bytes(slice_subrange(data.as_slice(), 24, 40));
    let strat_total_lst_amount = u64_from_le_bytes(slice_subrange(data.as_slice(), 40, 48));
    proof {
        assert(data@.subrange(8, 40).subrange(0, 16) =~= data@.subrange(8, 24));
        assert(data@.subrange(8, 40).subrange(16, 32) =~= data@.subrange(24, 40));
    }
    Ok(CommonStrategyState {
        discriminator,
        lst_mint: AccountId { hi: mint_hi, lo: mint_lo },
        strat_total_lst_amount,
    })
}

} // verus!
