//! Opaque 32-byte account identities, compared only for equality.

use vstd::prelude::*;

verus! {

/// A 32-byte account address, stored as two 128-bit halves so that
/// equality is plain field equality.
#[derive(Clone, Copy, Debug, PartialEq, Eq, Structural)]
pub struct AccountId {
    pub hi: u128,
    pub lo: u128,
}

/// The well-known addresses the price-source dispatch needs: which mints
/// are special-cased and which programs must own the external blobs.
#[derive(Clone, Copy, Debug, PartialEq, Eq, Structural)]
pub struct KnownIds {
    /// Mint of wrapped SOL, always at exact parity.
    pub wsol_mint: AccountId,
    /// Mint of the LST whose price is read from its own cached state blob.
    pub marinade_msol_mint: AccountId,
    /// The only account accepted as that LST's state blob.
    pub marinade_state_address: AccountId,
    /// Owner program required of a generic stake-pool state blob.
    pub spl_stake_pool_program: AccountId,
}

} // verus!
