//! Protocol-wide constants.

use vstd::prelude::*;

verus! {

/// Fixed-point scale for LST/SOL prices: 32 fractional bits.
/// A stored price `p` stands for the rational `p / 2^32` SOL per LST unit.
pub const TWO_POW_32: u64 = 0x1_0000_0000;

/// 100% expressed in basis points.
pub const BASIS_POINTS_100_PERCENT: u16 = 10_000;

/// Minimum amount (in lamports of SOL-value or LST units) an operation may
/// move; smaller movements are rejected to avoid rounding-dust attacks.
pub const MIN_MOVEMENT_LAMPORTS: u64 = 1_000_000;

/// Upper bound for the performance fee rate (25%).
pub const MAX_PERFORMANCE_FEE_BP: u16 = 2_500;

/// Upper bound for the withdrawal fee rate (1%).
pub const MAX_WITHDRAW_FEE_BP: u16 = 100;

/// A cached LST/SOL price older than this is stale.
pub const ONE_DAY_IN_SECONDS: u64 = 60 * 60 * 24;

} // verus!
