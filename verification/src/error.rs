//! Typed failure reasons for every operation of the core.

use vstd::prelude::*;

verus! {

/// Reason code returned when an operation aborts.  Operations are atomic:
/// whenever one of these is returned, no ledger field has changed.
#[derive(Clone, Copy, Debug, PartialEq, Eq, Structural)]
pub enum ErrorCode {
    /// The cached LST/SOL price is older than a day.
    TokenSolPriceIsStale,
    /// Stake amount, or its SOL-value, is below the minimum movement.
    DepositAmountToSmall,
    /// Deposit would push the vault beyond its configured cap.
    DepositExceedsVaultCap,
    /// The supplied price-source account is not the expected one.
    IncorrectMarinadeStateAddress,
    /// The stake-pool blob's type tag is not the stake-pool variant.
    AccountTypeIsNotStakePool,
    /// The stake-pool blob is not owned by the stake-pool program.
    SplStakePoolStateAccountOwnerIsNotTheSplStakePoolProgram,
    /// The stake-pool blob's mint does not match the vault's LST mint.
    SplStakePoolMintMismatch,
    /// The vault is in only-withdraw mode.
    DepositsInThisVaultAreDisabled,
    /// The stored LST/SOL price is below parity (1 LST is worth >= 1 SOL).
    InvalidStoredLstPrice,
    /// Unstaked SOL-value is below the minimum movement.
    UnstakeAmountTooSmall,
    /// A claim asked for more SOL-value than the ticket holds.
    NotEnoughSolValueInTicket,
    /// The ticket's waiting period has not elapsed yet.
    TicketIsNotDueYet,
    /// The vault's custody account holds fewer LST than the claim needs.
    NotEnoughLstInVault,
    /// A priced LST needs its external state blob and none was supplied.
    MissingLstStateInRemainingAccounts,
    /// A partial claim may not leave a remainder below the minimum movement.
    CantLeaveDustInTicket,
    /// The treasury account passed in is not the configured one.
    InvalidTreasuryMpsolAccount,
    /// Performance fee rate above its maximum.
    PerformanceFeeTooHigh,
    /// Withdrawal fee rate above its maximum.
    WithdrawFeeTooHigh,
    /// The external strategy state blob could not be decoded.
    ErrDeserializingCommonStrategyState,
    /// A strategy must report a zero balance when first attached.
    NewStrategyLstAmountShouldBeZero,
    /// The requested amount is zero.
    AmountIsZero,
    /// The strategy's staging account is empty, nothing to collect.
    ExistingAmountIsZero,
    /// A withdrawal target below the LST already staged for collection.
    MustWithdrawAllPendingLst,
    /// The strategy blob reports a different LST than the vault holds.
    StrategyLstMintMismatch,
    /// A computation left the 64-bit range (or divided by zero); within
    /// documented domains this is unreachable, but it is checked, never
    /// wrapped.
    ArithmeticOverflow,
}

} // verus!
