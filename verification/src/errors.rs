//! Typed failure kinds. Every failure aborts the whole call; nothing partial
//! is ever persisted, so an error value is the only trace a failed call leaves.

use vstd::prelude::*;

verus! {

/// Why the external token service refused a custody transfer. The escrow
/// cannot interpret or recover from these locally; it surfaces them unchanged.
#[derive(Clone, Copy, Debug, PartialEq, Eq, Structural)]
pub enum TransferError {
    InsufficientBalance,
    NotAuthorized,
    UnknownAsset,
}

/// Why an escrow call failed.
///
/// `AlreadyInitialized` and `NotInitialized` signal misuse of the single-shot
/// lifecycle; `TransferFailed` carries a token-service refusal verbatim; the
/// rest report bad caller-supplied data.
#[derive(Clone, Copy, Debug, PartialEq, Eq, Structural)]
pub enum DdsError {
    /// A deposit was already recorded on this instance; it is single-use.
    AlreadyInitialized,
    /// The holder list was empty or longer than the accepted maximum.
    InvalidHolderList,
    /// The deposited amount was zero or negative.
    NonPositiveAmount,
    /// The release date lay strictly before the current ledger time.
    ExDateInPast,
    /// No escrow record exists yet on this instance.
    NotInitialized,
    /// The release date has not been reached yet.
    BeforeExDate,
    /// The presented asset differs from the one under escrow.
    WrongToken,
    /// The claimed amount exceeds the recorded pool.
    InsufficientFunds,
    /// The token service refused the custody transfer; the reason is kept.
    TransferFailed(TransferError),
}

} // verus!
