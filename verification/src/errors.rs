//! The reasons an operation can reject a request.

use vstd::prelude::*;

verus! {

/// Every failure of an operation. An error means the request had no effect:
/// the records handed in are still current and no transfer was requested.
#[derive(Clone, Copy, Debug, PartialEq, Eq, Structural)]
pub enum ErrorCode {
    /// Contribution or claim attempted outside the sale's time window.
    PresaleNotActive,
    /// The contribution converts to zero tokens or to more than remain.
    InvalidAmount,
    /// A privileged operation was called by someone other than the owner.
    Unauthorized,
    /// `start_time` does not precede `end_time`.
    InvalidTimeRange,
    /// The requested amount would take total sales past the supply.
    ExceedsPresaleSupply,
    /// Claim attempted at or before the public-sale cliff.
    ClaimingNotAvailable,
    /// The participant has already claimed everything contributed.
    NothingToClaim,
    /// The sale is paused.
    PresalePaused,
    /// Pause requested while already paused.
    AlreadyPaused,
    /// Unpause requested while not paused.
    NotPaused,
    /// Finalize before the window closed, or withdraw before finalize.
    PresaleStillActive,
    /// Finalize requested a second time.
    PresaleAlreadyFinalized,
    /// Withdrawal of more than the vault holds.
    InsufficientFunds,
    /// The native-to-token conversion overflowed.
    CalculationError,
}

} // verus!
