//! Notifications the operations emit on success.
//!
//! Events are fire-and-forget: the operations that produce one return it in
//! their outcome for the host to append to its log, and nothing in the ledger
//! ever reads one back. [`PresalePaused`] and [`PresaleUnpaused`] carry no
//! data, so `pause` and `unpause` return only the updated ledger and a host
//! that logs them constructs them itself.

use vstd::prelude::*;
use crate::account::AccountId;

verus! {

/// Emitted by `initialize` when the sale record is created.
#[derive(Clone, Copy, Debug, PartialEq, Eq, Structural)]
pub struct PresaleInitialized {
    pub start_time: i64,
    pub end_time: i64,
    pub token_amount: u64,
    pub token_price: u64,
}

/// Emitted by `contribute` when a contribution is accepted.
#[derive(Clone, Copy, Debug, PartialEq, Eq, Structural)]
pub struct ContributionMade {
    /// The participant who contributed.
    pub user: AccountId,
    /// Native-currency units paid.
    pub sol_amount: u64,
    /// Token units purchased for that payment.
    pub nlov_amount: u64,
    /// The ledger's running total after this contribution.
    pub total_contributed: u64,
}

/// Emitted by `claim_tokens` when tokens are released.
#[derive(Clone, Copy, Debug, PartialEq, Eq, Structural)]
pub struct TokensClaimed {
    pub user: AccountId,
    pub amount: u64,
}

/// Emitted by `pause`.
#[derive(Clone, Copy, Debug, PartialEq, Eq, Structural)]
pub struct PresalePaused {}

/// Emitted by `unpause`.
#[derive(Clone, Copy, Debug, PartialEq, Eq, Structural)]
pub struct PresaleUnpaused {}

/// Emitted by `finalize_presale`.
#[derive(Clone, Copy, Debug, PartialEq, Eq, Structural)]
pub struct PresaleFinalized {
    pub total_contributed: u64,
    pub end_time: i64,
}

/// Emitted by `withdraw`.
#[derive(Clone, Copy, Debug, PartialEq, Eq, Structural)]
pub struct FundsWithdrawn {
    pub owner: AccountId,
    pub amount: u64,
}

} // verus!
