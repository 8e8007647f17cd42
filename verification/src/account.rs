//! Identities of custody accounts and the value movements the ledger requests.

use vstd::prelude::*;

verus! {

/// The identity of an account known to the custody service: a participant, the
/// sale owner, a token mint, or one of the sale's vaults. The ledger only ever
/// compares identities for equality; what an identity resolves to is the
/// host's business.
#[derive(Clone, Copy, Debug, PartialEq, Eq, Structural)]
pub struct AccountId(pub u64);

/// Which of the two kinds of value a transfer moves.
#[derive(Clone, Copy, Debug, PartialEq, Eq, Structural)]
pub enum TransferKind {
    /// Native currency, the means of payment.
    Native,
    /// The token being sold.
    Token,
}

/// One value movement that the custody service is asked to perform
/// atomically: it either moves `amount` units of `kind` from `from` to `to`
/// in full, or fails without effect.
#[derive(Clone, Copy, Debug, PartialEq, Eq, Structural)]
pub struct TransferRequest {
    pub from: AccountId,
    pub to: AccountId,
    pub amount: u64,
    pub kind: TransferKind,
}

} // verus!
