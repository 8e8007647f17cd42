//! The sale record, the per-participant record, and their invariants.

use vstd::prelude::*;
use crate::account::AccountId;
use crate::errors::ErrorCode;

verus! {

/// How many tokens one unit of native currency buys. The conversion in
/// `contribute` applies this fixed rate; the `token_price` field of the
/// ledger is recorded but takes no part in the conversion.
pub const FIXED_RATE: u64 = 25;

/// Seconds between the end of the contribution window and the public-sale
/// cliff: three weeks. Claims unlock strictly after
/// `end_time + CLAIM_DELAY_SECONDS`.
pub const CLAIM_DELAY_SECONDS: i64 = 3 * 7 * 24 * 60 * 60;

/// The ledger of one sale: its configuration, fixed at creation, and its
/// aggregate accounting. Created once by `initialize` and changed only by the
/// operations in [`crate::ops`].
#[derive(Clone, Copy, Debug, PartialEq, Eq, Structural)]
pub struct Presale {
    /// First instant at which contributions are accepted.
    pub start_time: i64,
    /// Last instant at which contributions are accepted.
    pub end_time: i64,
    /// The cliff: claims are accepted strictly after this instant.
    pub public_sale_end_time: i64,
    /// Identity of the token type being sold.
    pub token_mint: AccountId,
    /// The custody account holding the token supply for sale.
    pub presale_token_account: AccountId,
    /// Total token units allocated to the sale; fixed at creation.
    pub presale_supply: u64,
    /// Informational price in native units per token; not used by the
    /// fixed-rate conversion in `contribute`.
    pub token_price: u64,
    /// Running sum of token units sold; never exceeds `presale_supply`.
    pub total_contributed: u64,
    /// True from creation until `finalize_presale`; once false, no operation
    /// makes it true again.
    pub is_active: bool,
    /// Independent toggle gating `contribute` and `claim_tokens`.
    pub is_paused: bool,
    /// The identity permitted to pause, unpause, finalize and withdraw.
    pub owner: AccountId,
}

impl Presale {
    /// Well-formedness of a sale record: the accounting invariant that every
    /// reachable ledger satisfies. `initialize` establishes it and every
    /// operation preserves it.
    pub open spec fn wf(self) -> bool {
        &&& self.start_time < self.end_time
        &&& self.total_contributed <= self.presale_supply
    }

    /// Token units still available for sale.
    pub open spec fn remaining_supply(self) -> int {
        self.presale_supply - self.total_contributed
    }
}

/// The accounting record of one participant in one sale, created lazily on
/// the first contribution. Both counters only ever grow.
#[derive(Clone, Copy, Debug, PartialEq, Eq, Structural)]
pub struct UserInfo {
    /// The participant this record belongs to.
    pub user: AccountId,
    /// Token units purchased so far; monotonically non-decreasing.
    pub amount_contributed: u64,
    /// Token units already released to the participant; never exceeds
    /// `amount_contributed`.
    pub amount_claimed: u64,
}

impl UserInfo {
    /// A fresh record for `user`, as the storage layer creates it before the
    /// first contribution is applied.
    pub fn new(user: AccountId) -> (r: UserInfo)
        ensures
            r == (UserInfo { user, amount_contributed: 0, amount_claimed: 0 }),
    {
        UserInfo { user, amount_contributed: 0, amount_claimed: 0 }
    }

    /// Well-formedness of a participant record: nothing is claimed that was
    /// not contributed.
    pub open spec fn wf(self) -> bool {
        self.amount_claimed <= self.amount_contributed
    }

    /// Token units the participant may still claim.
    pub open spec fn claimable(self) -> int {
        self.amount_contributed - self.amount_claimed
    }
}

/// Consistency of a participant record with the ledger it belongs to: the
/// record is well formed and its purchases are part of the ledger's running
/// total. Every (ledger, record) pair that the operations produce satisfies
/// it; in particular it bounds `amount_contributed` by `presale_supply`
/// whenever the ledger is well formed.
pub open spec fn record_consistent(presale: Presale, user_info: UserInfo) -> bool {
    &&& user_info.wf()
    &&& user_info.amount_contributed <= presale.total_contributed
}

/// The authorization guard: whether `caller` may perform privileged
/// operations on `presale`.
pub open spec fn is_owner(caller: AccountId, presale: Presale) -> bool {
    caller == presale.owner
}

/// Checks [`is_owner`], rejecting every other caller with
/// `ErrorCode::Unauthorized`.
pub fn check_owner(presale: &Presale, caller: AccountId) -> (r: Result<(), ErrorCode>)
    ensures
        r is Ok <==> is_owner(caller, *presale),
        r is Err ==> r == Err::<(), ErrorCode>(ErrorCode::Unauthorized),
{
    if caller == presale.owner {
        Ok(())
    } else {
        Err(ErrorCode::Unauthorized)
    }
}

} // verus!
