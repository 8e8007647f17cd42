//! The seven operations of the presale, as pure transition functions.
//!
//! Each operation takes the current records, the identities involved, and —
//! where time matters — the current clock reading `now`, and returns either
//! an outcome or the error that rejected the request. An outcome bundles the
//! updated records, the [`TransferRequest`] the custody service must perform,
//! and the event to log. The host commits the records and executes the
//! transfer as one atomic unit: if the transfer fails, the outcome is
//! discarded and the old records stay current, so a rejected or failed
//! request never has a partial effect.
//!
//! For every operation, a `spec` transition function states the exact result
//! for every input, and the executable function's contract is the equation
//! with it.

use vstd::prelude::*;
use crate::account::AccountId;
use crate::account::TransferKind;
use crate::account::TransferRequest;
use crate::errors::ErrorCode;
use crate::events::ContributionMade;
use crate::events::FundsWithdrawn;
use crate::events::PresaleFinalized;
use crate::events::PresaleInitialized;
use crate::events::TokensClaimed;
use crate::presale::CLAIM_DELAY_SECONDS;
use crate::presale::FIXED_RATE;
use crate::presale::Presale;
use crate::presale::UserInfo;
use crate::presale::is_owner;
use crate::presale::record_consistent;

verus! {

/// The identities `initialize` acts on.
#[derive(Clone, Copy, Debug, PartialEq, Eq, Structural)]
pub struct Initialize {
    /// The caller; becomes the sale's owner.
    pub owner: AccountId,
    /// The token type being sold.
    pub token_mint: AccountId,
    /// The owner's holding, from which the supply is moved into the vault.
    pub owner_token_account: AccountId,
    /// The vault that holds the token supply for sale.
    pub presale_token_account: AccountId,
}

/// The identities `contribute` acts on.
#[derive(Clone, Copy, Debug, PartialEq, Eq, Structural)]
pub struct Contribute {
    /// The vault collecting native-currency payments.
    pub presale_account: AccountId,
    /// The caller: the contributing participant.
    pub user: AccountId,
}

/// The identities `claim_tokens` acts on.
#[derive(Clone, Copy, Debug, PartialEq, Eq, Structural)]
pub struct ClaimTokens {
    /// The vault holding the token supply.
    pub presale_token_account: AccountId,
    /// The participant's token holding, to which tokens are released.
    pub user_token_account: AccountId,
    /// The caller: the claiming participant.
    pub user: AccountId,
}

/// The identity `pause` and `unpause` act for.
#[derive(Clone, Copy, Debug, PartialEq, Eq, Structural)]
pub struct PauseUnpause {
    /// The caller; must be the sale's owner.
    pub owner: AccountId,
}

/// The identity `finalize_presale` acts for.
#[derive(Clone, Copy, Debug, PartialEq, Eq, Structural)]
pub struct FinalizePresale {
    /// The caller; must be the sale's owner.
    pub owner: AccountId,
}

/// The identities `withdraw` acts on.
#[derive(Clone, Copy, Debug, PartialEq, Eq, Structural)]
pub struct Withdraw {
    /// The vault collecting native-currency payments.
    pub presale_account: AccountId,
    /// The caller; must be the sale's owner, and receives the funds.
    pub owner: AccountId,
}

/// What a successful `initialize` commits: the new ledger, the transfer that
/// stocks the vault, and the notification.
#[derive(Clone, Copy, Debug, PartialEq, Eq, Structural)]
pub struct InitializeOutcome {
    pub presale: Presale,
    pub transfer: TransferRequest,
    pub event: PresaleInitialized,
}

/// What a successful `contribute` commits: both updated records, the payment
/// transfer, and the notification.
#[derive(Clone, Copy, Debug, PartialEq, Eq, Structural)]
pub struct ContributeOutcome {
    pub presale: Presale,
    pub user_info: UserInfo,
    pub transfer: TransferRequest,
    pub event: ContributionMade,
}

/// What a successful `claim_tokens` commits: the updated participant record,
/// the token release, and the notification. The ledger itself is unchanged.
#[derive(Clone, Copy, Debug, PartialEq, Eq, Structural)]
pub struct ClaimOutcome {
    pub user_info: UserInfo,
    pub transfer: TransferRequest,
    pub event: TokensClaimed,
}

/// What a successful `finalize_presale` commits: the deactivated ledger and
/// the notification.
#[derive(Clone, Copy, Debug, PartialEq, Eq, Structural)]
pub struct FinalizeOutcome {
    pub presale: Presale,
    pub event: PresaleFinalized,
}

/// What a successful `withdraw` commits: the payout transfer and the
/// notification. Neither record changes.
#[derive(Clone, Copy, Debug, PartialEq, Eq, Structural)]
pub struct WithdrawOutcome {
    pub transfer: TransferRequest,
    pub event: FundsWithdrawn,
}

/// The exact result of `initialize` on every input.
pub open spec fn initialize_spec(
    accounts: Initialize,
    start_time: i64,
    end_time: i64,
    token_amount: u64,
    token_price: u64,
) -> Result<InitializeOutcome, ErrorCode> {
    if start_time >= end_time {
        Err(ErrorCode::InvalidTimeRange)
    } else {
        Ok(InitializeOutcome {
            presale: Presale {
                start_time,
                end_time,
                public_sale_end_time: (end_time + CLAIM_DELAY_SECONDS) as i64,
                token_mint: accounts.token_mint,
                presale_token_account: accounts.presale_token_account,
                presale_supply: token_amount,
                token_price,
                total_contributed: 0,
                is_active: true,
                is_paused: false,
                owner: accounts.owner,
            },
            transfer: TransferRequest {
                from: accounts.owner_token_account,
                to: accounts.presale_token_account,
                amount: token_amount,
                kind: TransferKind::Token,
            },
            event: PresaleInitialized { start_time, end_time, token_amount, token_price },
        })
    }
}

/// Creates the ledger for a new sale. Rejects a window whose start does not
/// precede its end; otherwise the ledger starts active, unpaused and with
/// nothing contributed, the cliff is set three weeks past `end_time`, and the
/// whole supply is moved from the owner's holding into the vault.
pub fn initialize(
    accounts: &Initialize,
    start_time: i64,
    end_time: i64,
    token_amount: u64,
    token_price: u64,
) -> (r: Result<InitializeOutcome, ErrorCode>)
    requires
        start_time < end_time ==> end_time + CLAIM_DELAY_SECONDS <= i64::MAX,
    ensures
        r == initialize_spec(*accounts, start_time, end_time, token_amount, token_price),
        r matches Ok(o) ==> o.presale.wf() && o.presale.is_active && !o.presale.is_paused,
        r is Err <==> start_time >= end_time,
{
    if start_time >= end_time {
        return Err(ErrorCode::InvalidTimeRange);
    }
    let presale = Presale {
        start_time,
        end_time,
        public_sale_end_time: end_time + CLAIM_DELAY_SECONDS,
        token_mint: accounts.token_mint,
        presale_token_account: accounts.presale_token_account,
        presale_supply: token_amount,
        token_price,
        total_contributed: 0,
        is_active: true,
        is_paused: false,
        owner: accounts.owner,
    };
    Ok(InitializeOutcome {
        presale,
        transfer: TransferRequest {
            from: accounts.owner_token_account,
            to: accounts.presale_token_account,
            amount: token_amount,
            kind: TransferKind::Token,
        },
        event: PresaleInitialized { start_time, end_time, token_amount, token_price },
    })
}

/// The exact result of `contribute` on every input.
pub open spec fn contribute_spec(
    presale: Presale,
    user_info: UserInfo,
    accounts: Contribute,
    amount: u64,
    now: i64,
) -> Result<ContributeOutcome, ErrorCode> {
    if presale.is_paused {
        Err(ErrorCode::PresalePaused)
    } else if !(presale.start_time <= now && now <= presale.end_time) {
        Err(ErrorCode::PresaleNotActive)
    } else if amount * FIXED_RATE > u64::MAX {
        Err(ErrorCode::CalculationError)
    } else {
        let nlov_amount: u64 = (amount * FIXED_RATE) as u64;
        if !(1 <= nlov_amount && nlov_amount <= presale.remaining_supply()) {
            Err(ErrorCode::InvalidAmount)
        } else {
            let new_total: u64 = (presale.total_contributed + nlov_amount) as u64;
            Ok(ContributeOutcome {
                presale: Presale { total_contributed: new_total, ..presale },
                user_info: UserInfo {
                    user: accounts.user,
                    amount_contributed: (user_info.amount_contributed + nlov_amount) as u64,
                    amount_claimed: user_info.amount_claimed,
                },
                transfer: TransferRequest {
                    from: accounts.user,
                    to: accounts.presale_account,
                    amount,
                    kind: TransferKind::Native,
                },
                event: ContributionMade {
                    user: accounts.user,
                    sol_amount: amount,
                    nlov_amount,
                    total_contributed: new_total,
                },
            })
        }
    }
}

/// Accepts a participant's payment while the sale is open. In order, the
/// guards reject a paused sale, a clock outside the contribution window, a
/// conversion that overflows, and a token amount that is zero or exceeds what
/// remains of the supply; past them, the payment converts at [`FIXED_RATE`]
/// tokens per native unit, both records grow by the converted amount, and the
/// payment moves from the participant to the native vault.
pub fn contribute(
    presale: &Presale,
    user_info: &UserInfo,
    accounts: &Contribute,
    amount: u64,
    now: i64,
) -> (r: Result<ContributeOutcome, ErrorCode>)
    requires
        presale.wf(),
        record_consistent(*presale, *user_info),
        user_info.user == accounts.user,
    ensures
        r == contribute_spec(*presale, *user_info, *accounts, amount, now),
        r matches Ok(o) ==> o.presale.wf() && record_consistent(o.presale, o.user_info),
        r matches Ok(o) ==> o.presale.is_active == presale.is_active
            && o.presale.is_paused == presale.is_paused,
        r matches Ok(o) ==> o.user_info.amount_contributed >= user_info.amount_contributed
            && o.user_info.amount_claimed == user_info.amount_claimed,
{
    if presale.is_paused {
        return Err(ErrorCode::PresalePaused);
    }
    if !(presale.start_time <= now && now <= presale.end_time) {
        return Err(ErrorCode::PresaleNotActive);
    }
    let nlov_amount: u64 = match amount.checked_mul(FIXED_RATE) {
        Some(v) => v,
        None => {
            return Err(ErrorCode::CalculationError);
        },
    };
    // `presale.wf()` bounds `total_contributed` by the supply, so the
    // remaining supply cannot underflow.
    let remaining: u64 = presale.presale_supply - presale.total_contributed;
    if !(1 <= nlov_amount && nlov_amount <= remaining) {
        return Err(ErrorCode::InvalidAmount);
    }
    let new_total: u64 = presale.total_contributed + nlov_amount;
    Ok(ContributeOutcome {
        presale: Presale { total_contributed: new_total, ..*presale },
        user_info: UserInfo {
            user: accounts.user,
            amount_contributed: user_info.amount_contributed + nlov_amount,
            amount_claimed: user_info.amount_claimed,
        },
        transfer: TransferRequest {
            from: accounts.user,
            to: accounts.presale_account,
            amount,
            kind: TransferKind::Native,
        },
        event: ContributionMade {
            user: accounts.user,
            sol_amount: amount,
            nlov_amount,
            total_contributed: new_total,
        },
    })
}

/// The exact result of `claim_tokens` on every input.
pub open spec fn claim_tokens_spec(
    presale: Presale,
    user_info: UserInfo,
    accounts: ClaimTokens,
    now: i64,
) -> Result<ClaimOutcome, ErrorCode> {
    if presale.is_paused {
        Err(ErrorCode::PresalePaused)
    } else if !(now > presale.public_sale_end_time) {
        Err(ErrorCode::ClaimingNotAvailable)
    } else {
        let amount_to_claim: u64 = (user_info.amount_contributed - user_info.amount_claimed) as u64;
        if amount_to_claim == 0 {
            Err(ErrorCode::NothingToClaim)
        } else {
            Ok(ClaimOutcome {
                user_info: UserInfo {
                    user: user_info.user,
                    amount_contributed: user_info.amount_contributed,
                    amount_claimed: (user_info.amount_claimed + amount_to_claim) as u64,
                },
                transfer: TransferRequest {
                    from: accounts.presale_token_account,
                    to: accounts.user_token_account,
                    amount: amount_to_claim,
                    kind: TransferKind::Token,
                },
                event: TokensClaimed { user: accounts.user, amount: amount_to_claim },
            })
        }
    }
}

/// Releases everything the participant is still owed, in one transfer from
/// the token vault to the participant's holding, authorized by the ledger's
/// own delegated capability. Rejected while the sale is paused, at or before
/// the public-sale cliff, and when nothing is left to claim; on success the
/// participant's `amount_claimed` catches up to `amount_contributed` exactly.
pub fn claim_tokens(
    presale: &Presale,
    user_info: &UserInfo,
    accounts: &ClaimTokens,
    now: i64,
) -> (r: Result<ClaimOutcome, ErrorCode>)
    requires
        user_info.wf(),
        user_info.user == accounts.user,
    ensures
        r == claim_tokens_spec(*presale, *user_info, *accounts, now),
        r matches Ok(o) ==> o.user_info.wf()
            && o.user_info.amount_claimed == user_info.amount_contributed
            && o.user_info.amount_claimed >= user_info.amount_claimed
            && o.user_info.amount_contributed == user_info.amount_contributed
            && o.transfer.amount == user_info.claimable(),
{
    if presale.is_paused {
        return Err(ErrorCode::PresalePaused);
    }
    if !(now > presale.public_sale_end_time) {
        return Err(ErrorCode::ClaimingNotAvailable);
    }
    // `user_info.wf()` bounds `amount_claimed` by `amount_contributed`, so
    // what is owed cannot underflow.
    let amount_to_claim: u64 = user_info.amount_contributed - user_info.amount_claimed;
    if amount_to_claim == 0 {
        return Err(ErrorCode::NothingToClaim);
    }
    Ok(ClaimOutcome {
        user_info: UserInfo {
            user: user_info.user,
            amount_contributed: user_info.amount_contributed,
            amount_claimed: user_info.amount_claimed + amount_to_claim,
        },
        transfer: TransferRequest {
            from: accounts.presale_token_account,
            to: accounts.user_token_account,
            amount: amount_to_claim,
            kind: TransferKind::Token,
        },
        event: TokensClaimed { user: accounts.user, amount: amount_to_claim },
    })
}

/// The exact result of `pause` on every input.
pub open spec fn pause_spec(presale: Presale, accounts: PauseUnpause) -> Result<Presale, ErrorCode> {
    if !is_owner(accounts.owner, presale) {
        Err(ErrorCode::Unauthorized)
    } else if presale.is_paused {
        Err(ErrorCode::AlreadyPaused)
    } else {
        Ok(Presale { is_paused: true, ..presale })
    }
}

/// Suspends contributions and claims. Owner-only; rejected when already
/// paused. A pure flag toggle with no accounting effect.
pub fn pause(presale: &Presale, accounts: &PauseUnpause) -> (r: Result<Presale, ErrorCode>)
    ensures
        r == pause_spec(*presale, *accounts),
        r matches Ok(p) ==> p == (Presale { is_paused: true, ..*presale }),
{
    match crate::presale::check_owner(presale, accounts.owner) {
        Ok(()) => {},
        Err(e) => {
            return Err(e);
        },
    }
    if presale.is_paused {
        return Err(ErrorCode::AlreadyPaused);
    }
    Ok(Presale { is_paused: true, ..*presale })
}

/// The exact result of `unpause` on every input.
pub open spec fn unpause_spec(presale: Presale, accounts: PauseUnpause) -> Result<Presale, ErrorCode> {
    if !is_owner(accounts.owner, presale) {
        Err(ErrorCode::Unauthorized)
    } else if !presale.is_paused {
        Err(ErrorCode::NotPaused)
    } else {
        Ok(Presale { is_paused: false, ..presale })
    }
}

/// Lifts a pause. Owner-only; rejected when not paused.
pub fn unpause(presale: &Presale, accounts: &PauseUnpause) -> (r: Result<Presale, ErrorCode>)
    ensures
        r == unpause_spec(*presale, *accounts),
        r matches Ok(p) ==> p == (Presale { is_paused: false, ..*presale }),
{
    match crate::presale::check_owner(presale, accounts.owner) {
        Ok(()) => {},
        Err(e) => {
            return Err(e);
        },
    }
    if !presale.is_paused {
        return Err(ErrorCode::NotPaused);
    }
    Ok(Presale { is_paused: false, ..*presale })
}

/// The exact result of `finalize_presale` on every input.
pub open spec fn finalize_presale_spec(
    presale: Presale,
    accounts: FinalizePresale,
    now: i64,
) -> Result<FinalizeOutcome, ErrorCode> {
    if !is_owner(accounts.owner, presale) {
        Err(ErrorCode::Unauthorized)
    } else if !presale.is_active {
        Err(ErrorCode::PresaleAlreadyFinalized)
    } else if !(now > presale.end_time) {
        Err(ErrorCode::PresaleStillActive)
    } else {
        Ok(FinalizeOutcome {
            presale: Presale { is_active: false, ..presale },
            event: PresaleFinalized {
                total_contributed: presale.total_contributed,
                end_time: presale.end_time,
            },
        })
    }
}

/// Ends the sale for good. Owner-only; rejected when already finalized or
/// while the contribution window is still open. Clearing `is_active` is
/// terminal: no operation sets it again.
pub fn finalize_presale(
    presale: &Presale,
    accounts: &FinalizePresale,
    now: i64,
) -> (r: Result<FinalizeOutcome, ErrorCode>)
    ensures
        r == finalize_presale_spec(*presale, *accounts, now),
        r matches Ok(o) ==> o.presale == (Presale { is_active: false, ..*presale }),
        r is Ok ==> presale.is_active,
{
    match crate::presale::check_owner(presale, accounts.owner) {
        Ok(()) => {},
        Err(e) => {
            return Err(e);
        },
    }
    if !presale.is_active {
        return Err(ErrorCode::PresaleAlreadyFinalized);
    }
    if !(now > presale.end_time) {
        return Err(ErrorCode::PresaleStillActive);
    }
    Ok(FinalizeOutcome {
        presale: Presale { is_active: false, ..*presale },
        event: PresaleFinalized {
            total_contributed: presale.total_contributed,
            end_time: presale.end_time,
        },
    })
}

/// The exact result of `withdraw` on every input. `presale_balance` is the
/// native vault's balance as the custody service reports it at call time.
pub open spec fn withdraw_spec(
    presale: Presale,
    accounts: Withdraw,
    amount: u64,
    presale_balance: u64,
) -> Result<WithdrawOutcome, ErrorCode> {
    if !is_owner(accounts.owner, presale) {
        Err(ErrorCode::Unauthorized)
    } else if presale.is_active {
        Err(ErrorCode::PresaleStillActive)
    } else if amount > presale_balance {
        Err(ErrorCode::InsufficientFunds)
    } else {
        Ok(WithdrawOutcome {
            transfer: TransferRequest {
                from: accounts.presale_account,
                to: accounts.owner,
                amount,
                kind: TransferKind::Native,
            },
            event: FundsWithdrawn { owner: accounts.owner, amount },
        })
    }
}

/// Pays collected native currency out to the owner. Owner-only; rejected
/// while the sale is still active — the owner cannot drain funds mid-sale —
/// and when the vault holds less than requested. The ledger itself is
/// unchanged.
pub fn withdraw(
    presale: &Presale,
    accounts: &Withdraw,
    amount: u64,
    presale_balance: u64,
) -> (r: Result<WithdrawOutcome, ErrorCode>)
    ensures
        r == withdraw_spec(*presale, *accounts, amount, presale_balance),
        r is Ok ==> !presale.is_active && amount <= presale_balance,
        r matches Ok(o) ==> o.transfer.amount == amount,
{
    match crate::presale::check_owner(presale, accounts.owner) {
        Ok(()) => {},
        Err(e) => {
            return Err(e);
        },
    }
    if presale.is_active {
        return Err(ErrorCode::PresaleStillActive);
    }
    if amount > presale_balance {
        return Err(ErrorCode::InsufficientFunds);
    }
    Ok(WithdrawOutcome {
        transfer: TransferRequest {
            from: accounts.presale_account,
            to: accounts.owner,
            amount,
            kind: TransferKind::Native,
        },
        event: FundsWithdrawn { owner: accounts.owner, amount },
    })
}

} // verus!
