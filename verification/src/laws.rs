//! The ledger's laws: proofs that the invariants of the sale hold of every
//! reachable state, and that the documented multi-call behaviours follow from
//! the operations' transition functions.
//!
//! A "run" of one sale is a sequence of ledger states in which each adjacent
//! pair is produced by some operation (or left unchanged by one that does not
//! touch the ledger). Every such pair satisfies [`ledger_step`]; the lemmas
//! here first show this operation by operation, then carry the invariants
//! along an arbitrary run by induction.

use vstd::prelude::*;
use crate::errors::ErrorCode;
use crate::ops::ClaimOutcome;
use crate::ops::ClaimTokens;
use crate::ops::Contribute;
use crate::ops::ContributeOutcome;
use crate::ops::FinalizePresale;
use crate::ops::Initialize;
use crate::ops::PauseUnpause;
use crate::ops::claim_tokens_spec;
use crate::ops::contribute_spec;
use crate::ops::finalize_presale_spec;
use crate::ops::initialize_spec;
use crate::ops::pause_spec;
use crate::ops::unpause_spec;
use crate::presale::FIXED_RATE;
use crate::presale::Presale;
use crate::presale::UserInfo;
use crate::presale::record_consistent;

verus! {

/// What every operation does to the ledger: well-formedness is preserved, and
/// a deactivated ledger is never reactivated. `claim_tokens` and `withdraw`
/// leave the ledger as it was, and the relation is reflexive, so they satisfy
/// it too.
pub open spec fn ledger_step(pre: Presale, post: Presale) -> bool {
    &&& pre.wf() ==> post.wf()
    &&& post.is_active ==> pre.is_active
}

/// A fresh ledger satisfies the accounting invariant: `initialize` only ever
/// creates a well-formed, active, unpaused sale with nothing contributed.
pub proof fn lemma_initialize_establishes_wf(
    accounts: Initialize,
    start_time: i64,
    end_time: i64,
    token_amount: u64,
    token_price: u64,
)
    ensures
        initialize_spec(accounts, start_time, end_time, token_amount, token_price)
            matches Ok(o) ==> o.presale.wf() && o.presale.is_active && !o.presale.is_paused
                && o.presale.total_contributed == 0,
{
}

/// A successful contribution is a [`ledger_step`]: the running total stays
/// within the supply and the active flag is untouched.
pub proof fn lemma_contribute_is_ledger_step(
    presale: Presale,
    user_info: UserInfo,
    accounts: Contribute,
    amount: u64,
    now: i64,
)
    ensures
        contribute_spec(presale, user_info, accounts, amount, now)
            matches Ok(o) ==> ledger_step(presale, o.presale),
{
}

/// A successful pause is a [`ledger_step`]: it touches no accounting field.
pub proof fn lemma_pause_is_ledger_step(presale: Presale, accounts: PauseUnpause)
    ensures
        pause_spec(presale, accounts) matches Ok(p) ==> ledger_step(presale, p),
{
}

/// A successful unpause is a [`ledger_step`]: it touches no accounting field.
pub proof fn lemma_unpause_is_ledger_step(presale: Presale, accounts: PauseUnpause)
    ensures
        unpause_spec(presale, accounts) matches Ok(p) ==> ledger_step(presale, p),
{
}

/// A successful finalization is a [`ledger_step`]: it only clears the active
/// flag, which the relation allows in exactly this direction.
pub proof fn lemma_finalize_is_ledger_step(presale: Presale, accounts: FinalizePresale, now: i64)
    ensures
        finalize_presale_spec(presale, accounts, now)
            matches Ok(o) ==> ledger_step(presale, o.presale),
{
}

/// The accounting invariant holds of every reachable state: along any run of
/// the ledger that starts well formed, every state is well formed — in
/// particular `0 <= total_contributed <= presale_supply` throughout.
pub proof fn lemma_wf_holds_along_run(states: Seq<Presale>, i: int, j: int)
    requires
        0 <= i <= j < states.len(),
        forall|k: int| i <= k < j ==> #[trigger] ledger_step(states[k], states[k + 1]),
        states[i].wf(),
    ensures
        states[j].wf(),
    decreases j - i,
{
    if i < j {
        lemma_wf_holds_along_run(states, i, j - 1);
        assert(ledger_step(states[j - 1], states[j - 1 + 1]));
    }
}

/// Finalization is terminal: along any run of the ledger, once `is_active` is
/// false it is false in every later state — no sequence of operations
/// reactivates a finalized sale.
pub proof fn lemma_finalized_is_terminal(states: Seq<Presale>, i: int, j: int)
    requires
        0 <= i <= j < states.len(),
        forall|k: int| i <= k < j ==> #[trigger] ledger_step(states[k], states[k + 1]),
        !states[i].is_active,
    ensures
        !states[j].is_active,
    decreases j - i,
{
    if i < j {
        lemma_finalized_is_terminal(states, i, j - 1);
        assert(ledger_step(states[j - 1], states[j - 1 + 1]));
    }
}

/// The participant invariant survives a contribution: the record stays
/// consistent with the ledger, and in particular `amount_claimed` still does
/// not exceed `amount_contributed`.
pub proof fn lemma_contribute_preserves_record(
    presale: Presale,
    user_info: UserInfo,
    accounts: Contribute,
    amount: u64,
    now: i64,
)
    requires
        record_consistent(presale, user_info),
    ensures
        contribute_spec(presale, user_info, accounts, amount, now)
            matches Ok(o) ==> o.user_info.wf() && record_consistent(o.presale, o.user_info),
{
}

/// The participant invariant survives a claim: afterwards `amount_claimed`
/// equals `amount_contributed` exactly, so it still does not exceed it, and
/// nothing is released that was not contributed.
pub proof fn lemma_claim_preserves_record(
    presale: Presale,
    user_info: UserInfo,
    accounts: ClaimTokens,
    now: i64,
)
    requires
        user_info.wf(),
    ensures
        claim_tokens_spec(presale, user_info, accounts, now)
            matches Ok(o) ==> o.user_info.wf()
                && o.user_info.amount_claimed == user_info.amount_contributed
                && o.transfer.amount == user_info.claimable(),
{
}

/// Contribute, then claim: immediately after a successful contribution, a
/// claim at or before the public-sale cliff fails with `ClaimingNotAvailable`
/// and a claim strictly past the cliff succeeds and transfers exactly
/// `amount_contributed - amount_claimed`, the participant's full outstanding
/// balance.
pub proof fn lemma_contribute_then_claim(
    presale: Presale,
    user_info: UserInfo,
    contribute_accounts: Contribute,
    claim_accounts: ClaimTokens,
    amount: u64,
    now_contribute: i64,
    outcome: ContributeOutcome,
    now_claim: i64,
)
    requires
        record_consistent(presale, user_info),
        contribute_spec(presale, user_info, contribute_accounts, amount, now_contribute)
            == Ok::<ContributeOutcome, ErrorCode>(outcome),
    ensures
        now_claim <= outcome.presale.public_sale_end_time
            ==> claim_tokens_spec(outcome.presale, outcome.user_info, claim_accounts, now_claim)
                == Err::<ClaimOutcome, ErrorCode>(ErrorCode::ClaimingNotAvailable),
        now_claim > outcome.presale.public_sale_end_time
            ==> (claim_tokens_spec(outcome.presale, outcome.user_info, claim_accounts, now_claim)
                matches Ok(c)
                && c.transfer.amount
                    == outcome.user_info.amount_contributed - outcome.user_info.amount_claimed
                && c.transfer.amount >= 1),
{
}

/// Two contributions against the remaining supply: when a first contribution
/// has succeeded and a second one converts to more tokens than remain, the
/// second is rejected — with `InvalidAmount` whenever its other guards pass —
/// and, a rejection having no effect, the ledger still shows exactly the
/// first contribution's total.
pub proof fn lemma_second_contribution_over_supply(
    presale: Presale,
    first_user: UserInfo,
    second_user: UserInfo,
    first_accounts: Contribute,
    second_accounts: Contribute,
    first_amount: u64,
    second_amount: u64,
    now_first: i64,
    now_second: i64,
    outcome: ContributeOutcome,
)
    requires
        contribute_spec(presale, first_user, first_accounts, first_amount, now_first)
            == Ok::<ContributeOutcome, ErrorCode>(outcome),
        second_amount * FIXED_RATE <= u64::MAX,
        outcome.presale.total_contributed + second_amount * FIXED_RATE
            > presale.presale_supply,
    ensures
        contribute_spec(outcome.presale, second_user, second_accounts, second_amount, now_second)
            is Err,
        outcome.presale.start_time <= now_second <= outcome.presale.end_time
            ==> contribute_spec(
                outcome.presale,
                second_user,
                second_accounts,
                second_amount,
                now_second,
            ) == Err::<ContributeOutcome, ErrorCode>(ErrorCode::InvalidAmount),
        outcome.presale.total_contributed
            == presale.total_contributed + first_amount * FIXED_RATE,
{
}

} // verus!
