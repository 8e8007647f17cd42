//! End-to-end scenarios: the documented runs of the sale, the multi-call
//! properties on concrete values, and the invariants checked along a run.

use nlov::AccountId;
use nlov::ClaimTokens;
use nlov::Contribute;
use nlov::ErrorCode;
use nlov::FinalizePresale;
use nlov::Initialize;
use nlov::InitializeOutcome;
use nlov::PauseUnpause;
use nlov::Presale;
use nlov::UserInfo;
use nlov::Withdraw;

fn accounts() -> Initialize {
    Initialize {
        owner: AccountId(1),
        token_mint: AccountId(2),
        owner_token_account: AccountId(3),
        presale_token_account: AccountId(4),
    }
}

fn contribute_accounts() -> Contribute {
    Contribute { presale_account: AccountId(5), user: AccountId(9) }
}

fn claim_accounts() -> ClaimTokens {
    ClaimTokens {
        presale_token_account: AccountId(4),
        user_token_account: AccountId(10),
        user: AccountId(9),
    }
}

fn invariants_hold(presale: &Presale, user_info: &UserInfo) -> bool {
    presale.total_contributed <= presale.presale_supply
        && user_info.amount_claimed <= user_info.amount_contributed
        && user_info.amount_contributed <= presale.total_contributed
}

/// A sale over `0..=1000` offering 1_000_000 tokens at a recorded price of
/// 1000.
fn setup() -> InitializeOutcome {
    nlov::initialize(&accounts(), 0, 1000, 1_000_000, 1000).unwrap()
}

#[test]
fn scenario_contribution_accepted_in_window() {
    // Contribute 40 native units at now = 500: 40 * 25 = 1000 tokens.
    let o = setup();
    let fresh = UserInfo::new(AccountId(9));
    let c = nlov::contribute(&o.presale, &fresh, &contribute_accounts(), 40, 500).unwrap();
    assert_eq!(c.event.nlov_amount, 1000);
    assert_eq!(c.presale.total_contributed, 1000);
    assert!(invariants_hold(&c.presale, &c.user_info));
}

#[test]
fn scenario_paused_sale_rejects_contribution() {
    // Pause, then contribute at now = 500: rejected, records unchanged.
    let o = setup();
    let paused = nlov::pause(&o.presale, &PauseUnpause { owner: AccountId(1) }).unwrap();
    let fresh = UserInfo::new(AccountId(9));
    let r = nlov::contribute(&paused, &fresh, &contribute_accounts(), 40, 500);
    assert_eq!(r.unwrap_err(), ErrorCode::PresalePaused);
    // A rejection returns no outcome: the committed records are untouched.
    assert_eq!(paused.total_contributed, 0);
    assert_eq!(fresh.amount_contributed, 0);
}

#[test]
fn scenario_contribution_after_window_rejected() {
    // Contribute at now = 1500, past end_time = 1000.
    let o = setup();
    let fresh = UserInfo::new(AccountId(9));
    let r = nlov::contribute(&o.presale, &fresh, &contribute_accounts(), 40, 1500);
    assert_eq!(r.unwrap_err(), ErrorCode::PresaleNotActive);
}

#[test]
fn scenario_claim_after_finalize_and_cliff() {
    // Build a participant with 1000 tokens contributed and none claimed.
    let o = setup();
    let fresh = UserInfo::new(AccountId(9));
    let c = nlov::contribute(&o.presale, &fresh, &contribute_accounts(), 40, 500).unwrap();
    // Finalize at now = 1001, just past the window.
    let f = nlov::finalize_presale(&c.presale, &FinalizePresale { owner: AccountId(1) }, 1001)
        .unwrap();
    // Claim strictly past the cliff releases the full 1000.
    let cliff = f.presale.public_sale_end_time;
    let claim = nlov::claim_tokens(&f.presale, &c.user_info, &claim_accounts(), cliff + 1).unwrap();
    assert_eq!(claim.transfer.amount, 1000);
    assert_eq!(claim.user_info.amount_claimed, 1000);
    assert!(invariants_hold(&f.presale, &claim.user_info));
    // An immediate second claim finds nothing left.
    let again = nlov::claim_tokens(&f.presale, &claim.user_info, &claim_accounts(), cliff + 2);
    assert_eq!(again.unwrap_err(), ErrorCode::NothingToClaim);
}

#[test]
fn scenario_withdraw_only_after_finalize() {
    let o = setup();
    let w = Withdraw { presale_account: AccountId(5), owner: AccountId(1) };
    // While the sale is active, withdrawal is rejected.
    let r = nlov::withdraw(&o.presale, &w, 100, 1_000_000);
    assert_eq!(r.unwrap_err(), ErrorCode::PresaleStillActive);
    // After finalization, asking for more than the vault holds is rejected.
    let f = nlov::finalize_presale(&o.presale, &FinalizePresale { owner: AccountId(1) }, 1001)
        .unwrap();
    let r = nlov::withdraw(&f.presale, &w, 1_000_001, 1_000_000);
    assert_eq!(r.unwrap_err(), ErrorCode::InsufficientFunds);
    assert!(nlov::withdraw(&f.presale, &w, 1_000_000, 1_000_000).is_ok());
}

#[test]
fn claim_before_cliff_rejected_after_contribution() {
    // Contribute, then claim immediately: the cliff has not passed, whatever
    // the claim amount would have been.
    let o = setup();
    let fresh = UserInfo::new(AccountId(9));
    let c = nlov::contribute(&o.presale, &fresh, &contribute_accounts(), 40, 500).unwrap();
    let r = nlov::claim_tokens(&c.presale, &c.user_info, &claim_accounts(), 501);
    assert_eq!(r.unwrap_err(), ErrorCode::ClaimingNotAvailable);
    // At exactly the cliff it is still rejected; one past it, the claim
    // transfers exactly what is outstanding.
    let cliff = c.presale.public_sale_end_time;
    let r = nlov::claim_tokens(&c.presale, &c.user_info, &claim_accounts(), cliff);
    assert_eq!(r.unwrap_err(), ErrorCode::ClaimingNotAvailable);
    let claim = nlov::claim_tokens(&c.presale, &c.user_info, &claim_accounts(), cliff + 1).unwrap();
    assert_eq!(claim.transfer.amount, 1000);
}

#[test]
fn second_contribution_cannot_pass_supply() {
    // A sale of 1000 tokens: the first contribution takes 750 of them, the
    // second asks for 500 more and is rejected with the total unchanged.
    let o = nlov::initialize(&accounts(), 0, 1000, 1000, 7).unwrap();
    let fresh = UserInfo::new(AccountId(9));
    let first = nlov::contribute(&o.presale, &fresh, &contribute_accounts(), 30, 500).unwrap();
    assert_eq!(first.presale.total_contributed, 750);
    let second = nlov::contribute(&first.presale, &first.user_info, &contribute_accounts(), 20, 500);
    assert_eq!(second.unwrap_err(), ErrorCode::InvalidAmount);
    assert_eq!(first.presale.total_contributed, 750);
    // Exactly the remaining 250 tokens are still for sale.
    let third = nlov::contribute(&first.presale, &first.user_info, &contribute_accounts(), 10, 500)
        .unwrap();
    assert_eq!(third.presale.total_contributed, 1000);
}

#[test]
fn finalized_sale_stays_finalized() {
    // Once is_active is false, no operation brings it back: pausing,
    // unpausing, contributing and claiming all leave it false.
    let o = setup();
    let fresh = UserInfo::new(AccountId(9));
    let c = nlov::contribute(&o.presale, &fresh, &contribute_accounts(), 40, 500).unwrap();
    let f = nlov::finalize_presale(&c.presale, &FinalizePresale { owner: AccountId(1) }, 1001)
        .unwrap();
    assert!(!f.presale.is_active);
    let paused = nlov::pause(&f.presale, &PauseUnpause { owner: AccountId(1) }).unwrap();
    assert!(!paused.is_active);
    let resumed = nlov::unpause(&paused, &PauseUnpause { owner: AccountId(1) }).unwrap();
    assert!(!resumed.is_active);
    // Claiming alters only the participant record.
    let cliff = resumed.public_sale_end_time;
    let claim = nlov::claim_tokens(&resumed, &c.user_info, &claim_accounts(), cliff + 1).unwrap();
    assert!(!resumed.is_active);
    assert!(invariants_hold(&resumed, &claim.user_info));
}

#[test]
fn test_edge_cases() {
    // An extreme payment makes the fixed-rate conversion overflow and the
    // transaction fails before any record changes.
    let o = setup();
    let fresh = UserInfo::new(AccountId(9));
    let r = nlov::contribute(&o.presale, &fresh, &contribute_accounts(), u64::MAX, 500);
    assert_eq!(r.unwrap_err(), ErrorCode::CalculationError);
    // The largest payment whose conversion fits is still bounded by the
    // remaining supply.
    let r = nlov::contribute(&o.presale, &fresh, &contribute_accounts(), u64::MAX / 25, 500);
    assert_eq!(r.unwrap_err(), ErrorCode::InvalidAmount);
}

#[test]
fn test_reentrancy_attack() {
    // Replaying a claim against the records it already updated finds nothing
    // left to take: the first claim zeroed the outstanding balance.
    let o = setup();
    let fresh = UserInfo::new(AccountId(9));
    let c = nlov::contribute(&o.presale, &fresh, &contribute_accounts(), 40, 500).unwrap();
    let cliff = c.presale.public_sale_end_time;
    let claim = nlov::claim_tokens(&c.presale, &c.user_info, &claim_accounts(), cliff + 1).unwrap();
    let replay = nlov::claim_tokens(&c.presale, &claim.user_info, &claim_accounts(), cliff + 1);
    assert_eq!(replay.unwrap_err(), ErrorCode::NothingToClaim);
}
