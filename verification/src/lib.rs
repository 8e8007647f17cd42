//! A fixed-supply token presale ledger.
//!
//! The crate models a time-boxed fundraising sale: a [`Presale`] record tracks
//! the sale window, the token supply on offer and the running total sold, and
//! one [`UserInfo`] record per participant tracks tokens purchased and tokens
//! claimed. The seven operations (`initialize`, `contribute`, `claim_tokens`,
//! `pause`, `unpause`, `finalize_presale`, `withdraw`) are pure transition
//! functions: each takes the current records, the caller's identity and the
//! current time, and returns either the updated records together with the
//! value movement to perform, or the error that rejected the request. The
//! host is expected to commit the returned records and execute the returned
//! [`TransferRequest`] in one atomic unit; moving value between custody
//! accounts and reading the clock are the host's business, not this crate's.
//!
//! [`Presale`]: presale::Presale
//! [`UserInfo`]: presale::UserInfo
//! [`TransferRequest`]: account::TransferRequest

pub mod account;
pub mod errors;
pub mod events;
pub mod laws;
pub mod ops;
pub mod presale;

pub use account::AccountId;
pub use account::TransferKind;
pub use account::TransferRequest;
pub use errors::ErrorCode;
pub use events::ContributionMade;
pub use events::FundsWithdrawn;
pub use events::PresaleFinalized;
pub use events::PresaleInitialized;
pub use events::PresalePaused;
pub use events::PresaleUnpaused;
pub use events::TokensClaimed;
pub use ops::claim_tokens;
pub use ops::contribute;
pub use ops::finalize_presale;
pub use ops::initialize;
pub use ops::pause;
pub use ops::unpause;
pub use ops::withdraw;
pub use ops::ClaimOutcome;
pub use ops::ClaimTokens;
pub use ops::Contribute;
pub use ops::ContributeOutcome;
pub use ops::FinalizeOutcome;
pub use ops::FinalizePresale;
pub use ops::Initialize;
pub use ops::InitializeOutcome;
pub use ops::PauseUnpause;
pub use ops::Withdraw;
pub use ops::WithdrawOutcome;
pub use presale::check_owner;
pub use presale::Presale;
pub use presale::UserInfo;
pub use presale::CLAIM_DELAY_SECONDS;
pub use presale::FIXED_RATE;
