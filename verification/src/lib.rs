//! The core of a token sale held in escrow.
//!
//! A campaign sells a fixed supply of a token for a settlement currency
//! during a window of time.  Contributions are held in the campaign's
//! escrow, the tokens in a vault.  When the campaign is over, the escrow goes
//! to the campaign's authority and the tokens to the contributors if the soft
//! cap was raised, and back to the contributors if it was not, or if the
//! campaign was cancelled or stopped.
//!
//! Every operation is a function of the records it is given, the caller and
//! the time.  It returns either the records to keep and the transfer of
//! value to carry out, or the reason of its refusal.  Each comes twice: one
//! function takes the time as an argument, the other reads it from the
//! ledger's clock.  Reading the records, carrying out the transfers and
//! keeping the new records is left to the caller.  What holds of a campaign
//! over any sequence of operations is stated over a model of its ledger.

pub mod claim;
mod clock;
pub mod contribute;
pub mod error;
pub mod identity;
pub mod initialize;
pub mod instructions;
pub mod laws;
pub mod ledger;
pub mod mint;
pub mod policy;
pub mod pricing;
pub mod refund;
pub mod solvency;
pub mod state;
pub mod status;
pub mod transfer;
pub mod whitepaper;
pub mod withdraw;

pub use crate::claim::claim_tokens;
pub use crate::claim::claim_tokens_at;
pub use crate::contribute::contribute;
pub use crate::contribute::contribute_at;
pub use crate::error::IcoError;
pub use crate::identity::Identity;
pub use crate::initialize::initialize_ico;
pub use crate::instructions::ClaimTokens;
pub use crate::instructions::Contribute;
pub use crate::instructions::InitializeIco;
pub use crate::instructions::Refund;
pub use crate::instructions::UpdateIcoStatus;
pub use crate::instructions::WithdrawSol;
pub use crate::policy::Policy;
pub use crate::refund::refund;
pub use crate::refund::refund_at;
pub use crate::state::Contribution;
pub use crate::state::IcoState;
pub use crate::state::IcoStatus;
pub use crate::state::IcoStatusAccount;
pub use crate::state::MAX_CONTRIBUTION;
pub use crate::state::MIN_CONTRIBUTION;
pub use crate::status::update_ico_status;
pub use crate::status::update_ico_status_at;
pub use crate::transfer::Asset;
pub use crate::transfer::Holder;
pub use crate::transfer::Transfer;
pub use crate::withdraw::withdraw_sol;
pub use crate::withdraw::withdraw_sol_at;
