//! Role-based access control with committee (multisig) governance.
//!
//! The crate models a deployment's persisted records as one state value,
//! [`access_control::AccessControlModule`], and verifies every decision the
//! engine makes: role hierarchy checks, blacklist and tier gating, the
//! two-step single-admin transfer, and the full proposal lifecycle
//! (classification, thresholds, time-locks, voting, expiry, execution).

pub mod access_control;
pub mod common;
pub mod errors;
pub mod multisig;
pub mod types;

pub use access_control::AccessControlModule;
pub use errors::AccessControlError;
pub use errors::AccessControlResult;
pub use types::AccessControlConfig;
pub use types::MembershipInfo;
pub use types::MultiSigConfig;
pub use types::PendingProposal;
pub use types::ProposalAction;
pub use types::ProposalStats;
pub use types::ProposalType;
pub use types::SubscriptionTierLevel;
pub use types::UserRole;
