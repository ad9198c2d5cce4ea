//! Shared auth types, errors, and verification outcomes.

pub mod auth_state;
pub mod claims;
pub mod error;
pub mod reverification;
pub mod session;
pub mod state;
pub mod verification;

pub use auth_state::{AuthRequirement, AuthState, AuthStateView, AuthStatus};
pub use claims::ClerkAuth;
pub use error::ClerkError;
pub use reverification::{OtherReverificationLevel, ReverificationLevel};
pub use verification::{InvalidTokenReason, VerificationOutcome};
