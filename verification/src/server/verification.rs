//! Why verifying a request's credentials failed, and what the request
//! pipeline does with an outcome.
use vstd::prelude::*;

use crate::auth::{InvalidTokenReason, VerificationOutcome};

verus! {

/// A verification step that did not produce claims.
#[derive(Debug, Clone, Copy, PartialEq, Eq, Structural)]
pub enum VerificationFailure {
    /// The token is not acceptable.
    Invalid(InvalidTokenReason),
    /// The keys needed to check it could not be had.
    Unavailable,
}

impl VerificationFailure {
    /// An invalid token, for no more specific reason.
    pub fn invalid() -> (r: Self)
        ensures
            r == VerificationFailure::Invalid(InvalidTokenReason::Other),
    {
        VerificationFailure::Invalid(InvalidTokenReason::Other)
    }

    /// The outcome a failure stands for.
    pub open spec fn outcome_spec(self) -> VerificationOutcome {
        match self {
            VerificationFailure::Invalid(reason) => VerificationOutcome::Invalid(reason),
            VerificationFailure::Unavailable => VerificationOutcome::Unavailable,
        }
    }
}

impl vstd::std_specs::convert::FromSpecImpl<VerificationFailure> for VerificationOutcome {
    open spec fn obeys_from_spec() -> bool {
        true
    }

    open spec fn from_spec(failure: VerificationFailure) -> VerificationOutcome {
        failure.outcome_spec()
    }
}

impl From<VerificationFailure> for VerificationOutcome {
    fn from(value: VerificationFailure) -> (r: Self) {
        match value {
            VerificationFailure::Invalid(reason) => VerificationOutcome::Invalid(reason),
            VerificationFailure::Unavailable => VerificationOutcome::Unavailable,
        }
    }
}

/// Whether a request with this outcome is passed on to the handlers:
/// every outcome but `Unavailable`, the one that fails closed.
pub open spec fn forwards(outcome: VerificationOutcome) -> bool {
    !(outcome is Unavailable)
}

/// Whether the request pipeline passes a request with this outcome on to
/// the handlers (with the outcome attached) rather than answering it with
/// `503 Service Unavailable`.
pub fn forwards_request(outcome: &VerificationOutcome) -> (r: bool)
    ensures
        r == forwards(*outcome),
{
    match outcome {
        VerificationOutcome::Unavailable => false,
        _ => true,
    }
}

} // verus!
