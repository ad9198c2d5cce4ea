//! Server-side credential verification outcome.
use vstd::prelude::*;

use super::claims::ClerkAuth;

verus! {

/// Result of checking request credentials before handlers or server functions run.
#[derive(Debug, PartialEq, Eq)]
#[non_exhaustive]
pub enum VerificationOutcome {
    /// No bearer credentials or session cookie were present on the request.
    Missing,
    /// Credentials were present and verified.
    Valid(ClerkAuth),
    /// Credentials were present but invalid.
    Invalid(InvalidTokenReason),
    /// Verification infrastructure was unavailable. Server middleware fails closed.
    Unavailable,
}

/// Why a presented token failed verification.
#[derive(Debug, Clone, Copy, PartialEq, Eq, Hash, Structural)]
#[non_exhaustive]
pub enum InvalidTokenReason {
    /// The token is past its `exp` claim; the client should refresh its session.
    Expired,
    /// The token's `nbf`/`iat` claim is in the future beyond the accepted clock skew.
    NotYetValid,
    /// Any other verification failure.
    Other,
}

impl VerificationOutcome {
    /// Returns verified auth claims only for a valid outcome.
    pub fn auth(&self) -> (r: Option<&ClerkAuth>)
        ensures
            match *self {
                VerificationOutcome::Valid(a) => r == Some(&a),
                _ => r is None,
            },
    {
        match self {
            VerificationOutcome::Valid(auth) => Some(auth),
            _ => None,
        }
    }

    /// Consumes the outcome, returning verified auth only for a valid outcome.
    pub fn into_auth(self) -> (r: Option<ClerkAuth>)
        ensures
            match self {
                VerificationOutcome::Valid(a) => r == Some(a),
                _ => r is None,
            },
    {
        match self {
            VerificationOutcome::Valid(auth) => Some(auth),
            _ => None,
        }
    }
}

impl VerificationOutcome {
    /// Two outcomes with the same content.
    pub open spec fn same_as(self, other: VerificationOutcome) -> bool {
        match (self, other) {
            (VerificationOutcome::Valid(a), VerificationOutcome::Valid(b)) => a.same_as(b),
            (VerificationOutcome::Valid(_), _) => false,
            (_, VerificationOutcome::Valid(_)) => false,
            _ => self == other,
        }
    }
}

impl Clone for VerificationOutcome {
    fn clone(&self) -> (r: Self)
        ensures
            r.same_as(*self),
    {
        match self {
            VerificationOutcome::Missing => VerificationOutcome::Missing,
            VerificationOutcome::Valid(a) => VerificationOutcome::Valid(a.clone()),
            VerificationOutcome::Invalid(reason) => VerificationOutcome::Invalid(*reason),
            VerificationOutcome::Unavailable => VerificationOutcome::Unavailable,
        }
    }
}

} // verus!
