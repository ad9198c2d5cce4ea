//! What extracting [`ClerkAuth`] from a request yields.
use vstd::prelude::*;

use crate::auth::{ClerkAuth, VerificationOutcome};

verus! {

/// Rejection returned when extracting [`ClerkAuth`] from a request.
#[derive(Debug, Clone, Copy, PartialEq, Eq, Structural)]
#[non_exhaustive]
pub enum AuthRejection {
    /// The request did not include valid auth credentials.
    Missing,
    /// Credentials were present but failed verification.
    Invalid,
    /// Verification infrastructure was unavailable.
    Unavailable,
}

impl AuthRejection {
    /// HTTP status this rejection maps to: `401 Unauthorized` for
    /// [`Missing`](Self::Missing)/[`Invalid`](Self::Invalid),
    /// `503 Service Unavailable` for [`Unavailable`](Self::Unavailable).
    pub fn status_code(self) -> (r: u16)
        ensures
            r == match self {
                AuthRejection::Missing | AuthRejection::Invalid => 401u16,
                AuthRejection::Unavailable => 503u16,
            },
    {
        match self {
            AuthRejection::Missing | AuthRejection::Invalid => 401,
            AuthRejection::Unavailable => 503,
        }
    }

    /// Short, non-sensitive reason phrase used as the default response body.
    pub fn message(self) -> (r: &'static str)
        ensures
            r@ == match self {
                AuthRejection::Missing => "unauthenticated"@,
                AuthRejection::Invalid => "invalid Clerk credentials"@,
                AuthRejection::Unavailable => "Clerk verification unavailable"@,
            },
    {
        match self {
            AuthRejection::Missing => "unauthenticated",
            AuthRejection::Invalid => "invalid Clerk credentials",
            AuthRejection::Unavailable => "Clerk verification unavailable",
        }
    }
}

/// Extracting required auth from a request carrying `outcome` (`None` when
/// no verification layer ran): the verified claims, or the rejection.
pub fn extract_auth(outcome: Option<&VerificationOutcome>) -> (r: Result<ClerkAuth, AuthRejection>)
    ensures
        match outcome {
            Some(VerificationOutcome::Valid(a)) => r matches Ok(b) && b.same_as(*a),
            Some(VerificationOutcome::Invalid(_)) => r == Err::<ClerkAuth, AuthRejection>(AuthRejection::Invalid),
            Some(VerificationOutcome::Unavailable) => r == Err::<ClerkAuth, AuthRejection>(AuthRejection::Unavailable),
            _ => r == Err::<ClerkAuth, AuthRejection>(AuthRejection::Missing),
        },
{
    match outcome {
        Some(VerificationOutcome::Valid(auth)) => Ok(auth.clone()),
        Some(VerificationOutcome::Invalid(_)) => Err(AuthRejection::Invalid),
        Some(VerificationOutcome::Unavailable) => Err(AuthRejection::Unavailable),
        _ => Err(AuthRejection::Missing),
    }
}

/// Extracting optional auth from a request carrying `outcome`: a missing
/// or invalid credential is the anonymous `None`, but an unavailable
/// verifier still fails closed, so an outage never silently strips a
/// signed-in user of their auth.
pub fn extract_optional_auth(outcome: Option<&VerificationOutcome>) -> (r: Result<Option<ClerkAuth>, AuthRejection>)
    ensures
        match outcome {
            Some(VerificationOutcome::Valid(a)) => r matches Ok(Some(b)) && b.same_as(*a),
            Some(VerificationOutcome::Unavailable) => r == Err::<Option<ClerkAuth>, AuthRejection>(
                AuthRejection::Unavailable,
            ),
            _ => r == Ok::<Option<ClerkAuth>, AuthRejection>(None),
        },
{
    match outcome {
        Some(VerificationOutcome::Valid(auth)) => Ok(Some(auth.clone())),
        Some(VerificationOutcome::Unavailable) => Err(AuthRejection::Unavailable),
        _ => Ok(None),
    }
}

/// Both extractors fail closed on an unavailable verifier, and neither
/// yields auth for anything but a valid outcome.
pub proof fn lemma_extractors_fail_closed(outcome: Option<VerificationOutcome>, required: Result<ClerkAuth, AuthRejection>, optional: Result<Option<ClerkAuth>, AuthRejection>)
    requires
        match outcome {
            Some(VerificationOutcome::Valid(a)) => required matches Ok(b) && b.same_as(a),
            Some(VerificationOutcome::Invalid(_)) => required == Err::<ClerkAuth, AuthRejection>(AuthRejection::Invalid),
            Some(VerificationOutcome::Unavailable) => required == Err::<ClerkAuth, AuthRejection>(AuthRejection::Unavailable),
            _ => required == Err::<ClerkAuth, AuthRejection>(AuthRejection::Missing),
        },
        match outcome {
            Some(VerificationOutcome::Valid(a)) => optional matches Ok(Some(b)) && b.same_as(a),
            Some(VerificationOutcome::Unavailable) => optional == Err::<Option<ClerkAuth>, AuthRejection>(
                AuthRejection::Unavailable,
            ),
            _ => optional == Ok::<Option<ClerkAuth>, AuthRejection>(None),
        },
    ensures
        outcome == Some(VerificationOutcome::Unavailable) ==> required is Err && optional is Err,
        (required is Ok || optional matches Ok(Some(_))) ==> outcome matches Some(VerificationOutcome::Valid(_)),
{
}

} // verus!
