//! Reading verified auth in server functions, from the verification
//! outcome the request carries.
use vstd::prelude::*;

use crate::auth::{ClerkAuth, ClerkError, VerificationOutcome};
use crate::text::push_str;

verus! {

/// The detail of the error for an unavailable verifier. The outcome does
/// not carry failure details; the verification layer logs the underlying
/// cause where the fetch fails.
pub open spec fn jwks_unavailable_detail() -> Seq<char> {
    "verification infrastructure was unavailable for this request"@
}

/// The error for a request whose verification infrastructure was
/// unavailable.
pub fn jwks_unavailable() -> (r: ClerkError)
    ensures
        r matches ClerkError::JwksUnavailable(m) && m@ == jwks_unavailable_detail(),
{
    let mut detail = String::new();
    push_str(&mut detail, "verification infrastructure was unavailable for this request");
    ClerkError::JwksUnavailable(detail)
}

/// Verified auth, or `None` for anonymous, invalid, or absent outcomes, from
/// the outcome the current request context carries (`context_outcome`: an
/// error when there is no server context, `None` when no verification layer
/// ran).
///
/// This is the optional counterpart to [`current_auth`]: an anonymous or
/// invalid request yields `Ok(None)` here rather than an error, so a handler
/// that serves both signed-in and anonymous callers can branch on the `Option`.
/// Both readers still fail closed on an unavailable verifier.
pub fn current_auth_opt(context_outcome: Result<Option<VerificationOutcome>, ClerkError>) -> (r: Result<
    Option<ClerkAuth>,
    ClerkError,
>)
    ensures
        match context_outcome {
            Err(e) => r == Err::<Option<ClerkAuth>, ClerkError>(e),
            Ok(Some(VerificationOutcome::Unavailable)) => r matches Err(ClerkError::JwksUnavailable(m)) && m@
                == jwks_unavailable_detail(),
            Ok(Some(VerificationOutcome::Valid(a))) => r == Ok::<Option<ClerkAuth>, ClerkError>(Some(a)),
            _ => r == Ok::<Option<ClerkAuth>, ClerkError>(None),
        },
{
    let outcome = match context_outcome {
        Ok(outcome) => outcome,
        Err(e) => {
            return Err(e);
        },
    };
    match outcome {
        Some(VerificationOutcome::Unavailable) => Err(jwks_unavailable()),
        Some(VerificationOutcome::Valid(auth)) => Ok(Some(auth)),
        _ => Ok(None),
    }
}

/// Verified auth from the outcome the current request context carries.
///
/// Errors with [`ClerkError::Unauthenticated`] for anonymous or invalid
/// credentials, [`ClerkError::TokenExpired`] when the presented token was past
/// its expiry, [`ClerkError::JwksUnavailable`] when verification
/// infrastructure was unavailable, and [`ClerkError::NoServerContext`] (the
/// error of `context_outcome`) outside a server function or SSR scope.
///
/// Only `Expired` maps to [`ClerkError::TokenExpired`]; other invalid-token
/// reasons (including `NotYetValid`) collapse into
/// [`ClerkError::Unauthenticated`].
pub fn current_auth(context_outcome: Result<Option<VerificationOutcome>, ClerkError>) -> (r: Result<
    ClerkAuth,
    ClerkError,
>)
    ensures
        match context_outcome {
            Err(e) => r == Err::<ClerkAuth, ClerkError>(e),
            Ok(Some(VerificationOutcome::Valid(a))) => r == Ok::<ClerkAuth, ClerkError>(a),
            Ok(Some(VerificationOutcome::Invalid(reason))) => r == Err::<ClerkAuth, ClerkError>(
                ClerkError::spec_from_reason(reason),
            ),
            Ok(Some(VerificationOutcome::Unavailable)) => r matches Err(ClerkError::JwksUnavailable(m)) && m@
                == jwks_unavailable_detail(),
            _ => r == Err::<ClerkAuth, ClerkError>(ClerkError::Unauthenticated),
        },
{
    let outcome = match context_outcome {
        Ok(outcome) => outcome,
        Err(e) => {
            return Err(e);
        },
    };
    match outcome {
        Some(VerificationOutcome::Valid(auth)) => Ok(auth),
        Some(VerificationOutcome::Invalid(reason)) => Err(ClerkError::from(reason)),
        Some(VerificationOutcome::Unavailable) => Err(jwks_unavailable()),
        _ => Err(ClerkError::Unauthenticated),
    }
}

/// The HTTP status of a server-function error: `401` for missing, invalid
/// or expired credentials, `503` for an unavailable verifier, `500`
/// otherwise.
pub fn clerk_error_status(error: &ClerkError) -> (r: u16)
    ensures
        r == match *error {
            ClerkError::Unauthenticated | ClerkError::TokenExpired => 401u16,
            ClerkError::JwksUnavailable(_) => 503u16,
            _ => 500u16,
        },
{
    match error {
        ClerkError::Unauthenticated | ClerkError::TokenExpired => 401,
        ClerkError::JwksUnavailable(_) => 503,
        _ => 500,
    }
}

} // verus!
