//! Unified error type for the library.
use vstd::prelude::*;

use super::reverification::{level_text, ReverificationLevel};
use super::verification::InvalidTokenReason;
use crate::json::{json_member, json_member_text, json_string_value, member, text_of};
use crate::text::{push_str, same_text};

verus! {

/// Errors produced anywhere in the stack.
///
/// Variants store only owned strings so errors stay `Clone + PartialEq + Eq`.
#[derive(Debug, PartialEq, Eq)]
#[non_exhaustive]
pub enum ClerkError {
    /// Clerk-js has not finished loading yet.
    NotLoaded,
    /// The browser Clerk lifecycle could not make progress before a deadline.
    Timeout(String),
    /// A browser-only Clerk action was awaited on a target where clerk-js can
    /// never load.
    UnsupportedTarget,
    /// The clerk-js script failed to load or did not become ready in time.
    ScriptLoad(String),
    /// The browser is offline, so clerk-js could not fetch a fresh session token.
    Offline,
    /// Request has no session/credentials.
    Unauthenticated,
    /// Session JWT is past its `exp` claim.
    TokenExpired,
    /// Server could not fetch or refresh JWKS from Clerk's Backend API.
    JwksUnavailable(String),
    /// A server context reader was called outside a server function or SSR scope.
    NoServerContext,
    /// Configuration was invalid (missing key, malformed env, etc.).
    InvalidConfig(String),
    /// A gated action needs step-up reverification, at the carried level when
    /// clerk reported one.
    NeedsReverification {
        /// The authentication-factor level the reverification requires.
        level: Option<ReverificationLevel>,
    },
    /// The user dismissed the step-up reverification prompt.
    ReverificationCancelled,
    /// JS interop failure.
    Js(String),
}

/// The human-readable message of an error.
pub open spec fn message_text(error: ClerkError) -> Seq<char> {
    match error {
        ClerkError::NotLoaded => "clerk has not finished loading"@,
        ClerkError::Timeout(m) => "clerk lifecycle timed out: "@ + m@,
        ClerkError::UnsupportedTarget => "clerk-js is not available on this build target"@,
        ClerkError::ScriptLoad(m) => "clerk-js failed to load: "@ + m@,
        ClerkError::Offline => "clerk is offline"@,
        ClerkError::Unauthenticated => "unauthenticated"@,
        ClerkError::TokenExpired => "session token expired"@,
        ClerkError::JwksUnavailable(m) => "clerk jwks unavailable: "@ + m@,
        ClerkError::NoServerContext => "no server context available; Clerk auth server context methods must be called inside a server function or SSR scope"@,
        ClerkError::InvalidConfig(m) => "invalid clerk configuration: "@ + m@,
        ClerkError::NeedsReverification { .. } => "reverification required"@,
        ClerkError::ReverificationCancelled => "reverification cancelled"@,
        ClerkError::Js(m) => "clerk js error: "@ + m@,
    }
}

/// The level text a reverification hint carries at
/// `metadata.reverification.level` of its `clerk_error` object.
pub open spec fn hint_level_text(clerk_error: serde_json::Value) -> Option<Seq<char>> {
    match json_member(clerk_error, "metadata"@) {
        Some(metadata) => match json_member(metadata, "reverification"@) {
            Some(reverification) => json_member_text(reverification, "level"@),
            None => None,
        },
        None => None,
    }
}

/// Whether `value` is clerk's step-up reverification hint: its
/// `clerk_error` object has `type` "forbidden" and `reason`
/// "reverification-error".
pub open spec fn is_reverification_hint(value: serde_json::Value) -> bool {
    &&& json_member(value, "clerk_error"@) is Some
    &&& json_member_text(json_member(value, "clerk_error"@)->0, "type"@) == Some("forbidden"@)
    &&& json_member_text(json_member(value, "clerk_error"@)->0, "reason"@) == Some(
        "reverification-error"@,
    )
}

/// The text of the member `name` of `value`, when that member is a string.
fn member_text<'a>(value: &'a serde_json::Value, name: &str) -> (r: Option<&'a str>)
    ensures
        match r {
            Some(s) => json_member_text(*value, name@) == Some(s@),
            None => json_member_text(*value, name@) is None,
        },
{
    match member(value, name) {
        Some(v) => {
            let t = text_of(v);
            proof {
                if let Some(s) = t {
                    assert(json_string_value(s@) == *v);
                }
            }
            t
        },
        None => None,
    }
}

/// Whether the member `name` of `value` is the string `expected`.
fn member_is(value: &serde_json::Value, name: &str, expected: &str) -> (r: bool)
    ensures
        r == (json_member_text(*value, name@) == Some(expected@)),
{
    match member_text(value, name) {
        Some(s) => same_text(s, expected),
        None => false,
    }
}

impl ClerkError {
    /// The human-readable message for this error.
    pub fn message(&self) -> (r: String)
        ensures
            r@ == message_text(*self),
    {
        let mut out = String::new();
        match self {
            ClerkError::NotLoaded => push_str(&mut out, "clerk has not finished loading"),
            ClerkError::Timeout(m) => {
                push_str(&mut out, "clerk lifecycle timed out: ");
                push_str(&mut out, m.as_str());
            },
            ClerkError::UnsupportedTarget => push_str(
                &mut out,
                "clerk-js is not available on this build target",
            ),
            ClerkError::ScriptLoad(m) => {
                push_str(&mut out, "clerk-js failed to load: ");
                push_str(&mut out, m.as_str());
            },
            ClerkError::Offline => push_str(&mut out, "clerk is offline"),
            ClerkError::Unauthenticated => push_str(&mut out, "unauthenticated"),
            ClerkError::TokenExpired => push_str(&mut out, "session token expired"),
            ClerkError::JwksUnavailable(m) => {
                push_str(&mut out, "clerk jwks unavailable: ");
                push_str(&mut out, m.as_str());
            },
            ClerkError::NoServerContext => push_str(
                &mut out,
                "no server context available; Clerk auth server context methods must be called inside a server function or SSR scope",
            ),
            ClerkError::InvalidConfig(m) => {
                push_str(&mut out, "invalid clerk configuration: ");
                push_str(&mut out, m.as_str());
            },
            ClerkError::NeedsReverification { .. } => push_str(&mut out, "reverification required"),
            ClerkError::ReverificationCancelled => push_str(&mut out, "reverification cancelled"),
            ClerkError::Js(m) => {
                push_str(&mut out, "clerk js error: ");
                push_str(&mut out, m.as_str());
            },
        }
        out
    }

    /// Recognize a clerk step-up reverification hint and map it to
    /// [`ClerkError::NeedsReverification`], carrying the required level.
    ///
    /// A reverification hint is the JSON body of a clerk 403 of the shape
    /// `{ "clerk_error": { "type": "forbidden", "reason":
    /// "reverification-error", "metadata": { "reverification": { "level":
    /// "second_factor" } } } }`; the level is carried when it is a string.
    /// Returns `None` for any value that is not such a hint.
    pub fn from_reverification_hint(value: &serde_json::Value) -> (r: Option<Self>)
        ensures
            is_reverification_hint(*value) ==> (r matches Some(ClerkError::NeedsReverification { level })
                && match hint_level_text(json_member(*value, "clerk_error"@)->0) {
                None => level is None,
                Some(text) => level matches Some(l) && level_text(l) == text,
            }),
            !is_reverification_hint(*value) ==> r is None,
    {
        let clerk_error = match member(value, "clerk_error") {
            Some(e) => e,
            None => return None,
        };
        if !member_is(clerk_error, "type", "forbidden") || !member_is(
            clerk_error,
            "reason",
            "reverification-error",
        ) {
            return None;
        }
        let level = match member(clerk_error, "metadata") {
            Some(metadata) => match member(metadata, "reverification") {
                Some(reverification) => match member_text(reverification, "level") {
                    Some(text) => Some(ReverificationLevel::from_text(text)),
                    None => None,
                },
                None => None,
            },
            None => None,
        };
        Some(ClerkError::NeedsReverification { level })
    }

    /// Maps a token-verification failure reason to the error callers act on:
    /// only an expired token maps to [`ClerkError::TokenExpired`]; every other
    /// reason is [`ClerkError::Unauthenticated`].
    pub open spec fn spec_from_reason(reason: InvalidTokenReason) -> ClerkError {
        match reason {
            InvalidTokenReason::Expired => ClerkError::TokenExpired,
            _ => ClerkError::Unauthenticated,
        }
    }
}

impl vstd::std_specs::convert::FromSpecImpl<InvalidTokenReason> for ClerkError {
    open spec fn obeys_from_spec() -> bool {
        true
    }

    open spec fn from_spec(reason: InvalidTokenReason) -> ClerkError {
        ClerkError::spec_from_reason(reason)
    }
}

impl From<InvalidTokenReason> for ClerkError {
    fn from(reason: InvalidTokenReason) -> (r: Self) {
        match reason {
            InvalidTokenReason::Expired => ClerkError::TokenExpired,
            _ => ClerkError::Unauthenticated,
        }
    }
}

impl Clone for ClerkError {
    fn clone(&self) -> (r: Self)
        ensures
            r == *self,
    {
        match self {
            ClerkError::NotLoaded => ClerkError::NotLoaded,
            ClerkError::Timeout(m) => ClerkError::Timeout(m.clone()),
            ClerkError::UnsupportedTarget => ClerkError::UnsupportedTarget,
            ClerkError::ScriptLoad(m) => ClerkError::ScriptLoad(m.clone()),
            ClerkError::Offline => ClerkError::Offline,
            ClerkError::Unauthenticated => ClerkError::Unauthenticated,
            ClerkError::TokenExpired => ClerkError::TokenExpired,
            ClerkError::JwksUnavailable(m) => ClerkError::JwksUnavailable(m.clone()),
            ClerkError::NoServerContext => ClerkError::NoServerContext,
            ClerkError::InvalidConfig(m) => ClerkError::InvalidConfig(m.clone()),
            ClerkError::NeedsReverification { level } => ClerkError::NeedsReverification {
                level: match level {
                    Some(l) => Some(l.clone()),
                    None => None,
                },
            },
            ClerkError::ReverificationCancelled => ClerkError::ReverificationCancelled,
            ClerkError::Js(m) => ClerkError::Js(m.clone()),
        }
    }
}

} // verus!
