//! SSR initial state helpers.
//!
//! The helpers return either the canonical initial state or a
//! `<script id="__clerk_initial_state">` HTML fragment carrying the verified
//! auth snapshot plus the publishable key. The schema and interpretation rules
//! live in `crate::ssr` so producer and consumer behavior cannot drift.
//!
//! These helpers exist for integrations that render HTML without the
//! provider component, which already emits its own element with the same id.
use vstd::prelude::*;

use crate::auth::VerificationOutcome;
use crate::ssr::{
    InitialAuthStatus, InitialState, InitialStateRead, ProviderStartup, escape_lt, initial_state_json_text,
    provider_startup_from_read, script_open_tag,
};
use crate::text::opt_as_str;

verus! {

broadcast use vstd::string::group_string_axioms;

/// Returns the canonical SSR initial state for explicit Server verification
/// outcome input.
pub fn initial_state(outcome: Option<&VerificationOutcome>, publishable_key: Option<&str>) -> (r: InitialState)
    ensures
        match outcome {
            Some(VerificationOutcome::Valid(a)) => r.auth.from_auth_spec(*a),
            Some(VerificationOutcome::Missing) => r.auth.bare(InitialAuthStatus::SignedOut),
            Some(VerificationOutcome::Invalid(_)) => r.auth.bare(InitialAuthStatus::SignedOut),
            _ => r.auth.bare(InitialAuthStatus::Unverified),
        },
        r.publishable_key.deep_view() == crate::text::opt_text(publishable_key),
{
    InitialState::from_outcome(outcome, publishable_key)
}

/// Returns a self-contained `<script>` HTML fragment carrying SSR initial
/// state for client hydration: the script element around the initial state
/// JSON with every `<` escaped.
///
/// Only a valid outcome contributes signed-in auth; verified non-sessions
/// (`Missing`, `Invalid`) produce signed-out initial state, and absent or
/// `Unavailable` outcomes produce an unverified seed the client resolves
/// itself.
pub fn initial_state_script(outcome: Option<&VerificationOutcome>, publishable_key: Option<&str>) -> (r: String)
    ensures
        exists|state: InitialState|
            {
                &&& match outcome {
                    Some(VerificationOutcome::Valid(a)) => state.auth.from_auth_spec(*a),
                    Some(VerificationOutcome::Missing) => state.auth.bare(InitialAuthStatus::SignedOut),
                    Some(VerificationOutcome::Invalid(_)) => state.auth.bare(InitialAuthStatus::SignedOut),
                    _ => state.auth.bare(InitialAuthStatus::Unverified),
                }
                &&& state.publishable_key.deep_view() == crate::text::opt_text(publishable_key)
                &&& r@ == script_open_tag() + escape_lt(initial_state_json_text(state)) + "</script>"@
            },
{
    let state = InitialState::from_outcome(outcome, publishable_key);
    state.script_html()
}

/// The canonical SSR initial state for the current request, from the
/// outcome its context carries (`None` without one).
pub fn initial_state_from_current_context(
    current_outcome: Option<VerificationOutcome>,
    publishable_key: Option<&str>,
) -> (r: InitialState)
    ensures
        match current_outcome {
            Some(VerificationOutcome::Valid(a)) => r.auth.from_auth_spec(a),
            Some(VerificationOutcome::Missing) => r.auth.bare(InitialAuthStatus::SignedOut),
            Some(VerificationOutcome::Invalid(_)) => r.auth.bare(InitialAuthStatus::SignedOut),
            _ => r.auth.bare(InitialAuthStatus::Unverified),
        },
        r.publishable_key.deep_view() == crate::text::opt_text(publishable_key),
{
    initial_state(current_outcome.as_ref(), publishable_key)
}

/// An SSR initial state script for the current request, from the outcome
/// its context carries (`None` without one).
pub fn initial_state_script_from_current_context(
    current_outcome: Option<VerificationOutcome>,
    publishable_key: Option<&str>,
) -> (r: String)
    ensures
        exists|state: InitialState|
            {
                &&& match current_outcome {
                    Some(VerificationOutcome::Valid(a)) => state.auth.from_auth_spec(a),
                    Some(VerificationOutcome::Missing) => state.auth.bare(InitialAuthStatus::SignedOut),
                    Some(VerificationOutcome::Invalid(_)) => state.auth.bare(InitialAuthStatus::SignedOut),
                    _ => state.auth.bare(InitialAuthStatus::Unverified),
                }
                &&& state.publishable_key.deep_view() == crate::text::opt_text(publishable_key)
                &&& r@ == script_open_tag() + escape_lt(initial_state_json_text(state)) + "</script>"@
            },
{
    initial_state_script(current_outcome.as_ref(), publishable_key)
}

/// Provider-ready startup facts for the current request. The server always
/// produces a present seed: even without a verification outcome, it seeds
/// an unverified snapshot the client resolves itself.
pub fn provider_startup_from_current_context(
    current_outcome: Option<VerificationOutcome>,
    prop_publishable_key: Option<String>,
) -> (r: ProviderStartup)
    ensures
        exists|state: InitialState|
            {
                &&& match current_outcome {
                    Some(VerificationOutcome::Valid(a)) => state.auth.from_auth_spec(a),
                    Some(VerificationOutcome::Missing) => state.auth.bare(InitialAuthStatus::SignedOut),
                    Some(VerificationOutcome::Invalid(_)) => state.auth.bare(InitialAuthStatus::SignedOut),
                    _ => state.auth.bare(InitialAuthStatus::Unverified),
                }
                &&& state.publishable_key.deep_view() == prop_publishable_key.deep_view()
                &&& r.auth@ == crate::auth::state::runtime_from_snapshot(state.auth)
                &&& r.publishable_key.deep_view() == prop_publishable_key.deep_view()
                &&& r.warning is None
                &&& r.initial_state_json matches Some(json) && json@ == escape_lt(initial_state_json_text(state))
            },
{
    let seed = InitialState::from_outcome(current_outcome.as_ref(), opt_as_str(&prop_publishable_key));
    let ghost state = seed;
    let r = provider_startup_from_read(InitialStateRead::Present(seed), prop_publishable_key);
    assert(state.publishable_key.deep_view() == prop_publishable_key.deep_view());
    r
}

} // verus!
