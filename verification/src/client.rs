//! Decisions of the browser client around clerk-js: what an observed
//! clerk-js state means, how JS errors read, the errors of a stalled load,
//! and the step-up reverification flow.
use vstd::prelude::*;

use crate::auth::session::{Session, SessionStatus, User};
use crate::auth::state::AuthObservation;
use crate::auth::{ClerkError, ReverificationLevel};
use crate::text::{decimal_text, push_decimal, push_str, same_text};

verus! {

broadcast use vstd::string::group_string_axioms;

/// Where clerk-js is expected to come from.
#[derive(Debug, Clone, Copy, PartialEq, Eq, Structural)]
pub enum ClerkScriptSource {
    /// The crate injects clerk-js and `@clerk/ui` for a publishable key.
    PublishableKeyAvailable,
    /// clerk-js is loaded externally (`load_clerk_js` is false).
    ExternalOnly,
}

/// The message of a script-load timeout after `timeout_ms` milliseconds.
pub open spec fn timeout_message(source: ClerkScriptSource, timeout_ms: u32) -> Seq<char> {
    match source {
        ClerkScriptSource::PublishableKeyAvailable => "window.Clerk / @clerk/ui did not become ready within "@
            + decimal_text(timeout_ms as nat)
            + " ms; check the network tab for clerk.browser.js or ui.browser.js load failures and the dashboard's allowed-origins config"@,
        ClerkScriptSource::ExternalOnly => "window.Clerk did not appear within "@ + decimal_text(timeout_ms as nat)
            + " ms; load_clerk_js is false so dioxus-clerk expected clerk-js to be loaded externally"@,
    }
}

/// The error for clerk-js not becoming ready within `timeout_ms`.
pub fn timeout_error(source: ClerkScriptSource, timeout_ms: u32) -> (r: ClerkError)
    ensures
        r matches ClerkError::ScriptLoad(m) && m@ == timeout_message(source, timeout_ms),
{
    let mut message = String::new();
    match source {
        ClerkScriptSource::PublishableKeyAvailable => {
            push_str(&mut message, "window.Clerk / @clerk/ui did not become ready within ");
            push_decimal(&mut message, timeout_ms as u128);
            push_str(
                &mut message,
                " ms; check the network tab for clerk.browser.js or ui.browser.js load failures and the dashboard's allowed-origins config",
            );
        },
        ClerkScriptSource::ExternalOnly => {
            push_str(&mut message, "window.Clerk did not appear within ");
            push_decimal(&mut message, timeout_ms as u128);
            push_str(
                &mut message,
                " ms; load_clerk_js is false so dioxus-clerk expected clerk-js to be loaded externally",
            );
        },
    }
    ClerkError::ScriptLoad(message)
}

/// The message of the error for a missing publishable key.
pub open spec fn missing_publishable_key_message() -> Seq<char> {
    "missing Clerk publishable key; provide ClerkProvider publishable_key, an SSR initial state publishable key, or set load_clerk_js to false when loading clerk-js externally"@
}

/// The error for injecting clerk-js without a publishable key.
pub fn missing_publishable_key_error() -> (r: ClerkError)
    ensures
        r matches ClerkError::InvalidConfig(m) && m@ == missing_publishable_key_message(),
{
    let mut message = String::new();
    push_str(
        &mut message,
        "missing Clerk publishable key; provide ClerkProvider publishable_key, an SSR initial state publishable key, or set load_clerk_js to false when loading clerk-js externally",
    );
    ClerkError::InvalidConfig(message)
}

/// The observation a clerk-js state stands for.
///
/// A signed-in clerk-js with user and session is signed in (without both,
/// the answer is not reliable yet). `Clerk.isSignedIn` is false for a pending
/// session, yet `Clerk.session` still holds it; that is surfaced as pending
/// so apps can route on its current task. Otherwise the client is signed out.
pub fn observation_from_clerk(is_signed_in: bool, user: Option<User>, session: Option<Session>) -> (r:
    AuthObservation)
    ensures
        is_signed_in ==> match (user, session) {
            (Some(u), Some(s)) => r == AuthObservation::SignedIn { user: u, session: s },
            _ => r == AuthObservation::Loading,
        },
        !is_signed_in ==> match (user, session) {
            (Some(u), Some(s)) => if s.status == SessionStatus::Pending {
                r == AuthObservation::Pending { user: u, session: s }
            } else {
                r == AuthObservation::SignedOut
            },
            _ => r == AuthObservation::SignedOut,
        },
{
    if is_signed_in {
        return match (user, session) {
            (Some(user), Some(session)) => AuthObservation::SignedIn { user, session },
            _ => AuthObservation::Loading,
        };
    }
    match (user, session) {
        (Some(user), Some(session)) => {
            if matches!(session.status, SessionStatus::Pending) {
                AuthObservation::Pending { user, session }
            } else {
                AuthObservation::SignedOut
            }
        },
        _ => AuthObservation::SignedOut,
    }
}

/// The readable message of a JS error value, from its parts: the value as
/// a string, its `message` and `name` properties, and its debug rendering.
/// A message is prefixed with a meaningful name (`Name: message`); without
/// a message the name alone is used; without either, the debug rendering.
pub open spec fn js_error_text(
    as_string: Option<Seq<char>>,
    message: Option<Seq<char>>,
    name: Option<Seq<char>>,
    debug_text: Seq<char>,
) -> Seq<char> {
    let m = match as_string {
        Some(s) => Some(s),
        None => message,
    };
    match (name, m) {
        (Some(n), Some(msg)) => if n.len() > 0 && n != "Error"@ {
            n + ": "@ + msg
        } else {
            msg
        },
        (None, Some(msg)) => msg,
        (Some(n), None) => if n.len() > 0 {
            n
        } else {
            debug_text
        },
        (None, None) => debug_text,
    }
}

/// The readable message of a JS error value, from its parts.
pub fn js_error_message(
    as_string: Option<String>,
    message: Option<String>,
    name: Option<String>,
    debug_text: String,
) -> (r: String)
    ensures
        r@ == js_error_text(as_string.deep_view(), message.deep_view(), name.deep_view(), debug_text@),
{
    let m = match as_string {
        Some(s) => Some(s),
        None => message,
    };
    match (name, m) {
        (Some(n), Some(msg)) => {
            if !n.as_str().is_empty() && !same_text(n.as_str(), "Error") {
                let mut out = String::new();
                push_str(&mut out, n.as_str());
                push_str(&mut out, ": ");
                push_str(&mut out, msg.as_str());
                out
            } else {
                msg
            }
        },
        (None, Some(msg)) => msg,
        (Some(n), None) => if !n.as_str().is_empty() {
            n
        } else {
            debug_text
        },
        (None, None) => debug_text,
    }
}

/// The error of a rejected `session.getToken()`: clerk-js 6's
/// `ClerkOfflineError` (the browser is offline, which callers can retry)
/// is [`ClerkError::Offline`]; any other throw is a JS error with its
/// message.
pub fn token_error(name: Option<&str>, message: String) -> (r: ClerkError)
    ensures
        crate::text::opt_text(name) == Some("ClerkOfflineError"@) ==> r == ClerkError::Offline,
        crate::text::opt_text(name) != Some("ClerkOfflineError"@) ==> r == ClerkError::Js(message),
{
    match name {
        Some(n) => if same_text(n, "ClerkOfflineError") {
            ClerkError::Offline
        } else {
            ClerkError::Js(message)
        },
        None => ClerkError::Js(message),
    }
}

/// The result of a step-up reverification prompt.
#[derive(Debug, Clone, Copy, PartialEq, Eq, Structural)]
pub enum ReverificationOutcome {
    /// The user completed reverification; the gated action may retry.
    Completed,
    /// The user dismissed the prompt without completing it.
    Cancelled,
}

/// How long an open reverification prompt may stay unsettled before the
/// await gives up, in ms (ten minutes): a prompt torn down without firing
/// either callback must not leave the caller pending forever.
pub const REVERIFICATION_SETTLE_TIMEOUT_MS: u32 = 10 * 60 * 1000;

/// The message of a reverification prompt that passed its deadline.
pub open spec fn reverification_timeout_message() -> Seq<char> {
    "reverification prompt did not settle within the deadline"@
}

/// The result of an opened reverification prompt: `None` when the deadline
/// passed first, otherwise what the prompt's promise settled with. The
/// prompt resolves `true` from `afterVerification` and `false` from
/// `afterVerificationCancelled`: only a value that reads as `true` is a
/// completed prompt; a rejection is its error.
pub fn reverification_prompt_result(settled: Option<Result<Option<bool>, ClerkError>>) -> (r: Result<
    ReverificationOutcome,
    ClerkError,
>)
    ensures
        match settled {
            None => r matches Err(ClerkError::Timeout(m)) && m@ == reverification_timeout_message(),
            Some(Err(e)) => r == Err::<ReverificationOutcome, ClerkError>(e),
            Some(Ok(value)) => r == Ok::<ReverificationOutcome, ClerkError>(
                if value == Some(true) {
                    ReverificationOutcome::Completed
                } else {
                    ReverificationOutcome::Cancelled
                },
            ),
        },
{
    match settled {
        None => {
            let mut message = String::new();
            push_str(&mut message, "reverification prompt did not settle within the deadline");
            Err(ClerkError::Timeout(message))
        },
        Some(Err(error)) => Err(error),
        Some(Ok(Some(true))) => Ok(ReverificationOutcome::Completed),
        Some(Ok(_)) => Ok(ReverificationOutcome::Cancelled),
    }
}

/// The message of a `session.getToken()` that resolved to something other
/// than a string or nothing.
pub open spec fn non_string_token_message() -> Seq<char> {
    "Clerk.session.getToken resolved to a non-string value"@
}

/// What a resolved `session.getToken()` gives: `null` or `undefined` is no
/// token, a string is the token, and anything else is a broken clerk-js
/// surface, reported rather than read as "no token".
pub fn token_result(is_nullish: bool, as_string: Option<String>) -> (r: Result<Option<String>, ClerkError>)
    ensures
        is_nullish ==> r == Ok::<Option<String>, ClerkError>(None),
        !is_nullish ==> match as_string {
            Some(token) => r == Ok::<Option<String>, ClerkError>(Some(token)),
            None => r matches Err(ClerkError::Js(m)) && m@ == non_string_token_message(),
        },
{
    if is_nullish {
        return Ok(None);
    }
    match as_string {
        Some(token) => Ok(Some(token)),
        None => {
            let mut message = String::new();
            push_str(&mut message, "Clerk.session.getToken resolved to a non-string value");
            Err(ClerkError::Js(message))
        },
    }
}

/// What the reverification flow does after the gated action's first run.
#[derive(Debug, PartialEq, Eq)]
pub enum ReverificationStep<T> {
    /// Finish with this result.
    Finish(Result<T, ClerkError>),
    /// Prompt for reverification at this level.
    Prompt(Option<ReverificationLevel>),
}

/// What the reverification flow does after the prompt.
#[derive(Debug, PartialEq, Eq)]
pub enum AfterPrompt<T> {
    /// Run the gated action again; its result is final.
    Retry,
    /// Finish with this result.
    Finish(Result<T, ClerkError>),
}

/// The step after the gated action's first run: a request for step-up
/// reverification prompts for it; any other result (a value or another
/// error) is final.
pub fn after_action<T>(result: Result<T, ClerkError>) -> (r: ReverificationStep<T>)
    ensures
        r == after_action_spec(result),
{
    match result {
        Err(ClerkError::NeedsReverification { level }) => ReverificationStep::Prompt(level),
        other => ReverificationStep::Finish(other),
    }
}

/// The step after the prompt: a completed prompt retries the action, a
/// cancelled one finishes with [`ClerkError::ReverificationCancelled`], and
/// a prompt error finishes with that error.
pub fn after_prompt<T>(prompt: Result<ReverificationOutcome, ClerkError>) -> (r: AfterPrompt<T>)
    ensures
        r == after_prompt_spec::<T>(prompt),
{
    match prompt {
        Ok(ReverificationOutcome::Completed) => AfterPrompt::Retry,
        Ok(ReverificationOutcome::Cancelled) => AfterPrompt::Finish(Err(ClerkError::ReverificationCancelled)),
        Err(e) => AfterPrompt::Finish(Err(e)),
    }
}

/// The prompt is only ever reached from a reverification request, and the
/// action only ever retried after a completed prompt; a cancelled prompt
/// ends in [`ClerkError::ReverificationCancelled`].
pub proof fn lemma_prompt_only_on_request<T>(result: Result<T, ClerkError>, prompt: Result<ReverificationOutcome, ClerkError>)
    ensures
        after_action_spec(result) is Prompt <==> (result matches Err(ClerkError::NeedsReverification { .. })),
        after_prompt_spec::<T>(prompt) is Retry <==> prompt == Ok::<ReverificationOutcome, ClerkError>(
            ReverificationOutcome::Completed,
        ),
        prompt == Ok::<ReverificationOutcome, ClerkError>(ReverificationOutcome::Cancelled) ==> after_prompt_spec::<T>(
            prompt,
        ) == AfterPrompt::<T>::Finish(Err(ClerkError::ReverificationCancelled)),
{
}

/// One call the reverification flow makes.
pub enum ReverificationCall {
    /// A run of the gated action.
    Action,
    /// The reverification prompt, opened at this level.
    Prompt(Option<ReverificationLevel>),
}

/// The calls the reverification flow makes, in order, and its result, when
/// the gated action's first run gives `first`, the prompt (if opened) gives
/// `prompt`, and the action's second run (if made) gives `retry`: the flow
/// decides by [`after_action`] on the first result and by [`after_prompt`]
/// on the prompt's.
pub open spec fn reverification_run<T>(
    first: Result<T, ClerkError>,
    prompt: Result<ReverificationOutcome, ClerkError>,
    retry: Result<T, ClerkError>,
) -> (Seq<ReverificationCall>, Result<T, ClerkError>) {
    match after_action_spec(first) {
        ReverificationStep::Finish(result) => (seq![ReverificationCall::Action], result),
        ReverificationStep::Prompt(level) => match after_prompt_spec::<T>(prompt) {
            AfterPrompt::Retry => (
                seq![ReverificationCall::Action, ReverificationCall::Prompt(level), ReverificationCall::Action],
                retry,
            ),
            AfterPrompt::Finish(result) => (
                seq![ReverificationCall::Action, ReverificationCall::Prompt(level)],
                result,
            ),
        },
    }
}

/// The step-up reverification protocol: the gated action runs first. Unless
/// it asks for reverification, its result is final and the prompt is never
/// opened. Otherwise the prompt opens once, at the requested level; a
/// completed prompt runs the action exactly once more and its result is
/// final; a cancelled prompt ends in [`ClerkError::ReverificationCancelled`]
/// and a prompt error is passed on, in both cases without running the
/// action again.
pub proof fn lemma_reverification_protocol<T>(
    first: Result<T, ClerkError>,
    prompt: Result<ReverificationOutcome, ClerkError>,
    retry: Result<T, ClerkError>,
)
    ensures
        ({
            let (calls, result) = reverification_run(first, prompt, retry);
            &&& !(first matches Err(ClerkError::NeedsReverification { .. })) ==> calls == seq![
                ReverificationCall::Action,
            ] && result == first
            &&& first matches Err(ClerkError::NeedsReverification { level }) ==> match prompt {
                Ok(ReverificationOutcome::Completed) => calls == seq![
                    ReverificationCall::Action,
                    ReverificationCall::Prompt(level),
                    ReverificationCall::Action,
                ] && result == retry,
                Ok(ReverificationOutcome::Cancelled) => calls == seq![
                    ReverificationCall::Action,
                    ReverificationCall::Prompt(level),
                ] && result == Err::<T, ClerkError>(ClerkError::ReverificationCancelled),
                Err(e) => calls == seq![ReverificationCall::Action, ReverificationCall::Prompt(level)]
                    && result == Err::<T, ClerkError>(e),
            }
        }),
{
}

/// The step after the gated action's first run.
pub open spec fn after_action_spec<T>(result: Result<T, ClerkError>) -> ReverificationStep<T> {
    match result {
        Err(ClerkError::NeedsReverification { level }) => ReverificationStep::Prompt(level),
        _ => ReverificationStep::Finish(result),
    }
}

/// The step after the prompt.
pub open spec fn after_prompt_spec<T>(prompt: Result<ReverificationOutcome, ClerkError>) -> AfterPrompt<T> {
    match prompt {
        Ok(ReverificationOutcome::Completed) => AfterPrompt::Retry,
        Ok(ReverificationOutcome::Cancelled) => AfterPrompt::Finish(Err(ClerkError::ReverificationCancelled)),
        Err(e) => AfterPrompt::Finish(Err(e)),
    }
}

} // verus!
