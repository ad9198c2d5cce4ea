use std::cell::Cell;

use dioxus_clerk::auth::session::{Session, SessionStatus, User};
use dioxus_clerk::auth::state::AuthObservation;
use dioxus_clerk::auth::{ClerkError, ReverificationLevel};
use dioxus_clerk::client::{
    after_action, after_prompt, js_error_message, missing_publishable_key_error, observation_from_clerk,
    reverification_prompt_result, timeout_error, token_error, token_result, ClerkScriptSource, ReverificationOutcome,
    ReverificationStep, AfterPrompt, REVERIFICATION_SETTLE_TIMEOUT_MS,
};

/// Drives the reverification steps the way the browser client does.
fn run_with_reverification<T>(
    fetcher: impl Fn() -> Result<T, ClerkError>,
    prompt: impl FnOnce(Option<ReverificationLevel>) -> Result<ReverificationOutcome, ClerkError>,
) -> Result<T, ClerkError> {
    match after_action(fetcher()) {
        ReverificationStep::Finish(result) => result,
        ReverificationStep::Prompt(level) => match after_prompt::<T>(prompt(level)) {
            AfterPrompt::Retry => fetcher(),
            AfterPrompt::Finish(result) => result,
        },
    }
}

#[test]
fn success_returns_value_and_never_prompts() {
    let prompted = Cell::new(false);

    let result = run_with_reverification(
        || Ok(7),
        |_level| {
            prompted.set(true);
            Ok(ReverificationOutcome::Completed)
        },
    );

    assert_eq!(result, Ok(7));
    assert!(!prompted.get(), "a successful action must not prompt");
}

#[test]
fn completed_prompt_retries_the_action() {
    let calls = Cell::new(0u32);
    let seen_level = Cell::new(None);

    let result = run_with_reverification(
        || {
            let n = calls.get();
            calls.set(n + 1);
            if n == 0 {
                Err(ClerkError::NeedsReverification { level: Some(ReverificationLevel::SecondFactor) })
            } else {
                Ok(42)
            }
        },
        |level| {
            seen_level.set(Some(level));
            Ok(ReverificationOutcome::Completed)
        },
    );

    assert_eq!(result, Ok(42));
    assert_eq!(calls.get(), 2, "the action retries after reverification");
    assert_eq!(
        seen_level.take(),
        Some(Some(ReverificationLevel::SecondFactor)),
        "the prompt receives the required level"
    );
}

#[test]
fn cancelled_prompt_yields_cancelled_and_does_not_retry() {
    let calls = Cell::new(0u32);

    let result = run_with_reverification(
        || {
            calls.set(calls.get() + 1);
            Err::<i32, _>(ClerkError::NeedsReverification { level: None })
        },
        |_level| Ok(ReverificationOutcome::Cancelled),
    );

    assert_eq!(result, Err(ClerkError::ReverificationCancelled));
    assert_eq!(calls.get(), 1, "a cancelled prompt must not retry");
}

#[test]
fn other_errors_pass_through_without_prompting() {
    let prompted = Cell::new(false);

    let result = run_with_reverification(
        || Err::<i32, _>(ClerkError::Unauthenticated),
        |_level| {
            prompted.set(true);
            Ok(ReverificationOutcome::Completed)
        },
    );

    assert_eq!(result, Err(ClerkError::Unauthenticated));
    assert!(!prompted.get(), "a non-reverification error must not prompt");
}

#[test]
fn prompt_error_propagates_without_retry() {
    let calls = Cell::new(0u32);

    let result = run_with_reverification(
        || {
            calls.set(calls.get() + 1);
            Err::<i32, _>(ClerkError::NeedsReverification { level: None })
        },
        |_level| Err(ClerkError::NotLoaded),
    );

    assert_eq!(result, Err(ClerkError::NotLoaded));
    assert_eq!(calls.get(), 1, "a failed prompt must not retry the action");
}

#[test]
fn script_load_timeouts_name_the_wait() {
    assert_eq!(
        timeout_error(ClerkScriptSource::PublishableKeyAvailable, 10_000),
        ClerkError::ScriptLoad(
            "window.Clerk / @clerk/ui did not become ready within 10000 ms; check the network tab for clerk.browser.js or ui.browser.js load failures and the dashboard's allowed-origins config".into()
        )
    );
    assert_eq!(
        timeout_error(ClerkScriptSource::ExternalOnly, 0),
        ClerkError::ScriptLoad(
            "window.Clerk did not appear within 0 ms; load_clerk_js is false so dioxus-clerk expected clerk-js to be loaded externally".into()
        )
    );
    assert!(matches!(missing_publishable_key_error(), ClerkError::InvalidConfig(m) if m.starts_with("missing Clerk publishable key")));
}

#[test]
fn observations_follow_clerk_state() {
    let active = Session::new("sess_1", SessionStatus::Active);
    let pending = Session::new("sess_1", SessionStatus::Pending);

    assert!(matches!(
        observation_from_clerk(true, Some(User::new("user_1")), Some(active.clone())),
        AuthObservation::SignedIn { .. }
    ));
    assert_eq!(observation_from_clerk(true, Some(User::new("user_1")), None), AuthObservation::Loading);
    assert!(matches!(
        observation_from_clerk(false, Some(User::new("user_1")), Some(pending)),
        AuthObservation::Pending { .. }
    ));
    assert_eq!(
        observation_from_clerk(false, Some(User::new("user_1")), Some(active)),
        AuthObservation::SignedOut
    );
    assert_eq!(observation_from_clerk(false, None, None), AuthObservation::SignedOut);
}

#[test]
fn js_error_messages_prefer_message_and_custom_name() {
    assert_eq!(
        js_error_message(None, Some("boom".into()), Some("ClerkAPIError".into()), "dbg".into()),
        "ClerkAPIError: boom"
    );
    assert_eq!(js_error_message(None, Some("boom".into()), Some("Error".into()), "dbg".into()), "boom");
    assert_eq!(js_error_message(Some("plain".into()), Some("boom".into()), None, "dbg".into()), "plain");
    assert_eq!(js_error_message(None, None, Some("Named".into()), "dbg".into()), "Named");
    assert_eq!(js_error_message(None, None, Some(String::new()), "dbg".into()), "dbg");
    assert_eq!(js_error_message(None, None, None, "dbg".into()), "dbg");
}

#[test]
fn token_error_maps_clerk_offline_error_by_name() {
    assert_eq!(token_error(Some("ClerkOfflineError"), "offline".into()), ClerkError::Offline);
    assert_eq!(token_error(Some("TypeError"), "bad".into()), ClerkError::Js("bad".into()));
    assert_eq!(token_error(None, "bad".into()), ClerkError::Js("bad".into()));
}

#[test]
fn reverification_prompt_settles_to_completed_only_on_true() {
    assert_eq!(reverification_prompt_result(Some(Ok(Some(true)))), Ok(ReverificationOutcome::Completed));
    assert_eq!(reverification_prompt_result(Some(Ok(Some(false)))), Ok(ReverificationOutcome::Cancelled));
    assert_eq!(reverification_prompt_result(Some(Ok(None))), Ok(ReverificationOutcome::Cancelled));
    assert_eq!(
        reverification_prompt_result(Some(Err(ClerkError::Js("boom".into())))),
        Err(ClerkError::Js("boom".into()))
    );
    assert_eq!(
        reverification_prompt_result(None),
        Err(ClerkError::Timeout("reverification prompt did not settle within the deadline".into()))
    );
    assert_eq!(REVERIFICATION_SETTLE_TIMEOUT_MS, 600_000);
}

#[test]
fn resolved_token_is_none_a_string_or_a_broken_surface() {
    assert_eq!(token_result(true, None), Ok(None));
    assert_eq!(token_result(true, Some("ignored".into())), Ok(None));
    assert_eq!(token_result(false, Some("jwt".into())), Ok(Some("jwt".into())));
    assert_eq!(
        token_result(false, None),
        Err(ClerkError::Js("Clerk.session.getToken resolved to a non-string value".into()))
    );
}
