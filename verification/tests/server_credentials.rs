use dioxus_clerk::auth::{InvalidTokenReason, VerificationOutcome};
use dioxus_clerk::server::credentials::{
    bearer_token, cookie_failure_outcome, record_cookie_outcome, session_cookies, CookieVerification,
    RequestCredentials,
    MAX_SESSION_COOKIE_CANDIDATES,
};
use dioxus_clerk::auth::ClerkAuth;

fn credentials(authorization: Option<&str>, cookies: &[&str]) -> RequestCredentials {
    let cookies: Vec<String> = cookies.iter().map(|c| c.to_string()).collect();
    RequestCredentials::from_headers(authorization, &cookies)
}

#[test]
fn bearer_token_is_extracted_from_authorization_header() {
    assert_eq!(
        credentials(Some("Bearer bearer-token"), &[]),
        RequestCredentials::Bearer("bearer-token".into())
    );
}

#[test]
fn session_cookie_is_extracted_when_bearer_token_is_absent() {
    assert_eq!(
        credentials(None, &["__session=session-token"]),
        RequestCredentials::SessionCookies(vec!["session-token".into()])
    );
}

#[test]
fn bearer_scheme_is_case_insensitive() {
    assert_eq!(
        credentials(Some("bearer bearer-token"), &[]),
        RequestCredentials::Bearer("bearer-token".into())
    );
}

#[test]
fn suffixed_session_cookies_are_extracted_after_the_unsuffixed_cookie() {
    assert_eq!(
        credentials(
            None,
            &["__session_def=token-b; other=x; __session=token-main; __session_abc=token-a"]
        ),
        RequestCredentials::SessionCookies(vec!["token-main".into(), "token-a".into(), "token-b".into()])
    );
}

#[test]
fn duplicate_session_cookies_all_stay_candidates_in_header_order() {
    // RFC 6265 §5.4: when a host-only and a domain-wide `__session`
    // coexist, the more specific one is sent first; a stale duplicate
    // must not shadow it.
    assert_eq!(
        credentials(None, &["__session=host-token; __session=domain-token"]),
        RequestCredentials::SessionCookies(vec!["host-token".into(), "domain-token".into()])
    );
}

#[test]
fn session_cookies_split_across_multiple_cookie_headers_all_stay_candidates() {
    assert_eq!(
        credentials(None, &["__session=token-one", "other=x; __session=token-two"]),
        RequestCredentials::SessionCookies(vec!["token-one".into(), "token-two".into()])
    );
}

#[test]
fn session_cookie_candidates_are_capped_to_bound_verification_fan_out() {
    let mut header = String::from("__session=main");
    for i in 0..50 {
        // Zero-padded so the suffix ordering is deterministic.
        header.push_str(&format!("; __session_{i:02}=token-{i:02}"));
    }

    let RequestCredentials::SessionCookies(candidates) = credentials(None, &[header.as_str()]) else {
        panic!("session cookies should be extracted");
    };

    assert_eq!(candidates.len(), MAX_SESSION_COOKIE_CANDIDATES);
    // The unsuffixed cookie wins the first slot, then the lowest-sorted
    // suffixed variants fill the rest.
    assert_eq!(candidates[0], "main");
    assert_eq!(candidates[1], "token-00");
    assert_eq!(
        candidates[MAX_SESSION_COOKIE_CANDIDATES - 1],
        format!("token-{:02}", MAX_SESSION_COOKIE_CANDIDATES - 2)
    );
}

#[test]
fn empty_session_cookie_value_is_treated_as_missing_not_invalid() {
    assert_eq!(credentials(None, &["__session="]), RequestCredentials::Missing);
}

#[test]
fn empty_session_cookie_does_not_shadow_a_valid_duplicate() {
    assert_eq!(
        credentials(None, &["__session=; __session=real-token"]),
        RequestCredentials::SessionCookies(vec!["real-token".into()])
    );
}

#[test]
fn bearer_token_takes_precedence_over_session_cookie() {
    assert_eq!(
        credentials(Some("Bearer bearer-token"), &["__session=session-token"]),
        RequestCredentials::Bearer("bearer-token".into())
    );
}

#[test]
fn malformed_authorization_header_falls_back_to_session_cookie() {
    assert_eq!(
        credentials(Some("Basic not-a-bearer-token"), &["__session=session-token"]),
        RequestCredentials::SessionCookies(vec!["session-token".into()])
    );
}

#[test]
fn bearer_token_is_trimmed_and_must_not_be_empty() {
    assert_eq!(bearer_token(Some("  Bearer   tok  ")).as_deref(), Some("tok"));
    assert_eq!(bearer_token(Some("BEARER tok")).as_deref(), Some("tok"));
    assert_eq!(bearer_token(Some("Bearer    ")), None);
    assert_eq!(bearer_token(Some("Bearer")), None);
    assert_eq!(bearer_token(Some("Bearertok")), None);
    assert_eq!(bearer_token(None), None);
}

#[test]
fn cookies_with_other_prefixes_are_not_candidates() {
    assert!(session_cookies(&["__sessionx=a; __sessio=b; session=c".to_string()]).is_empty());
    assert_eq!(session_cookies(&["__session_=a".to_string()]), vec!["a".to_string()]);
}

#[test]
fn missing_credentials_map_to_missing_outcome() {
    assert_eq!(credentials(None, &[]), RequestCredentials::Missing);
    // With no cookie tried, nothing failed.
    assert!(matches!(cookie_failure_outcome(None), VerificationOutcome::Missing));
}

#[test]
fn any_valid_cookie_wins_and_unavailable_outranks_invalid() {
    let mut failure = None;
    assert!(record_cookie_outcome(&mut failure, VerificationOutcome::Invalid(InvalidTokenReason::Expired)).is_none());
    assert!(record_cookie_outcome(&mut failure, VerificationOutcome::Unavailable).is_none());
    assert!(record_cookie_outcome(&mut failure, VerificationOutcome::Invalid(InvalidTokenReason::Other)).is_none());
    assert!(matches!(cookie_failure_outcome(failure), VerificationOutcome::Unavailable));

    let mut failure = None;
    assert!(record_cookie_outcome(&mut failure, VerificationOutcome::Invalid(InvalidTokenReason::Expired)).is_none());
    assert!(record_cookie_outcome(&mut failure, VerificationOutcome::Invalid(InvalidTokenReason::Other)).is_none());
    assert!(matches!(
        cookie_failure_outcome(failure.clone()),
        VerificationOutcome::Invalid(InvalidTokenReason::Expired)
    ));
    let valid = record_cookie_outcome(&mut failure, VerificationOutcome::Valid(ClerkAuth::new("user_1", 1)));
    assert!(matches!(valid, Some(VerificationOutcome::Valid(_))));
}

/// Runs the cookie loop over given outcomes, as the request layer does.
fn run_cookie_loop(outcomes: Vec<VerificationOutcome>) -> (VerificationOutcome, usize) {
    let mut progress = CookieVerification::new();
    let mut consulted = 0;
    for outcome in outcomes {
        consulted += 1;
        if let Some(valid) = progress.record(outcome) {
            return (valid, consulted);
        }
    }
    (progress.finish(), consulted)
}

#[test]
fn first_valid_cookie_wins_and_stops_the_loop() {
    let (outcome, consulted) = run_cookie_loop(vec![
        VerificationOutcome::Invalid(InvalidTokenReason::Expired),
        VerificationOutcome::Valid(ClerkAuth::new("user_1", 1)),
        VerificationOutcome::Valid(ClerkAuth::new("user_2", 1)),
        VerificationOutcome::Unavailable,
    ]);
    assert_eq!(outcome, VerificationOutcome::Valid(ClerkAuth::new("user_1", 1)));
    assert_eq!(consulted, 2);
}

#[test]
fn cookie_loop_without_valid_cookie_ranks_failures() {
    let (outcome, consulted) = run_cookie_loop(vec![
        VerificationOutcome::Invalid(InvalidTokenReason::Expired),
        VerificationOutcome::Unavailable,
        VerificationOutcome::Invalid(InvalidTokenReason::Other),
    ]);
    assert_eq!(outcome, VerificationOutcome::Unavailable);
    assert_eq!(consulted, 3);
    let (outcome, _) = run_cookie_loop(vec![
        VerificationOutcome::Invalid(InvalidTokenReason::Other),
        VerificationOutcome::Invalid(InvalidTokenReason::Expired),
    ]);
    assert_eq!(outcome, VerificationOutcome::Invalid(InvalidTokenReason::Other));
    let (outcome, consulted) = run_cookie_loop(vec![]);
    assert_eq!(outcome, VerificationOutcome::Missing);
    assert_eq!(consulted, 0);
}
