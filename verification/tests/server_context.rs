use std::time::Duration;

use dioxus_clerk::auth::{ClerkAuth, ClerkError, InvalidTokenReason, VerificationOutcome};
use dioxus_clerk::options::{AuthButtonMode, Routing, UserProfileMode};
use dioxus_clerk::server::config::{verifier_settings, ClerkAuthLayerConfig};
use dioxus_clerk::server::context::{clerk_error_status, current_auth, current_auth_opt};
use dioxus_clerk::server::extractor::{extract_auth, extract_optional_auth, AuthRejection};
use dioxus_clerk::server::ssr::{
    initial_state, initial_state_from_current_context, initial_state_script,
    provider_startup_from_current_context,
};
use dioxus_clerk::server::verification::{forwards_request, VerificationFailure};
use dioxus_clerk::ssr::InitialAuthStatus;

fn sample_auth() -> ClerkAuth {
    let mut auth = ClerkAuth::new("user_2abc", 1_700_000_000);
    auth.session_id = Some("sess_2def".into());
    auth.nbf = 1_699_999_000;
    auth.iat = 1_699_999_000;
    auth
}

#[test]
fn current_auth_maps_every_outcome() {
    assert_eq!(current_auth(Err(ClerkError::NoServerContext)), Err(ClerkError::NoServerContext));
    assert_eq!(current_auth(Ok(None)), Err(ClerkError::Unauthenticated));
    assert_eq!(current_auth(Ok(Some(VerificationOutcome::Missing))), Err(ClerkError::Unauthenticated));
    assert_eq!(
        current_auth(Ok(Some(VerificationOutcome::Invalid(InvalidTokenReason::Expired)))),
        Err(ClerkError::TokenExpired)
    );
    assert_eq!(
        current_auth(Ok(Some(VerificationOutcome::Invalid(InvalidTokenReason::NotYetValid)))),
        Err(ClerkError::Unauthenticated)
    );
    assert_eq!(
        current_auth(Ok(Some(VerificationOutcome::Unavailable))),
        Err(ClerkError::JwksUnavailable(
            "verification infrastructure was unavailable for this request".into()
        ))
    );
    let auth = current_auth(Ok(Some(VerificationOutcome::Valid(sample_auth())))).unwrap();
    assert_eq!(auth.user_id, "user_2abc");
}

#[test]
fn current_auth_opt_is_anonymous_except_when_unavailable() {
    assert_eq!(current_auth_opt(Err(ClerkError::NoServerContext)), Err(ClerkError::NoServerContext));
    assert_eq!(current_auth_opt(Ok(None)), Ok(None));
    assert_eq!(current_auth_opt(Ok(Some(VerificationOutcome::Missing))), Ok(None));
    assert_eq!(
        current_auth_opt(Ok(Some(VerificationOutcome::Invalid(InvalidTokenReason::Other)))),
        Ok(None)
    );
    assert!(matches!(
        current_auth_opt(Ok(Some(VerificationOutcome::Unavailable))),
        Err(ClerkError::JwksUnavailable(_))
    ));
    assert!(matches!(
        current_auth_opt(Ok(Some(VerificationOutcome::Valid(sample_auth())))),
        Ok(Some(_))
    ));
}

#[test]
fn server_function_errors_carry_http_statuses() {
    assert_eq!(clerk_error_status(&ClerkError::Unauthenticated), 401);
    assert_eq!(clerk_error_status(&ClerkError::TokenExpired), 401);
    assert_eq!(clerk_error_status(&ClerkError::JwksUnavailable("x".into())), 503);
    assert_eq!(clerk_error_status(&ClerkError::NoServerContext), 500);
}

#[test]
fn extractors_fail_closed_on_unavailable() {
    assert!(extract_auth(Some(&VerificationOutcome::Valid(sample_auth()))).is_ok());
    assert_eq!(
        extract_auth(Some(&VerificationOutcome::Invalid(InvalidTokenReason::Other))).err(),
        Some(AuthRejection::Invalid)
    );
    assert_eq!(extract_auth(Some(&VerificationOutcome::Unavailable)).err(), Some(AuthRejection::Unavailable));
    assert_eq!(extract_auth(Some(&VerificationOutcome::Missing)).err(), Some(AuthRejection::Missing));
    assert_eq!(extract_auth(None).err(), Some(AuthRejection::Missing));

    assert!(matches!(extract_optional_auth(Some(&VerificationOutcome::Valid(sample_auth()))), Ok(Some(_))));
    assert_eq!(extract_optional_auth(Some(&VerificationOutcome::Missing)), Ok(None));
    assert_eq!(
        extract_optional_auth(Some(&VerificationOutcome::Invalid(InvalidTokenReason::Other))),
        Ok(None)
    );
    assert_eq!(extract_optional_auth(None), Ok(None));
    assert_eq!(
        extract_optional_auth(Some(&VerificationOutcome::Unavailable)),
        Err(AuthRejection::Unavailable)
    );
}

#[test]
fn rejections_have_statuses_and_messages() {
    assert_eq!(AuthRejection::Missing.status_code(), 401);
    assert_eq!(AuthRejection::Invalid.status_code(), 401);
    assert_eq!(AuthRejection::Unavailable.status_code(), 503);
    assert_eq!(AuthRejection::Missing.message(), "unauthenticated");
    assert_eq!(AuthRejection::Invalid.message(), "invalid Clerk credentials");
    assert_eq!(AuthRejection::Unavailable.message(), "Clerk verification unavailable");
}

#[test]
fn unavailable_outcome_fails_closed_without_forwarding() {
    assert!(!forwards_request(&VerificationOutcome::Unavailable));
    assert!(forwards_request(&VerificationOutcome::Missing));
    assert!(forwards_request(&VerificationOutcome::Invalid(InvalidTokenReason::Other)));
    assert!(forwards_request(&VerificationOutcome::Valid(sample_auth())));
    assert!(matches!(
        VerificationOutcome::from(VerificationFailure::Unavailable),
        VerificationOutcome::Unavailable
    ));
    assert!(matches!(
        VerificationOutcome::from(VerificationFailure::invalid()),
        VerificationOutcome::Invalid(InvalidTokenReason::Other)
    ));
}

#[test]
fn ssr_helpers_seed_from_the_current_outcome() {
    let state = initial_state(Some(&VerificationOutcome::Valid(sample_auth())), Some("pk_test_xxx"));
    assert_eq!(state.auth.status, InitialAuthStatus::SignedIn);
    assert_eq!(state.auth.user_id.as_deref(), Some("user_2abc"));

    let state = initial_state_from_current_context(Some(VerificationOutcome::Unavailable), None);
    assert_eq!(state.auth.status, InitialAuthStatus::Unverified);

    let html = initial_state_script(Some(&VerificationOutcome::Missing), Some("pk_test_xxx"));
    assert!(html.starts_with("<script id=\"__clerk_initial_state\" type=\"application/json\">"));
    assert!(html.contains("signed_out"));
    assert!(html.ends_with("</script>"));
}

#[test]
fn provider_startup_from_current_context_uses_valid_outcome() {
    let startup = provider_startup_from_current_context(
        Some(VerificationOutcome::Valid(sample_auth())),
        Some("pk_test_xxx".into()),
    );

    let state = startup.auth.to_state();
    assert!(!state.is_loaded());
    assert!(state.is_signed_in());
    assert_eq!(state.user_id(), Some("user_2abc"));
    assert_eq!(startup.publishable_key.as_deref(), Some("pk_test_xxx"));
    assert!(startup.warning.is_none());
    assert!(startup.initial_state_json.as_deref().is_some_and(|json| json.contains("user_2abc")));
}

#[test]
fn provider_startup_from_current_context_ignores_stale_raw_auth() {
    // Only the request's verification outcome counts: an invalid outcome
    // seeds signed-out state whatever raw auth the request also carried.
    let startup = provider_startup_from_current_context(
        Some(VerificationOutcome::Invalid(InvalidTokenReason::Other)),
        Some("pk_test_xxx".into()),
    );

    let state = startup.auth.to_state();
    assert!(!state.is_loaded());
    assert!(!state.is_signed_in());
    assert!(state.user_id().is_none());
    assert_eq!(startup.publishable_key.as_deref(), Some("pk_test_xxx"));
    assert!(startup.warning.is_none());
    assert!(startup.initial_state_json.is_some());
}

#[test]
fn config_builders_and_jwks_endpoint() {
    let config = ClerkAuthLayerConfig::new("sk_test_123")
        .add_authorized_party("https://example.com")
        .with_audiences(&["aud-1", "aud-2"])
        .add_issuer("https://clerk.example.com")
        .with_clock_skew(Duration::from_secs(30))
        .allow_non_session_tokens();
    assert_eq!(config.backend_api_base_url, "https://api.clerk.com/v1");
    assert_eq!(config.authorized_parties, vec!["https://example.com".to_string()]);
    assert_eq!(config.audiences, vec!["aud-1".to_string(), "aud-2".to_string()]);
    assert_eq!(config.issuers, vec!["https://clerk.example.com".to_string()]);
    assert_eq!(config.clock_skew, Duration::from_secs(30));
    assert!(!config.require_session_id);
    assert_eq!(config.jwks_url().unwrap().as_str(), "https://api.clerk.com/v1/jwks");

    let config = ClerkAuthLayerConfig::new("sk").with_backend_api_base_url("https://api.example.com/v1//");
    assert_eq!(config.jwks_url().unwrap().as_str(), "https://api.example.com/v1/jwks");
    assert_eq!(ClerkAuthLayerConfig::new("sk").clock_skew, Duration::from_secs(5));
}

#[test]
fn plain_http_base_url_needs_explicit_opt_in() {
    let insecure = ClerkAuthLayerConfig::new("sk").with_backend_api_base_url("http://localhost:1234");
    assert!(matches!(insecure.jwks_url(), Err(ClerkError::InvalidConfig(m)) if m.contains("must use https")));
    let allowed = ClerkAuthLayerConfig::new("sk").with_insecure_backend_api_base_url("http://localhost:1234");
    assert_eq!(allowed.jwks_url().unwrap().as_str(), "http://localhost:1234/jwks");
    let garbage = ClerkAuthLayerConfig::new("sk").with_backend_api_base_url("not a url");
    assert!(matches!(
        garbage.jwks_url(),
        Err(ClerkError::InvalidConfig(m)) if m.starts_with("invalid Clerk Backend API base URL: ")
    ));
}

#[test]
fn verifier_settings_require_a_secret_key() {
    assert!(matches!(
        verifier_settings(ClerkAuthLayerConfig::new("")),
        Err(ClerkError::InvalidConfig(m)) if m == "Clerk secret key must not be empty"
    ));
    let settings = verifier_settings(ClerkAuthLayerConfig::new("sk_test_unused")).unwrap();
    assert_eq!(settings.secret_key, "sk_test_unused");
    assert!(settings.profile.require_session_id);
}

#[test]
fn option_strings_match_clerk_js() {
    assert_eq!(Routing::Hash.as_str(), "hash");
    assert_eq!(Routing::Path.as_str(), "path");
    assert_eq!(UserProfileMode::Modal.as_str(), "modal");
    assert_eq!(UserProfileMode::Navigation.as_str(), "navigation");
    assert_eq!(AuthButtonMode::default(), AuthButtonMode::Redirect);
}

#[test]
fn config_from_env_value_requires_the_secret_key() {
    let Ok(config) = ClerkAuthLayerConfig::from_env_value(Some("sk_test_env")) else {
        panic!("a present secret key must build a config");
    };
    assert_eq!(config.secret_key, "sk_test_env");
    assert_eq!(config.backend_api_base_url, "https://api.clerk.com/v1");
    assert!(config.require_session_id);
    match ClerkAuthLayerConfig::from_env_value(None) {
        Err(error) => {
            assert_eq!(error, ClerkError::InvalidConfig("missing CLERK_SECRET_KEY environment variable".into()))
        }
        Ok(_) => panic!("a missing secret key must be an error"),
    }
}

#[test]
fn default_config_allows_five_seconds_of_clock_skew() {
    let config = ClerkAuthLayerConfig::new("sk_test");
    assert_eq!(config.clock_skew, Duration::from_secs(5));
    let settings = verifier_settings(config).ok().expect("a default config is valid");
    assert_eq!(settings.jwks_url.as_str(), "https://api.clerk.com/v1/jwks");
    assert_eq!(settings.profile.verification_options("kid").time_tolerance_ms, 5_000);
}
