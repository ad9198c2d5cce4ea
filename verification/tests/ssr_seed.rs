use dioxus_clerk::auth::{ClerkAuth, ClerkError, InvalidTokenReason, VerificationOutcome};
use dioxus_clerk::ssr::{
    provider_startup_from_read, InitialAuthSnapshot, InitialAuthStatus, InitialState, InitialStateRead,
};

fn signed_in_initial_state(publishable_key: Option<&str>) -> InitialState {
    let mut snapshot = InitialAuthSnapshot::signed_in("user_2abc");
    snapshot.session_id = Some("sess_2def".into());
    snapshot.org_id = Some("org_2ghi".into());
    snapshot.org_slug = Some("acme".into());
    snapshot.org_role = Some("admin".into());
    snapshot.org_permissions = vec!["org:read".into()];
    InitialState::new(snapshot, publishable_key)
}

fn sample_auth() -> ClerkAuth {
    let mut auth = ClerkAuth::new("user_2abc", 9_999_999_999);
    auth.session_id = Some("sess_2def".into());
    auth.org_id = Some("org_2ghi".into());
    auth.org_slug = Some("acme".into());
    auth.org_role = Some("admin".into());
    auth.org_permissions = vec!["org:read".into()];
    auth
}

#[test]
fn provider_startup_from_missing_initial_state_keeps_loading_auth_and_explicit_key_without_html() {
    let startup = provider_startup_from_read(InitialStateRead::Missing, Some("pk_test_prop".into()));

    assert!(startup.auth.to_state().is_loading());
    assert!(!startup.auth.to_state().is_signed_in());
    assert!(!startup.auth.should_render_signed_out());
    assert_eq!(startup.publishable_key.as_deref(), Some("pk_test_prop"));
    assert!(startup.warning.is_none());
    assert!(startup.initial_state_json.is_none());
}

#[test]
fn provider_startup_from_malformed_initial_state_surfaces_error_without_html() {
    let startup = provider_startup_from_read(
        InitialStateRead::Malformed("expected value at line 1 column 1".into()),
        Some("pk_test_prop".into()),
    );

    assert!(!startup.auth.to_state().is_signed_in());
    assert!(!startup.auth.should_render_signed_out());
    assert_eq!(startup.publishable_key.as_deref(), Some("pk_test_prop"));
    assert!(
        matches!(startup.warning, Some(ClerkError::InvalidConfig(message)) if message.contains("malformed SSR initial state"))
    );
    assert!(startup.initial_state_json.is_none());
}

#[test]
fn provider_startup_from_present_initial_state_uses_snapshot_auth_and_keeps_browser_unloaded() {
    let startup = provider_startup_from_read(
        InitialStateRead::Present(signed_in_initial_state(Some("pk_test_state"))),
        None,
    );

    let state = startup.auth.to_state();
    assert!(!state.is_loaded());
    assert!(state.is_signed_in());
    assert_eq!(state.user_id(), Some("user_2abc"));
    assert_eq!(state.session_id(), Some("sess_2def"));
    assert_eq!(state.org_id(), Some("org_2ghi"));
    assert_eq!(startup.publishable_key.as_deref(), Some("pk_test_state"));
    assert!(startup.warning.is_none());
    assert!(startup
        .initial_state_json
        .as_deref()
        .is_some_and(|json| json.contains("user_2abc")));
}

#[test]
fn provider_startup_prefers_explicit_key_and_surfaces_state_key_mismatch() {
    let startup = provider_startup_from_read(
        InitialStateRead::Present(signed_in_initial_state(Some("pk_test_state"))),
        Some("pk_test_prop".into()),
    );

    assert_eq!(startup.publishable_key.as_deref(), Some("pk_test_prop"));
    assert!(
        matches!(startup.warning, Some(ClerkError::InvalidConfig(message)) if message.contains("publishable key mismatch"))
    );
    assert!(startup.initial_state_json.is_some());
}

#[test]
fn initial_state_from_outcome_maps_verification_to_three_state_seed() {
    let cases = vec![
        // No auth layer ran: the client must resolve auth itself.
        (None, InitialAuthStatus::Unverified, None),
        // Verified non-sessions resolve to signed-out.
        (Some(VerificationOutcome::Missing), InitialAuthStatus::SignedOut, None),
        (
            Some(VerificationOutcome::Invalid(InvalidTokenReason::Other)),
            InitialAuthStatus::SignedOut,
            None,
        ),
        // Infrastructure outage: unknown, not signed-out.
        (Some(VerificationOutcome::Unavailable), InitialAuthStatus::Unverified, None),
        (
            Some(VerificationOutcome::Valid(sample_auth())),
            InitialAuthStatus::SignedIn,
            Some("user_2abc"),
        ),
    ];

    for (outcome, expected_status, expected_user_id) in cases {
        let initial_state = InitialState::from_outcome(outcome.as_ref(), Some("pk_test_state"));

        assert_eq!(initial_state.auth.status, expected_status);
        assert_eq!(initial_state.auth.user_id.as_deref(), expected_user_id);
        assert_eq!(initial_state.publishable_key.as_deref(), Some("pk_test_state"));
    }
}

#[test]
fn unverified_initial_state_seeds_loading_not_signed_out() {
    let initial_state = InitialState::from_outcome(None, Some("pk_test_state"));

    let startup = provider_startup_from_read(
        InitialStateRead::Present(initial_state),
        Some("pk_test_state".into()),
    );

    let state = startup.auth.to_state();
    assert!(state.is_loading());
    assert!(!state.is_signed_in());
    assert!(!startup.auth.should_render_signed_out());
    assert!(startup.warning.is_none());
}

#[test]
fn initial_state_from_empty_subject_is_signed_out_without_user_id() {
    let initial_state = InitialState::from_verified_auth(Some(&ClerkAuth::new("", 0)), None);

    assert!(!initial_state.auth.is_signed_in());
    assert_eq!(initial_state.auth.status, InitialAuthStatus::SignedOut);
    assert!(initial_state.auth.user_id.is_none());
    assert!(initial_state.auth.session_id.is_none());
}

#[test]
fn outcome_seed_preserves_auth_loadedness_and_key_conflict_error() {
    let initial_state = InitialState::from_outcome(
        Some(&VerificationOutcome::Valid(sample_auth())),
        Some("pk_test_state"),
    );

    let startup = provider_startup_from_read(
        InitialStateRead::Present(initial_state),
        Some("pk_test_prop".into()),
    );

    let state = startup.auth.to_state();
    assert!(!state.is_loaded());
    assert!(state.is_signed_in());
    assert_eq!(state.user_id(), Some("user_2abc"));
    assert_eq!(startup.publishable_key.as_deref(), Some("pk_test_prop"));
    assert!(
        matches!(startup.warning, Some(ClerkError::InvalidConfig(message)) if message.contains("publishable key mismatch"))
    );
    assert!(startup
        .initial_state_json
        .as_deref()
        .is_some_and(|json| json.contains("user_2abc")));
}

#[test]
fn provider_startup_from_valid_outcome_emits_signed_in_initial_auth_snapshot() {
    let outcome = VerificationOutcome::Valid(sample_auth());

    let startup = provider_startup_from_read(
        InitialStateRead::Present(InitialState::from_outcome(Some(&outcome), Some("pk_test_prop"))),
        Some("pk_test_prop".into()),
    );

    let state = startup.auth.to_state();
    assert!(!state.is_loaded());
    assert!(state.is_signed_in());
    assert_eq!(state.user_id(), Some("user_2abc"));
    assert_eq!(startup.publishable_key.as_deref(), Some("pk_test_prop"));
    assert!(startup.warning.is_none());
    assert!(startup
        .initial_state_json
        .as_deref()
        .is_some_and(|json| json.contains("user_2abc")));
}

#[test]
fn provider_startup_from_invalid_outcome_is_anonymous() {
    let startup = provider_startup_from_read(
        InitialStateRead::Present(InitialState::from_outcome(
            Some(&VerificationOutcome::Invalid(InvalidTokenReason::Other)),
            Some("pk_test_prop"),
        )),
        Some("pk_test_prop".into()),
    );

    let state = startup.auth.to_state();
    assert!(!state.is_loaded());
    assert!(!state.is_signed_in());
    assert!(state.user_id().is_none());
    assert_eq!(startup.publishable_key.as_deref(), Some("pk_test_prop"));
    assert!(startup.warning.is_none());
    assert!(startup.initial_state_json.is_some());
}

#[test]
fn unknown_initial_auth_status_degrades_to_unverified_instead_of_failing_the_parse() {
    let status = InitialAuthStatus::from_wire("passkey_pending");
    assert_eq!(status, InitialAuthStatus::Unverified);

    let mut snapshot = InitialAuthSnapshot::unverified();
    snapshot.status = status;
    snapshot.user_id = Some("user_2abc".into());
    let decoded = InitialState::new(snapshot, Some("pk_test"));
    let startup = provider_startup_from_read(InitialStateRead::Present(decoded), None);
    assert!(startup.auth.to_state().is_loading());
    assert!(startup.warning.is_none());
}

#[test]
fn script_html_escapes_every_angle_bracket_in_string_fields() {
    let mut snapshot = InitialAuthSnapshot::signed_in("user_2abc");
    snapshot.org_slug = Some("</script><script>alert(1)</script>".into());
    snapshot.org_role = Some("<!--<script>".into());
    let initial_state = InitialState::new(snapshot, Some("pk_test"));

    let html = initial_state.script_html();
    let open_end = html.find('>').expect("opening script tag");
    let close_start = html.rfind("</script>").expect("closing script tag");
    let body = &html[open_end + 1..close_start];

    assert!(!body.contains('<'));
    assert!(!body.contains("<!--"));

    let decoded: serde_json::Value = serde_json::from_str(body).expect("body is valid JSON");
    assert_eq!(
        decoded["auth"]["org_slug"].as_str(),
        Some("</script><script>alert(1)</script>")
    );
    assert_eq!(decoded["auth"]["org_role"].as_str(), Some("<!--<script>"));
}

#[test]
fn initial_state_json_has_the_canonical_field_layout() {
    let state = signed_in_initial_state(Some("pk_test"));
    let json: serde_json::Value = serde_json::from_str(&state.script_json()).expect("seed is JSON");

    assert_eq!(json["auth"]["status"].as_str(), Some("signed_in"));
    assert_eq!(json["auth"]["user_id"].as_str(), Some("user_2abc"));
    assert_eq!(json["auth"]["session_id"].as_str(), Some("sess_2def"));
    assert_eq!(json["auth"]["org_permissions"][0].as_str(), Some("org:read"));
    assert_eq!(json["publishable_key"].as_str(), Some("pk_test"));

    let bare = InitialState::new(InitialAuthSnapshot::signed_out(), None);
    let json: serde_json::Value = serde_json::from_str(&bare.script_json()).expect("seed is JSON");
    assert_eq!(json["auth"]["status"].as_str(), Some("signed_out"));
    assert!(json["auth"]["user_id"].is_null());
    assert!(json["publishable_key"].is_null());
}

/// Reads an SSR seed script body back with serde_json, as the browser's
/// initial-state reader does.
fn decode_seed(json: &str) -> InitialState {
    let value: serde_json::Value = serde_json::from_str(json).expect("SSR seed script body is JSON");
    let auth = &value["auth"];
    let text = |field: &serde_json::Value| field.as_str().map(String::from);
    let mut snapshot = InitialAuthSnapshot::unverified();
    snapshot.status = InitialAuthStatus::from_wire(auth["status"].as_str().unwrap_or_default());
    snapshot.user_id = text(&auth["user_id"]);
    snapshot.session_id = text(&auth["session_id"]);
    snapshot.org_id = text(&auth["org_id"]);
    snapshot.org_slug = text(&auth["org_slug"]);
    snapshot.org_role = text(&auth["org_role"]);
    snapshot.org_permissions = auth["org_permissions"]
        .as_array()
        .map(|items| items.iter().filter_map(|item| item.as_str().map(String::from)).collect())
        .unwrap_or_default();
    InitialState::new(snapshot, value["publishable_key"].as_str())
}

#[test]
fn ssr_seed_round_trip_keeps_server_facts_without_browser_loadedness() {
    let outcome = VerificationOutcome::Valid(sample_auth());
    let server_startup = provider_startup_from_read(
        InitialStateRead::Present(InitialState::from_outcome(Some(&outcome), Some("pk_test"))),
        Some("pk_test".into()),
    );
    let json = server_startup.initial_state_json.as_deref().expect("server startup emits SSR seed JSON");
    let decoded = decode_seed(json);

    let browser_startup = provider_startup_from_read(InitialStateRead::Present(decoded), None);

    let state = browser_startup.auth.to_state();
    assert!(!state.is_loaded());
    assert!(state.is_signed_in());
    assert_eq!(state.user_id(), Some("user_2abc"));
    assert_eq!(state.org_role(), Some("admin"));
    assert_eq!(browser_startup.publishable_key.as_deref(), Some("pk_test"));
}

#[test]
fn script_json_escapes_quotes_backslashes_and_control_characters() {
    let mut snapshot = InitialAuthSnapshot::signed_out();
    snapshot.org_slug = Some("a\"b\\c\nd\te\u{1}f\u{1f}é".into());
    let state = InitialState::new(snapshot, None);
    assert_eq!(
        state.script_json(),
        "{\"auth\":{\"status\":\"signed_out\",\"user_id\":null,\"session_id\":null,\"org_id\":null,\
         \"org_slug\":\"a\\\"b\\\\c\\nd\\te\\u0001f\\u001fé\",\"org_role\":null,\"org_permissions\":[]},\
         \"publishable_key\":null}"
    );
}
