use dioxus_clerk::auth::session::{Session, SessionStatus, SessionTask, SessionTaskKey, User};
use dioxus_clerk::auth::state::{AuthObservation, AuthRuntimeState};
use dioxus_clerk::auth::{AuthState, AuthStatus, ClerkAuth};
use dioxus_clerk::ssr::{InitialAuthSnapshot, InitialAuthStatus};

fn snapshot(
    status: InitialAuthStatus,
    user_id: Option<&str>,
    session_id: Option<&str>,
    org_id: Option<&str>,
    org_slug: Option<&str>,
    org_role: Option<&str>,
    org_permissions: &[&str],
) -> InitialAuthSnapshot {
    let mut snapshot = InitialAuthSnapshot::unverified();
    snapshot.status = status;
    snapshot.user_id = user_id.map(String::from);
    snapshot.session_id = session_id.map(String::from);
    snapshot.org_id = org_id.map(String::from);
    snapshot.org_slug = org_slug.map(String::from);
    snapshot.org_role = org_role.map(String::from);
    snapshot.org_permissions = org_permissions.iter().map(|p| p.to_string()).collect();
    snapshot
}

fn signed_in_initial_auth_snapshot() -> InitialAuthSnapshot {
    snapshot(
        InitialAuthStatus::SignedIn,
        Some("user_2abc"),
        Some("sess_2def"),
        Some("org_2ghi"),
        Some("acme"),
        None,
        &[],
    )
}

fn signed_out_initial_auth_snapshot() -> InitialAuthSnapshot {
    InitialAuthSnapshot::signed_out()
}

fn signed_in_snapshot_state() -> AuthRuntimeState {
    AuthRuntimeState::from_initial_auth_snapshot(&signed_in_initial_auth_snapshot())
}

fn signed_in_state() -> AuthRuntimeState {
    let previous = signed_in_snapshot_state();
    AuthRuntimeState::from_js_session(
        sample_user("user_2abc"),
        sample_session_in_org("sess_2def", Some("org_2ghi")),
        &previous,
    )
}

fn sample_user(id: &str) -> User {
    User::new(id)
}

fn sample_session(id: &str) -> Session {
    sample_session_in_org(id, None)
}

fn pending_session_with_task(id: &str, key: SessionTaskKey) -> Session {
    let mut session = sample_session(id);
    session.status = SessionStatus::Pending;
    session.current_task = Some(SessionTask::new(key.clone()));
    session.tasks = vec![SessionTask::new(key)];
    session
}

fn sample_session_in_org(id: &str, org_id: Option<&str>) -> Session {
    let mut session = Session::new(id, SessionStatus::from_text("active"));
    session.last_active_organization_id = org_id.map(String::from);
    session
}

#[test]
fn auth_state_default_is_loading() {
    let state = AuthRuntimeState::default();
    assert!(!state.is_loaded());
    assert_eq!(state.to_state().status(), AuthStatus::Loading);
    assert!(!state.to_state().is_signed_in());
}

#[test]
fn signed_out_initial_auth_snapshot_is_resolved_even_before_browser_loadedness() {
    let state = AuthRuntimeState::from_initial_auth_snapshot(&signed_out_initial_auth_snapshot());
    let snapshot = state.to_state();

    assert!(!snapshot.is_loaded());
    assert_eq!(snapshot.status(), AuthStatus::SignedOut);
    assert!(snapshot.is_signed_out());
}

#[test]
fn signed_in_snapshot_converts_back_to_auth_snapshot_before_clerk_js_loads() {
    let state = signed_in_snapshot_state();

    let snapshot = state.to_state();

    assert!(!snapshot.is_loaded());
    assert!(snapshot.is_signed_in());
    assert_eq!(snapshot.user_id(), Some("user_2abc"));
    assert_eq!(snapshot.session_id(), Some("sess_2def"));
    assert_eq!(snapshot.org_id(), Some("org_2ghi"));
}

#[test]
fn auth_state_carries_loadedness_into_snapshot_without_external_signal() {
    let state = AuthRuntimeState::from_initial_auth_snapshot(&snapshot(
        InitialAuthStatus::SignedIn,
        Some("user_2abc"),
        Some("sess_2def"),
        Some("org_2ghi"),
        Some("acme"),
        None,
        &[],
    ));

    assert!(!state.is_loaded());
    assert!(!state.to_state().is_loaded());
    assert!(state.to_state().is_signed_in());

    let mut session = Session::new("sess_2def", SessionStatus::from_text("active"));
    session.last_active_organization_id = Some("org_2ghi".into());
    let loaded = state.apply_loaded_observation(AuthObservation::SignedIn {
        user: User::new("user_2abc"),
        session,
    });

    assert!(loaded.is_loaded());
    assert!(loaded.to_state().is_loaded());
    assert!(loaded.to_state().is_signed_in());
    assert_eq!(loaded.to_state().org_id(), Some("org_2ghi"));
}

#[test]
fn loaded_signed_out_observation_marks_auth_state_loaded() {
    let loaded = AuthRuntimeState::loading().apply_loaded_observation(AuthObservation::SignedOut);

    assert!(loaded.is_loaded());
    assert!(!loaded.to_state().is_signed_in());
    assert!(loaded.should_render_signed_out());
}

#[test]
fn signed_in_full_state_converts_to_snapshot_with_org_id() {
    let state = signed_in_state();

    let snapshot = state.to_state();

    assert!(snapshot.is_loaded());
    assert!(snapshot.is_signed_in());
    assert_eq!(snapshot.user_id(), Some("user_2abc"));
    assert_eq!(snapshot.session_id(), Some("sess_2def"));
    assert_eq!(snapshot.org_id(), Some("org_2ghi"));
}

#[test]
fn malformed_signed_in_snapshot_without_user_id_stays_loading() {
    let snapshot = snapshot(
        InitialAuthStatus::SignedIn,
        None,
        Some("sess_2def"),
        None,
        None,
        None,
        &[],
    );

    let state = AuthRuntimeState::from_initial_auth_snapshot(&snapshot);

    assert!(!state.is_loaded());
    assert!(!state.to_state().is_signed_in());
}

#[test]
fn malformed_signed_in_snapshot_with_empty_user_id_stays_loading() {
    let snapshot = snapshot(
        InitialAuthStatus::SignedIn,
        Some(""),
        Some("sess_2def"),
        None,
        None,
        None,
        &[],
    );

    let state = AuthRuntimeState::from_initial_auth_snapshot(&snapshot);

    assert!(!state.is_loaded());
    assert_eq!(state.to_state().status(), AuthStatus::Loading);
}

#[test]
fn unverified_snapshot_stays_loading_so_signed_in_users_never_flash_signed_out() {
    let snapshot = snapshot(InitialAuthStatus::Unverified, None, None, None, None, None, &[]);

    let state = AuthRuntimeState::from_initial_auth_snapshot(&snapshot);

    assert!(!state.is_loaded());
    assert_eq!(state.to_state().status(), AuthStatus::Loading);
    assert!(!state.to_state().is_signed_out());
}

#[test]
fn full_js_state_preserves_org_id_from_signed_in_snapshot() {
    let previous = signed_in_snapshot_state();

    let state = AuthRuntimeState::from_js_session(
        sample_user("user_2abc"),
        sample_session_in_org("sess_2def", Some("org_2ghi")),
        &previous,
    );

    assert_eq!(state.to_state().org_id(), Some("org_2ghi"));
}

#[test]
fn full_js_state_preserves_verified_claims_from_previous_matching_full_signed_in_state() {
    let previous = signed_in_state();

    let state = AuthRuntimeState::from_js_session(
        sample_user("user_2abc"),
        sample_session_in_org("sess_2def", Some("org_2ghi")),
        &previous,
    );

    assert_eq!(state.to_state().org_id(), Some("org_2ghi"));
}

fn admin_snapshot_state(session_id: Option<&str>) -> AuthRuntimeState {
    AuthRuntimeState::from_initial_auth_snapshot(&snapshot(
        InitialAuthStatus::SignedIn,
        Some("user_2abc"),
        session_id,
        Some("org_2ghi"),
        Some("acme"),
        Some("admin"),
        &["org:read"],
    ))
}

#[test]
fn full_js_state_drops_org_claims_when_active_organization_changes() {
    let previous = admin_snapshot_state(Some("sess_2def"));

    // clerk-js setActive({ organization }) switches org without a new session.
    let state = AuthRuntimeState::from_js_session(
        sample_user("user_2abc"),
        sample_session_in_org("sess_2def", Some("org_other")),
        &previous,
    );

    let snapshot = state.to_state();
    assert_eq!(snapshot.org_id(), None);
    assert_eq!(snapshot.org_role(), None);
    assert!(snapshot.org_permissions().is_empty());
    assert!(!state.allows_signed_in_gate(Some("admin"), None));
}

#[test]
fn full_js_state_drops_org_claims_when_session_leaves_organization() {
    let previous = admin_snapshot_state(Some("sess_2def"));

    let state = AuthRuntimeState::from_js_session(
        sample_user("user_2abc"),
        sample_session("sess_2def"),
        &previous,
    );

    let snapshot = state.to_state();
    assert_eq!(snapshot.org_id(), None);
    assert!(!state.allows_signed_in_gate(None, Some("org:read")));
}

#[test]
fn full_js_state_drops_snapshot_org_id_when_user_changes() {
    let previous = AuthRuntimeState::from_initial_auth_snapshot(&snapshot(
        InitialAuthStatus::SignedIn,
        Some("user_old"),
        Some("sess_2def"),
        Some("org_stale"),
        Some("stale"),
        None,
        &[],
    ));

    let state = AuthRuntimeState::from_js_session(
        sample_user("user_new"),
        sample_session("sess_2def"),
        &previous,
    );

    assert_eq!(state.to_state().org_id(), None);
}

#[test]
fn full_js_state_drops_snapshot_org_id_when_session_changes() {
    let previous = AuthRuntimeState::from_initial_auth_snapshot(&snapshot(
        InitialAuthStatus::SignedIn,
        Some("user_2abc"),
        Some("sess_old"),
        Some("org_stale"),
        Some("stale"),
        None,
        &[],
    ));

    let state = AuthRuntimeState::from_js_session(
        sample_user("user_2abc"),
        sample_session("sess_new"),
        &previous,
    );

    assert_eq!(state.to_state().org_id(), None);
}

#[test]
fn signed_in_observation_preserves_matching_snapshot_org_id() {
    let previous = signed_in_snapshot_state();

    let next = previous.apply_observation(AuthObservation::SignedIn {
        user: sample_user("user_2abc"),
        session: sample_session_in_org("sess_2def", Some("org_2ghi")),
    });

    assert_eq!(next.to_state().org_id(), Some("org_2ghi"));
}

#[test]
fn signed_out_observation_replaces_previous_signed_in_state() {
    let previous = signed_in_snapshot_state();

    let next = previous.apply_observation(AuthObservation::SignedOut);

    assert!(!next.is_loaded());
    assert!(!next.to_state().is_signed_in());
    assert!(next.should_render_signed_out());
}

#[test]
fn loaded_loading_observation_preserves_signed_in_snapshot() {
    let previous = signed_in_snapshot_state();

    let next = previous.apply_loaded_observation(AuthObservation::Loading);
    let snapshot = next.to_state();

    assert!(next.is_loaded());
    assert!(snapshot.is_signed_in());
    assert_eq!(snapshot.user_id(), Some("user_2abc"));
    assert!(next.should_render_signed_in());
    assert!(!next.should_render_signed_out());
}

#[test]
fn loaded_loading_observation_preserves_full_signed_in_state() {
    let previous = signed_in_state();

    let next = previous.apply_loaded_observation(AuthObservation::Loading);
    let snapshot = next.to_state();

    assert!(next.is_loaded());
    assert!(snapshot.is_signed_in());
    assert_eq!(snapshot.user_id(), Some("user_2abc"));
    assert!(next.user().is_some());
    assert!(next.session().is_some());
    assert!(next.should_render_signed_in());
    assert!(!next.should_render_signed_out());
}

#[test]
fn loading_observation_replaces_previous_state_with_loading() {
    let previous =
        AuthRuntimeState::from_initial_auth_snapshot(&signed_out_initial_auth_snapshot());

    let next = previous.apply_observation(AuthObservation::Loading);

    assert!(!next.is_loaded());
    assert!(!next.to_state().is_signed_in());
    assert!(!next.should_render_signed_in());
    assert!(!next.should_render_signed_out());
}

#[test]
fn signed_in_gate_allows_plain_snapshot_and_full_state() {
    let snapshot = AuthRuntimeState::from_initial_auth_snapshot(&snapshot(
        InitialAuthStatus::SignedIn,
        Some("user_2abc"),
        Some("sess_2def"),
        None,
        None,
        None,
        &[],
    ));
    let full = AuthRuntimeState::from_js_session(
        sample_user("user_2abc"),
        sample_session("sess_2def"),
        &snapshot,
    );

    assert!(snapshot.allows_signed_in_gate(None, None));
    assert!(full.allows_signed_in_gate(None, None));
    assert!(
        !AuthRuntimeState::from_initial_auth_snapshot(&signed_out_initial_auth_snapshot())
            .allows_signed_in_gate(None, None)
    );
    assert!(!AuthRuntimeState::loading().allows_signed_in_gate(None, None));
}

#[test]
fn signed_in_gate_denies_role_or_permission_when_snapshot_has_no_claims() {
    let state = AuthRuntimeState::from_initial_auth_snapshot(&snapshot(
        InitialAuthStatus::SignedIn,
        Some("user_2abc"),
        Some("sess_2def"),
        None,
        None,
        None,
        &[],
    ));

    assert!(!state.allows_signed_in_gate(Some("admin"), None));
    assert!(!state.allows_signed_in_gate(None, Some("org:read")));
    assert!(!state.allows_signed_in_gate(Some("admin"), Some("org:read")));
}

#[test]
fn signed_in_gate_allows_matching_server_verified_role_and_permission() {
    let state = AuthRuntimeState::from_initial_auth_snapshot(&snapshot(
        InitialAuthStatus::SignedIn,
        Some("user_2abc"),
        Some("sess_2def"),
        Some("org_2ghi"),
        Some("acme"),
        Some("admin"),
        &["org:read", "org:write"],
    ));

    assert!(state.allows_signed_in_gate(Some("admin"), None));
    assert!(state.allows_signed_in_gate(None, Some("org:read")));
    assert!(state.allows_signed_in_gate(Some("admin"), Some("org:write")));
}

#[test]
fn signed_in_gate_denies_mismatched_server_verified_role_or_permission() {
    let state = admin_snapshot_state(Some("sess_2def"));

    assert!(!state.allows_signed_in_gate(Some("basic_member"), None));
    assert!(!state.allows_signed_in_gate(None, Some("org:delete")));
    assert!(!state.allows_signed_in_gate(Some("admin"), Some("org:delete")));
}

#[test]
fn signed_in_gate_prefers_permission_over_role_when_both_are_requested() {
    let state = admin_snapshot_state(Some("sess_2def"));

    // A mismatched role is ignored when a permission gate is requested
    // alongside it.
    assert!(state.allows_signed_in_gate(Some("basic_member"), Some("org:read")));
    assert!(!state.allows_signed_in_gate(Some("admin"), Some("org:delete")));
}

#[test]
fn signed_in_gate_preserves_server_verified_claims_after_matching_js_session() {
    let snapshot = admin_snapshot_state(Some("sess_2def"));
    let full = AuthRuntimeState::from_js_session(
        sample_user("user_2abc"),
        sample_session_in_org("sess_2def", Some("org_2ghi")),
        &snapshot,
    );

    assert!(full.allows_signed_in_gate(Some("admin"), Some("org:read")));
}

#[test]
fn signed_in_gate_drops_server_verified_claims_when_snapshot_session_is_missing() {
    let snapshot = admin_snapshot_state(None);

    let full = AuthRuntimeState::from_js_session(
        sample_user("user_2abc"),
        sample_session("sess_from_js"),
        &snapshot,
    );

    let full_snapshot = full.to_state();
    assert_eq!(full_snapshot.org_id(), None);
    assert_eq!(full_snapshot.org_role(), None);
    assert!(full_snapshot.org_permissions().is_empty());
    assert!(!full.allows_signed_in_gate(Some("admin"), Some("org:read")));
}

#[test]
fn signed_in_gate_preserves_server_verified_claims_after_repeated_matching_js_sessions() {
    let snapshot = admin_snapshot_state(Some("sess_2def"));
    let hydrated = snapshot.apply_observation(AuthObservation::SignedIn {
        user: sample_user("user_2abc"),
        session: sample_session_in_org("sess_2def", Some("org_2ghi")),
    });

    let updated = hydrated.apply_observation(AuthObservation::SignedIn {
        user: sample_user("user_2abc"),
        session: sample_session_in_org("sess_2def", Some("org_2ghi")),
    });

    let updated_snapshot = updated.to_state();
    assert!(updated.allows_signed_in_gate(Some("admin"), Some("org:read")));
    assert_eq!(updated_snapshot.org_id(), Some("org_2ghi"));
    assert_eq!(updated_snapshot.org_role(), Some("admin"));
    assert_eq!(updated_snapshot.org_permissions(), ["org:read"]);
}

#[test]
fn signed_in_gate_denies_role_or_permission_without_server_verified_claims() {
    let state = AuthRuntimeState::from_js_session(
        sample_user("user_2abc"),
        sample_session("sess_2def"),
        &AuthRuntimeState::loading(),
    );

    assert!(state.allows_signed_in_gate(None, None));
    assert!(!state.allows_signed_in_gate(Some("admin"), None));
    assert!(!state.allows_signed_in_gate(None, Some("org:read")));
}

#[test]
fn pending_session_gates_as_signed_out_but_exposes_current_task() {
    let previous = signed_in_snapshot_state();
    let session = pending_session_with_task("sess_2def", SessionTaskKey::SetupMfa);

    let next = previous.apply_loaded_observation(AuthObservation::Pending {
        user: sample_user("user_2abc"),
        session: session.clone(),
    });

    // Treated as signed-out for gating, matching clerk-js's
    // `treatPendingAsSignedOut: true` default.
    assert!(!next.should_render_signed_in());
    assert!(next.should_render_signed_out());
    assert!(!next.allows_signed_in_gate(None, None));
    assert_eq!(next.to_state().status(), AuthStatus::SignedOut);
    assert!(!next.to_state().is_signed_in());

    // But the pending session and its current task are available for routing.
    assert!(next.is_loaded());
    assert_eq!(next.session(), Some(&session));
    assert_eq!(
        next.session()
            .and_then(|s| s.current_task.as_ref())
            .map(|task| &task.key),
        Some(&SessionTaskKey::SetupMfa)
    );
}

#[test]
fn resolve_pending_opt_out_reads_pending_session_as_signed_in() {
    let pending = signed_in_snapshot_state().apply_loaded_observation(AuthObservation::Pending {
        user: sample_user("user_2abc"),
        session: pending_session_with_task("sess_2def", SessionTaskKey::SetupMfa),
    });

    // Default (treat_pending_as_signed_out = true): gates as signed-out.
    let default = pending.resolve_pending(true);
    assert!(!default.should_render_signed_in());
    assert!(default.should_render_signed_out());
    assert!(!default.to_state().is_signed_in());

    // Opt out: the pending session is read as signed-in.
    let opted_out = pending.resolve_pending(false);
    assert!(opted_out.should_render_signed_in());
    assert!(!opted_out.should_render_signed_out());
    assert!(opted_out.allows_signed_in_gate(None, None));
    assert!(opted_out.to_state().is_signed_in());
    assert_eq!(opted_out.to_state().user_id(), Some("user_2abc"));
    // Role/permission gates still fail closed: a pending session carries no
    // server-verified org claims.
    assert!(!opted_out.allows_signed_in_gate(Some("admin"), None));
    // The session (and its current_task) stays available under either flag.
    assert!(opted_out.session().is_some());
    assert!(default.session().is_some());
}

#[test]
fn resolve_pending_is_a_no_op_for_non_pending_states() {
    let signed_in = signed_in_state();
    assert!(signed_in.resolve_pending(false).should_render_signed_in());
    assert!(signed_in.resolve_pending(true).should_render_signed_in());

    let signed_out =
        AuthRuntimeState::from_initial_auth_snapshot(&signed_out_initial_auth_snapshot());
    assert!(signed_out.resolve_pending(false).should_render_signed_out());
    assert!(!signed_out.resolve_pending(false).should_render_signed_in());
}

#[test]
fn loaded_loading_observation_preserves_pending_session() {
    // A transient interim clerk-js event must not drop a resolved pending
    // session back to loading and flash the wrong UI.
    let pending = signed_in_snapshot_state().apply_loaded_observation(AuthObservation::Pending {
        user: sample_user("user_2abc"),
        session: pending_session_with_task("sess_2def", SessionTaskKey::SetupMfa),
    });

    let next = pending.apply_loaded_observation(AuthObservation::Loading);

    assert!(next.is_pending());
    assert!(next.should_render_signed_out());
    assert!(!next.should_render_signed_in());
    assert!(next.session().is_some());
}

#[test]
fn loading_renders_neither_signed_in_nor_signed_out() {
    let state = AuthRuntimeState::loading();

    assert!(!state.should_render_signed_in());
    assert!(!state.should_render_signed_out());
}

#[test]
fn signed_out_renders_only_signed_out() {
    let state = AuthRuntimeState::from_initial_auth_snapshot(&signed_out_initial_auth_snapshot());

    assert!(!state.should_render_signed_in());
    assert!(state.should_render_signed_out());
}

#[test]
fn signed_in_snapshot_renders_signed_in_without_full_user_or_session() {
    let state = signed_in_snapshot_state();

    assert!(state.should_render_signed_in());
    assert!(!state.should_render_signed_out());
    assert!(state.user().is_none());
    assert!(state.session().is_none());
}

#[test]
fn session_task_key_round_trips_named_and_unknown_keys() {
    assert_eq!(SessionTaskKey::from_text("setup-mfa"), SessionTaskKey::SetupMfa);
    assert_eq!(
        SessionTaskKey::from_text("choose-organization").as_str(),
        "choose-organization"
    );
    let unknown = SessionTaskKey::from_text("brand-new-task");
    assert!(matches!(unknown, SessionTaskKey::Other(_)));
    assert_eq!(unknown.as_str(), "brand-new-task");
    // A known key string is always canonicalized to its named variant.
    assert_eq!(
        SessionTaskKey::from_text("reset-password"),
        SessionTaskKey::ResetPassword
    );
}

#[test]
fn session_status_round_trips_named_and_unknown_statuses() {
    assert_eq!(SessionStatus::from_text("active"), SessionStatus::Active);
    assert_eq!(SessionStatus::from_text("revoked").as_str(), "revoked");
    let unknown = SessionStatus::from_text("brand_new_status");
    assert!(matches!(unknown, SessionStatus::Other(_)));
    assert_eq!(unknown.as_str(), "brand_new_status");
    // A known status string is always canonicalized to its named variant.
    assert_eq!(SessionStatus::from_text("active"), SessionStatus::Active);
    assert_eq!(SessionStatus::from_text("pending").as_str(), "pending");

    let session = Session::new("sess_2", SessionStatus::from_text("expired"));
    assert_eq!(session.status, SessionStatus::Expired);
    assert!(!session.is_active());
}

#[test]
fn auth_state_is_signed_in_exactly_with_a_non_empty_user_id() {
    let empty = AuthState::signed_in("").with_session_id("sess_1").with_loaded(true);
    assert_eq!(empty.status(), AuthStatus::SignedOut);
    assert!(!empty.is_signed_in());
    assert_eq!(empty.user_id(), None);

    let named = AuthState::signed_in("user_1").with_org_id("org_1").with_org_permissions(&["org:read"]);
    assert_eq!(named.status(), AuthStatus::SignedIn);
    assert!(named.is_signed_in());
    assert_eq!(named.user_id(), Some("user_1"));

    let from_empty_claims = AuthState::from_clerk_auth(&ClerkAuth::new("", 9_999_999_999));
    assert!(!from_empty_claims.is_signed_in());
    assert_eq!(from_empty_claims.user_id(), None);

    for state in [AuthState::loading(), AuthState::signed_out()] {
        assert!(!state.is_signed_in());
        assert_eq!(state.user_id(), None);
    }
}
