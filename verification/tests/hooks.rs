use dioxus_clerk::auth::session::{Session, SessionStatus, User};
use dioxus_clerk::auth::state::{AuthObservation, AuthRuntimeState};
use dioxus_clerk::auth::{AuthStatus, ClerkError};
use dioxus_clerk::hooks::{auth_state_for, current_error, SessionState, UseAuthOptions, UserState};

fn pending_state() -> AuthRuntimeState {
    AuthRuntimeState::loading().apply_loaded_observation(AuthObservation::Pending {
        user: User::new("user_2abc"),
        session: Session::new("sess_2def", SessionStatus::Pending),
    })
}

fn signed_in_state() -> AuthRuntimeState {
    AuthRuntimeState::loading().apply_loaded_observation(AuthObservation::SignedIn {
        user: User::new("user_2abc"),
        session: Session::new("sess_2def", SessionStatus::Active),
    })
}

#[test]
fn use_auth_options_default_treats_pending_as_signed_out() {
    // clerk-js's default is `true`; Rust's `bool::default()` is `false`, so
    // the default must be set explicitly or parity silently breaks.
    assert_eq!(UseAuthOptions::new(), UseAuthOptions::new().treat_pending_as_signed_out(true));
    assert_ne!(UseAuthOptions::new(), UseAuthOptions::new().treat_pending_as_signed_out(false));
    assert_eq!(UseAuthOptions::default(), UseAuthOptions::new());
}

#[test]
fn pending_session_reads_signed_out_by_default_and_signed_in_on_request() {
    let state = pending_state();

    let default_view = auth_state_for(&state, &UseAuthOptions::new());
    assert_eq!(default_view.status(), AuthStatus::SignedOut);
    assert!(default_view.user_id().is_none());
    assert!(default_view.is_loaded());

    let pending_aware = auth_state_for(&state, &UseAuthOptions::new().treat_pending_as_signed_out(false));
    assert_eq!(pending_aware.status(), AuthStatus::SignedIn);
    assert_eq!(pending_aware.user_id(), Some("user_2abc"));
    assert_eq!(pending_aware.session_id(), Some("sess_2def"));
    assert!(pending_aware.org_role().is_none());
    assert!(pending_aware.org_permissions().is_empty());
}

#[test]
fn options_do_not_change_a_state_without_a_pending_session() {
    for state in [AuthRuntimeState::loading(), signed_in_state()] {
        let with_default = auth_state_for(&state, &UseAuthOptions::new());
        let with_flag_off = auth_state_for(&state, &UseAuthOptions::new().treat_pending_as_signed_out(false));
        assert_eq!(with_default, with_flag_off);
        assert_eq!(with_default, state.to_state());
    }
}

#[test]
fn user_and_session_states_project_the_runtime_state() {
    let loading = AuthRuntimeState::loading();
    let user = UserState::from_runtime(&loading);
    assert!(user.is_loading());
    assert!(!user.is_loaded());
    assert!(user.user().is_none());
    let session = SessionState::from_runtime(&loading);
    assert!(session.is_loading());
    assert!(session.session().is_none());

    let signed_in = signed_in_state();
    let user = UserState::from_runtime(&signed_in);
    assert!(user.is_signed_in());
    assert!(user.is_loaded());
    assert_eq!(user.user().map(|u| u.id.as_str()), Some("user_2abc"));
    let session = SessionState::from_runtime(&signed_in);
    assert_eq!(session.status(), AuthStatus::SignedIn);
    assert_eq!(session.session().map(|s| s.id.as_str()), Some("sess_2def"));

    // A pending session still exposes its user and session (so apps can
    // route on the current task) while the status reads signed out.
    let pending = pending_state();
    let user = UserState::from_runtime(&pending);
    assert!(user.is_signed_out());
    assert_eq!(user.user().map(|u| u.id.as_str()), Some("user_2abc"));
    let session = SessionState::from_runtime(&pending);
    assert!(session.is_signed_out());
    assert_eq!(session.session().map(|s| s.status.clone()), Some(SessionStatus::Pending));
}

#[test]
fn a_load_failure_wins_over_a_recoverable_error() {
    let load = ClerkError::ScriptLoad("blocked".into());
    let action = ClerkError::Js("mount failed".into());
    assert_eq!(current_error(Some(load.clone()), Some(action.clone())), Some(load.clone()));
    assert_eq!(current_error(Some(load.clone()), None), Some(load));
    assert_eq!(current_error(None, Some(action.clone())), Some(action));
    assert_eq!(current_error(None, None), None);
}
