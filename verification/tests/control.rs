use dioxus_clerk::auth::session::{Session, SessionStatus, User};
use dioxus_clerk::auth::state::{AuthObservation, AuthRuntimeState};
use dioxus_clerk::control::{
    protect, shows_clerk_loaded, shows_clerk_loading, shows_signed_in, shows_signed_out, signed_in_when_loaded,
    signed_out_when_loaded, Render,
};
use dioxus_clerk::ssr::InitialAuthSnapshot;

fn signed_in_loaded() -> AuthRuntimeState {
    AuthRuntimeState::loading().apply_loaded_observation(AuthObservation::SignedIn {
        user: User::new("user_1"),
        session: Session::new("sess_1", SessionStatus::Active),
    })
}

fn pending_loaded() -> AuthRuntimeState {
    AuthRuntimeState::loading().apply_loaded_observation(AuthObservation::Pending {
        user: User::new("user_1"),
        session: Session::new("sess_1", SessionStatus::Pending),
    })
}

fn signed_out_loaded() -> AuthRuntimeState {
    AuthRuntimeState::loading().apply_loaded_observation(AuthObservation::SignedOut)
}

#[test]
fn loading_and_loaded_gates_follow_loadedness_and_failure() {
    let loading = AuthRuntimeState::loading();
    assert!(shows_clerk_loading(&loading, false));
    assert!(!shows_clerk_loading(&loading, true));
    assert!(!shows_clerk_loaded(&loading));
    let loaded = signed_out_loaded();
    assert!(!shows_clerk_loading(&loaded, false));
    assert!(shows_clerk_loaded(&loaded));
}

#[test]
fn pending_sessions_follow_the_treat_pending_setting() {
    let pending = pending_loaded();
    assert!(!shows_signed_in(&pending, true));
    assert!(shows_signed_out(&pending, true));
    assert!(shows_signed_in(&pending, false));
    assert!(!shows_signed_out(&pending, false));
}

#[test]
fn when_loaded_gates_wait_for_clerk_js() {
    // Before loading: fallback unless a load failure or a contrary answer.
    let loading = AuthRuntimeState::loading();
    assert_eq!(signed_in_when_loaded(&loading, true, false), Render::Fallback);
    assert_eq!(signed_in_when_loaded(&loading, true, true), Render::Nothing);
    assert_eq!(signed_out_when_loaded(&loading, true, false), Render::Fallback);

    // A server-verified signed-out seed answers before clerk-js loads: the
    // signed-in gate shows nothing rather than a loading fallback.
    let seeded_out = AuthRuntimeState::from_initial_auth_snapshot(&InitialAuthSnapshot::signed_out());
    assert_eq!(signed_in_when_loaded(&seeded_out, true, false), Render::Nothing);
    assert_eq!(signed_out_when_loaded(&seeded_out, true, false), Render::Fallback);

    let signed_in = signed_in_loaded();
    assert_eq!(signed_in_when_loaded(&signed_in, true, false), Render::Children);
    assert_eq!(signed_out_when_loaded(&signed_in, true, false), Render::Nothing);

    let signed_out = signed_out_loaded();
    assert_eq!(signed_in_when_loaded(&signed_out, true, false), Render::Nothing);
    assert_eq!(signed_out_when_loaded(&signed_out, true, false), Render::Children);
}

#[test]
fn protect_requires_a_signed_in_state_and_verified_claims() {
    let signed_in = signed_in_loaded();
    assert_eq!(protect(&signed_in, None, None, true), Render::Children);
    // Client-side sessions carry no verified organization claims.
    assert_eq!(protect(&signed_in, Some("org:admin"), None, true), Render::Fallback);
    assert_eq!(protect(&signed_in, None, Some("org:billing:read"), true), Render::Fallback);
    assert_eq!(protect(&signed_out_loaded(), None, None, true), Render::Fallback);
    assert_eq!(protect(&pending_loaded(), None, None, true), Render::Fallback);
    assert_eq!(protect(&pending_loaded(), None, None, false), Render::Children);
}
