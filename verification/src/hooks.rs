//! The read models behind the auth hooks: the options `use_auth` takes, the
//! auth, user and session states a component reads from the provider's
//! runtime state, and which error it is shown.
use vstd::prelude::*;
use std::borrow::Cow;

use crate::auth::session::{Session, SessionView, User, UserView};
use crate::auth::state::{AuthRuntimeState, AuthRuntimeView, RuntimeKind};
use crate::auth::{AuthState, AuthStatus, ClerkError};

verus! {

/// Options for reading auth state, mirroring the option object Clerk
/// React's `useAuth(...)` accepts.
///
/// Construct with [`UseAuthOptions::new`] and chain setters.
#[derive(Debug, Clone, PartialEq, Eq, Structural)]
#[non_exhaustive]
pub struct UseAuthOptions {
    treat_pending_as_signed_out: bool,
}

impl View for UseAuthOptions {
    /// Whether a session with pending after-auth tasks reads as signed out.
    type V = bool;

    closed spec fn view(&self) -> bool {
        self.treat_pending_as_signed_out
    }
}

impl Default for UseAuthOptions {
    /// clerk-js treats pending sessions as signed out by default; matching
    /// that keeps `use_auth()` consistent with the control components.
    fn default() -> (r: Self)
        ensures
            r@,
    {
        UseAuthOptions { treat_pending_as_signed_out: true }
    }
}

impl UseAuthOptions {
    /// Options with clerk-js defaults (`treat_pending_as_signed_out = true`).
    pub fn new() -> (r: Self)
        ensures
            r@,
    {
        UseAuthOptions { treat_pending_as_signed_out: true }
    }

    /// Set whether a session with pending after-auth tasks is treated as
    /// signed out. `true` (the default) matches clerk-js; `false` reads a
    /// pending session as signed in.
    pub fn treat_pending_as_signed_out(self, value: bool) -> (r: Self)
        ensures
            r@ == value,
    {
        UseAuthOptions { treat_pending_as_signed_out: value }
    }
}

/// The app-visible auth state a reader with `options` sees: the runtime
/// state with a pending session resolved per the options.
pub fn auth_state_for(state: &AuthRuntimeState, options: &UseAuthOptions) -> (r: AuthState)
    ensures
        r@ == state@.resolve_pending(options@).to_state(),
{
    match state.resolve_pending(options.treat_pending_as_signed_out) {
        Cow::Borrowed(resolved) => resolved.to_state(),
        Cow::Owned(resolved) => resolved.to_state(),
    }
}

/// With the default options a pending session reads as signed out, as the
/// control components render it; with `treat_pending_as_signed_out(false)`
/// it reads as signed in. For any other state the options make no
/// difference.
pub proof fn lemma_pending_reads_per_options(state: AuthRuntimeView, treat_pending_as_signed_out: bool)
    ensures
        state.is_pending() ==> state.resolve_pending(true).to_state().status == AuthStatus::SignedOut,
        state.is_pending() ==> state.resolve_pending(false).to_state().status == AuthStatus::SignedIn,
        !state.is_pending() ==> state.resolve_pending(treat_pending_as_signed_out).to_state()
            == state.to_state(),
{
}

/// The full clerk-js user a runtime state holds, pending sessions included.
pub open spec fn runtime_user(state: AuthRuntimeView) -> Option<UserView> {
    match state.kind {
        RuntimeKind::SignedIn { user, .. } => Some(user),
        RuntimeKind::Pending { user, .. } => Some(user),
        _ => None,
    }
}

/// The full clerk-js session a runtime state holds, pending sessions
/// included.
pub open spec fn runtime_session(state: AuthRuntimeView) -> Option<SessionView> {
    match state.kind {
        RuntimeKind::SignedIn { session, .. } => Some(session),
        RuntimeKind::Pending { session, .. } => Some(session),
        _ => None,
    }
}

/// The mathematical content of a [`UserState`] or [`SessionState`].
pub struct ResourceStateView<R> {
    pub status: AuthStatus,
    pub is_loaded: bool,
    pub resource: Option<R>,
}

/// Current-user state that distinguishes loading, signed-out, and
/// signed-in-without-full-browser-user states.
#[derive(Debug, PartialEq)]
#[non_exhaustive]
pub struct UserState {
    status: AuthStatus,
    is_loaded: bool,
    user: Option<User>,
}

impl View for UserState {
    type V = ResourceStateView<UserView>;

    closed spec fn view(&self) -> ResourceStateView<UserView> {
        ResourceStateView {
            status: self.status,
            is_loaded: self.is_loaded,
            resource: match self.user {
                Some(user) => Some(user@),
                None => None,
            },
        }
    }
}

impl UserState {
    /// The user state of a runtime state: its app-visible status and
    /// loadedness, and the full clerk-js user once the browser has one.
    pub fn from_runtime(state: &AuthRuntimeState) -> (r: Self)
        ensures
            r@ == (ResourceStateView {
                status: state@.to_state().status,
                is_loaded: state@.is_loaded,
                resource: runtime_user(state@),
            }),
    {
        let auth = state.to_state();
        let user = match state.user() {
            Some(user) => Some(user.clone()),
            None => None,
        };
        UserState { status: auth.status(), is_loaded: state.is_loaded(), user }
    }

    /// The explicit auth resolution status.
    pub fn status(&self) -> (r: AuthStatus)
        ensures
            r == self@.status,
    {
        self.status
    }

    /// Whether clerk-js has finished loading on the client.
    pub fn is_loaded(&self) -> (r: bool)
        ensures
            r == self@.is_loaded,
    {
        self.is_loaded
    }

    /// True while auth has not resolved to signed-in or signed-out yet.
    pub fn is_loading(&self) -> (r: bool)
        ensures
            r == (self@.status == AuthStatus::Loading),
    {
        self.status.is_loading()
    }

    /// True only when auth has resolved and no active session is known.
    pub fn is_signed_out(&self) -> (r: bool)
        ensures
            r == (self@.status == AuthStatus::SignedOut),
    {
        self.status.is_signed_out()
    }

    /// Whether a session is active.
    pub fn is_signed_in(&self) -> (r: bool)
        ensures
            r == (self@.status == AuthStatus::SignedIn),
    {
        self.status.is_signed_in()
    }

    /// Full clerk-js user details, available after browser hydration.
    pub fn user(&self) -> (r: Option<&User>)
        ensures
            match self@.resource {
                Some(user) => r matches Some(u) && u@ == user,
                None => r is None,
            },
    {
        match &self.user {
            Some(user) => Some(user),
            None => None,
        }
    }
}

/// Current-session state that distinguishes loading, signed-out, and
/// signed-in-without-full-browser-session states.
#[derive(Debug, PartialEq)]
#[non_exhaustive]
pub struct SessionState {
    status: AuthStatus,
    is_loaded: bool,
    session: Option<Session>,
}

impl View for SessionState {
    type V = ResourceStateView<SessionView>;

    closed spec fn view(&self) -> ResourceStateView<SessionView> {
        ResourceStateView {
            status: self.status,
            is_loaded: self.is_loaded,
            resource: match self.session {
                Some(session) => Some(session@),
                None => None,
            },
        }
    }
}

impl SessionState {
    /// The session state of a runtime state: its app-visible status and
    /// loadedness, and the full clerk-js session once the browser has one.
    pub fn from_runtime(state: &AuthRuntimeState) -> (r: Self)
        ensures
            r@ == (ResourceStateView {
                status: state@.to_state().status,
                is_loaded: state@.is_loaded,
                resource: runtime_session(state@),
            }),
    {
        let auth = state.to_state();
        let session = match state.session() {
            Some(session) => Some(session.clone()),
            None => None,
        };
        SessionState { status: auth.status(), is_loaded: state.is_loaded(), session }
    }

    /// The explicit auth resolution status.
    pub fn status(&self) -> (r: AuthStatus)
        ensures
            r == self@.status,
    {
        self.status
    }

    /// Whether clerk-js has finished loading on the client.
    pub fn is_loaded(&self) -> (r: bool)
        ensures
            r == self@.is_loaded,
    {
        self.is_loaded
    }

    /// True while auth has not resolved to signed-in or signed-out yet.
    pub fn is_loading(&self) -> (r: bool)
        ensures
            r == (self@.status == AuthStatus::Loading),
    {
        self.status.is_loading()
    }

    /// True only when auth has resolved and no active session is known.
    pub fn is_signed_out(&self) -> (r: bool)
        ensures
            r == (self@.status == AuthStatus::SignedOut),
    {
        self.status.is_signed_out()
    }

    /// Whether a session is active.
    pub fn is_signed_in(&self) -> (r: bool)
        ensures
            r == (self@.status == AuthStatus::SignedIn),
    {
        self.status.is_signed_in()
    }

    /// Full clerk-js session details, available after browser hydration.
    pub fn session(&self) -> (r: Option<&Session>)
        ensures
            match self@.resource {
                Some(session) => r matches Some(s) && s@ == session,
                None => r is None,
            },
    {
        match &self.session {
            Some(session) => Some(session),
            None => None,
        }
    }
}

/// The error to surface to apps: a fatal load failure wins over a
/// recoverable action failure or startup warning.
pub fn current_error(load_error: Option<ClerkError>, action_error: Option<ClerkError>) -> (r: Option<ClerkError>)
    ensures
        r == match load_error {
            Some(e) => Some(e),
            None => action_error,
        },
{
    match load_error {
        Some(error) => Some(error),
        None => action_error,
    }
}

} // verus!
