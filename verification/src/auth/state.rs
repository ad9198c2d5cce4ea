//! Provider runtime auth state: the state machine `ClerkProvider` holds,
//! driven by SSR initial state and clerk-js observations.
use vstd::prelude::*;
use std::borrow::Cow;

use super::auth_state::{AuthState, AuthStateView, AuthStatus};
use super::session::{Session, SessionView, User, UserView};
use crate::ssr::{InitialAuthSnapshot, InitialAuthStatus};
use crate::text::{clone_opt_string, clone_strings, contains_text, opt_text, same_text};

verus! {

/// Organization claims that came from verified server auth.
pub struct OrgView {
    pub org_id: Option<Seq<char>>,
    pub org_slug: Option<Seq<char>>,
    pub org_role: Option<Seq<char>>,
    pub org_permissions: Seq<Seq<char>>,
}

impl OrgView {
    /// No verified organization claims.
    pub open spec fn none() -> OrgView {
        OrgView { org_id: None, org_slug: None, org_role: None, org_permissions: Seq::empty() }
    }
}

/// The resolution a runtime auth state is in.
pub enum RuntimeKind {
    /// Clerk has not resolved yet; there is no reliable auth answer.
    Loading,
    /// Auth resolved; no active session.
    SignedOut,
    /// The server verified a session during SSR, but clerk-js has not supplied
    /// full `User` and `Session` objects yet.
    SignedInSnapshot { user_id: Seq<char>, session_id: Option<Seq<char>>, org: OrgView },
    /// Clerk JS loaded; an active session exists with full client details.
    SignedIn { user: UserView, session: SessionView, org: OrgView },
    /// Clerk JS loaded a signed-in session with pending after-auth tasks.
    Pending { user: UserView, session: SessionView },
}

/// The mathematical content of an [`AuthRuntimeState`].
pub struct AuthRuntimeView {
    pub kind: RuntimeKind,
    pub is_loaded: bool,
}

/// Whether verified org claims recorded for `previous_user_id` /
/// `previous_session_id` / `previous_org_id` may be carried into a fresh
/// clerk-js observation of `user` and `session`: user, session and active
/// organization must all match.
pub open spec fn matches_user_session_org(
    previous_user_id: Seq<char>,
    previous_session_id: Option<Seq<char>>,
    previous_org_id: Option<Seq<char>>,
    user: UserView,
    session: SessionView,
) -> bool {
    &&& previous_user_id == user.id
    &&& previous_session_id == Some(session.id)
    &&& previous_org_id == session.last_active_organization_id
}

/// The verified org claims a fresh signed-in observation keeps from the
/// previous state.
pub open spec fn carried_org(previous: RuntimeKind, user: UserView, session: SessionView) -> OrgView {
    match previous {
        RuntimeKind::SignedInSnapshot { user_id, session_id, org } => if matches_user_session_org(
            user_id,
            session_id,
            org.org_id,
            user,
            session,
        ) {
            org
        } else {
            OrgView::none()
        },
        RuntimeKind::SignedIn { user: previous_user, session: previous_session, org } => if matches_user_session_org(
            previous_user.id,
            Some(previous_session.id),
            org.org_id,
            user,
            session,
        ) {
            org
        } else {
            OrgView::none()
        },
        _ => OrgView::none(),
    }
}

impl AuthRuntimeView {
    /// Signed-in knowledge from the server snapshot or full clerk-js details.
    pub open spec fn is_signed_in(self) -> bool {
        self.kind is SignedInSnapshot || self.kind is SignedIn
    }

    /// A signed-in session with pending after-auth tasks.
    pub open spec fn is_pending(self) -> bool {
        self.kind is Pending
    }

    /// `SignedOut` rendering: resolved signed-out, or pending.
    pub open spec fn renders_signed_out(self) -> bool {
        self.kind is SignedOut || self.kind is Pending
    }

    /// The state after a clerk-js observation, with loadedness unchanged.
    pub open spec fn apply(self, observation: AuthObservation) -> AuthRuntimeView {
        match observation {
            AuthObservation::Loading => if self.is_signed_in() || self.is_pending() {
                self
            } else {
                AuthRuntimeView { kind: RuntimeKind::Loading, is_loaded: self.is_loaded }
            },
            AuthObservation::SignedOut => AuthRuntimeView {
                kind: RuntimeKind::SignedOut,
                is_loaded: self.is_loaded,
            },
            AuthObservation::SignedIn { user, session } => AuthRuntimeView {
                kind: RuntimeKind::SignedIn {
                    user: user@,
                    session: session@,
                    org: carried_org(self.kind, user@, session@),
                },
                is_loaded: self.is_loaded,
            },
            AuthObservation::Pending { user, session } => AuthRuntimeView {
                kind: RuntimeKind::Pending { user: user@, session: session@ },
                is_loaded: self.is_loaded,
            },
        }
    }

    /// The app-visible auth state of a runtime state.
    pub open spec fn to_state(self) -> AuthStateView {
        match self.kind {
            RuntimeKind::Loading => AuthStateView::signed_out_with(AuthStatus::Loading, self.is_loaded),
            RuntimeKind::SignedOut => AuthStateView::signed_out_with(
                AuthStatus::SignedOut,
                self.is_loaded,
            ),
            RuntimeKind::SignedInSnapshot { user_id, session_id, org } => AuthStateView {
                status: AuthStatus::SignedIn,
                is_loaded: self.is_loaded,
                user_id: Some(user_id),
                session_id,
                org_id: org.org_id,
                org_slug: org.org_slug,
                org_role: org.org_role,
                org_permissions: org.org_permissions,
            },
            RuntimeKind::SignedIn { user, session, org } => AuthStateView {
                status: AuthStatus::SignedIn,
                is_loaded: self.is_loaded,
                user_id: Some(user.id),
                session_id: Some(session.id),
                org_id: org.org_id,
                org_slug: org.org_slug,
                org_role: org.org_role,
                org_permissions: org.org_permissions,
            },
            RuntimeKind::Pending { .. } => AuthStateView::signed_out_with(
                AuthStatus::SignedOut,
                self.is_loaded,
            ),
        }
    }

    /// The state a reader sees under `treat_pending_as_signed_out`: with the
    /// flag off, a pending session reads as signed in without verified org
    /// claims; everything else is unchanged.
    pub open spec fn resolve_pending(self, treat_pending_as_signed_out: bool) -> AuthRuntimeView {
        match self.kind {
            RuntimeKind::Pending { user, session } => if treat_pending_as_signed_out {
                self
            } else {
                AuthRuntimeView {
                    kind: RuntimeKind::SignedIn {
                        user,
                        session,
                        org: OrgView {
                            org_id: session.last_active_organization_id,
                            ..OrgView::none()
                        },
                    },
                    is_loaded: self.is_loaded,
                }
            },
            _ => self,
        }
    }

    /// The verified org claims a signed-in state carries.
    pub open spec fn org(self) -> OrgView {
        match self.kind {
            RuntimeKind::SignedInSnapshot { org, .. } => org,
            RuntimeKind::SignedIn { org, .. } => org,
            _ => OrgView::none(),
        }
    }

    /// Whether signed-in gating renders for the requested role and permission;
    /// a requested permission takes precedence and the role is then ignored.
    pub open spec fn allows_gate(self, role: Option<Seq<char>>, permission: Option<Seq<char>>) -> bool {
        let role = if permission is Some { None } else { role };
        &&& self.is_signed_in()
        &&& match role {
            Some(required) => self.org().org_role == Some(required),
            None => true,
        }
        &&& match permission {
            Some(required) => self.org().org_permissions.contains(required),
            None => true,
        }
    }
}

/// The runtime state an SSR initial auth snapshot seeds: only a
/// server-verified signed-out snapshot seeds signed-out; an unverified
/// snapshot, or a signed-in one without a non-empty user id, stays loading.
pub open spec fn runtime_from_snapshot(snapshot: InitialAuthSnapshot) -> AuthRuntimeView {
    match snapshot.status {
        InitialAuthStatus::Unverified => AuthRuntimeView { kind: RuntimeKind::Loading, is_loaded: false },
        InitialAuthStatus::SignedOut => AuthRuntimeView { kind: RuntimeKind::SignedOut, is_loaded: false },
        InitialAuthStatus::SignedIn => match snapshot.user_id {
            Some(user_id) => if user_id@.len() > 0 {
                AuthRuntimeView {
                    kind: RuntimeKind::SignedInSnapshot {
                        user_id: user_id@,
                        session_id: snapshot.session_id.deep_view(),
                        org: OrgView {
                            org_id: snapshot.org_id.deep_view(),
                            org_slug: snapshot.org_slug.deep_view(),
                            org_role: snapshot.org_role.deep_view(),
                            org_permissions: snapshot.org_permissions.deep_view(),
                        },
                    },
                    is_loaded: false,
                }
            } else {
                AuthRuntimeView { kind: RuntimeKind::Loading, is_loaded: false }
            },
            None => AuthRuntimeView { kind: RuntimeKind::Loading, is_loaded: false },
        },
    }
}

/// Verified organization claims held by a signed-in runtime state.
#[derive(Debug, PartialEq)]
struct OrgClaims {
    org_id: Option<String>,
    org_slug: Option<String>,
    org_role: Option<String>,
    org_permissions: Vec<String>,
}

impl View for OrgClaims {
    type V = OrgView;

    closed spec fn view(&self) -> OrgView {
        OrgView {
            org_id: self.org_id.deep_view(),
            org_slug: self.org_slug.deep_view(),
            org_role: self.org_role.deep_view(),
            org_permissions: self.org_permissions.deep_view(),
        }
    }
}

impl OrgClaims {
    fn none() -> (r: Self)
        ensures
            r@ == OrgView::none(),
    {
        let r = OrgClaims { org_id: None, org_slug: None, org_role: None, org_permissions: Vec::new() };
        assert(r@.org_permissions =~= Seq::<Seq<char>>::empty());
        r
    }

    fn copy(&self) -> (r: Self)
        ensures
            r@ == self@,
    {
        OrgClaims {
            org_id: clone_opt_string(&self.org_id),
            org_slug: clone_opt_string(&self.org_slug),
            org_role: clone_opt_string(&self.org_role),
            org_permissions: clone_strings(&self.org_permissions),
        }
    }
}

#[derive(Debug, PartialEq)]
enum AuthRuntimeStateKind {
    Loading,
    SignedOut,
    SignedInSnapshot { user_id: String, session_id: Option<String>, org: OrgClaims },
    SignedIn { user: User, session: Session, org: OrgClaims },
    Pending { user: User, session: Session },
}

impl View for AuthRuntimeStateKind {
    type V = RuntimeKind;

    closed spec fn view(&self) -> RuntimeKind {
        match self {
            AuthRuntimeStateKind::Loading => RuntimeKind::Loading,
            AuthRuntimeStateKind::SignedOut => RuntimeKind::SignedOut,
            AuthRuntimeStateKind::SignedInSnapshot { user_id, session_id, org } => RuntimeKind::SignedInSnapshot {
                user_id: user_id@,
                session_id: session_id.deep_view(),
                org: org@,
            },
            AuthRuntimeStateKind::SignedIn { user, session, org } => RuntimeKind::SignedIn {
                user: user@,
                session: session@,
                org: org@,
            },
            AuthRuntimeStateKind::Pending { user, session } => RuntimeKind::Pending {
                user: user@,
                session: session@,
            },
        }
    }
}

impl AuthRuntimeStateKind {
    fn copy(&self) -> (r: Self)
        ensures
            r@ == self@,
    {
        match self {
            AuthRuntimeStateKind::Loading => AuthRuntimeStateKind::Loading,
            AuthRuntimeStateKind::SignedOut => AuthRuntimeStateKind::SignedOut,
            AuthRuntimeStateKind::SignedInSnapshot { user_id, session_id, org } => AuthRuntimeStateKind::SignedInSnapshot {
                user_id: user_id.clone(),
                session_id: clone_opt_string(session_id),
                org: org.copy(),
            },
            AuthRuntimeStateKind::SignedIn { user, session, org } => AuthRuntimeStateKind::SignedIn {
                user: user.clone(),
                session: session.clone(),
                org: org.copy(),
            },
            AuthRuntimeStateKind::Pending { user, session } => AuthRuntimeStateKind::Pending {
                user: user.clone(),
                session: session.clone(),
            },
        }
    }
}

/// A clerk-js observation that can transition application-visible auth state.
#[derive(Debug, PartialEq)]
pub enum AuthObservation {
    /// Clerk has not supplied a reliable auth answer.
    Loading,
    /// Clerk resolved with no active session.
    SignedOut,
    /// Clerk resolved with full client-side user and session details.
    SignedIn {
        /// Authenticated user.
        user: User,
        /// Active session.
        session: Session,
    },
    /// Clerk resolved a signed-in session with pending after-auth tasks.
    Pending {
        /// Authenticated user.
        user: User,
        /// Pending session, carrying `current_task`/`tasks`.
        session: Session,
    },
}

/// Reactive auth state machine held by `ClerkProvider`.
#[derive(Debug, PartialEq)]
pub struct AuthRuntimeState {
    status: AuthRuntimeStateKind,
    is_loaded: bool,
}

impl View for AuthRuntimeState {
    type V = AuthRuntimeView;

    closed spec fn view(&self) -> AuthRuntimeView {
        AuthRuntimeView { kind: self.status@, is_loaded: self.is_loaded }
    }
}

impl Clone for AuthRuntimeState {
    fn clone(&self) -> (r: Self)
        ensures
            r@ == self@,
    {
        AuthRuntimeState { status: self.status.copy(), is_loaded: self.is_loaded }
    }
}

impl Default for AuthRuntimeState {
    /// The initial unknown state: loading, not loaded.
    fn default() -> (r: Self)
        ensures
            r@ == (AuthRuntimeView { kind: RuntimeKind::Loading, is_loaded: false }),
    {
        AuthRuntimeState::loading()
    }
}

fn opt_matches(o: &Option<String>, other: Option<&str>) -> (r: bool)
    ensures
        r == (o.deep_view() == opt_text(other)),
{
    match (o, other) {
        (Some(a), Some(b)) => same_text(a.as_str(), b),
        (None, None) => true,
        _ => false,
    }
}

impl AuthRuntimeState {
    /// Initial unknown state before clerk-js has loaded.
    pub fn loading() -> (r: Self)
        ensures
            r@ == (AuthRuntimeView { kind: RuntimeKind::Loading, is_loaded: false }),
    {
        AuthRuntimeState { status: AuthRuntimeStateKind::Loading, is_loaded: false }
    }

    fn with_loaded(self, is_loaded: bool) -> (r: Self)
        ensures
            r@ == (AuthRuntimeView { is_loaded, ..self@ }),
    {
        AuthRuntimeState { status: self.status, is_loaded }
    }

    /// Interpret an SSR initial auth snapshot as initial client auth state.
    pub fn from_initial_auth_snapshot(snapshot: &InitialAuthSnapshot) -> (r: Self)
        ensures
            r@ == runtime_from_snapshot(*snapshot),
    {
        match snapshot.status {
            InitialAuthStatus::Unverified => return AuthRuntimeState::loading(),
            InitialAuthStatus::SignedOut => {
                return AuthRuntimeState { status: AuthRuntimeStateKind::SignedOut, is_loaded: false };
            },
            InitialAuthStatus::SignedIn => {},
        }
        let user_id = match &snapshot.user_id {
            Some(id) => if id.as_str().is_empty() {
                return AuthRuntimeState::loading();
            } else {
                id.clone()
            },
            None => return AuthRuntimeState::loading(),
        };
        AuthRuntimeState {
            status: AuthRuntimeStateKind::SignedInSnapshot {
                user_id,
                session_id: clone_opt_string(&snapshot.session_id),
                org: OrgClaims {
                    org_id: clone_opt_string(&snapshot.org_id),
                    org_slug: clone_opt_string(&snapshot.org_slug),
                    org_role: clone_opt_string(&snapshot.org_role),
                    org_permissions: clone_strings(&snapshot.org_permissions),
                },
            },
            is_loaded: false,
        }
    }

    /// Build full signed-in state from clerk-js details, loaded, while
    /// preserving verified organization claims across same-session updates.
    pub fn from_js_session(user: User, session: Session, previous: &Self) -> (r: Self)
        ensures
            r@ == (AuthRuntimeView {
                kind: RuntimeKind::SignedIn {
                    user: user@,
                    session: session@,
                    org: carried_org(previous@.kind, user@, session@),
                },
                is_loaded: true,
            }),
    {
        AuthRuntimeState::from_js_session_with_loaded(user, session, previous, true)
    }

    fn matches_user_session_org(
        previous_user_id: &str,
        previous_session_id: Option<&str>,
        previous_org_id: Option<&str>,
        user: &User,
        session: &Session,
    ) -> (r: bool)
        ensures
            r == matches_user_session_org(
                previous_user_id@,
                opt_text(previous_session_id),
                opt_text(previous_org_id),
                user@,
                session@,
            ),
    {
        let same_session = match previous_session_id {
            Some(id) => same_text(id, session.id.as_str()),
            None => false,
        };
        same_text(previous_user_id, user.id.as_str()) && same_session && opt_matches(
            &session.last_active_organization_id,
            previous_org_id,
        )
    }

    fn from_js_session_with_loaded(
        user: User,
        session: Session,
        previous: &Self,
        is_loaded: bool,
    ) -> (r: Self)
        ensures
            r@ == (AuthRuntimeView {
                kind: RuntimeKind::SignedIn {
                    user: user@,
                    session: session@,
                    org: carried_org(previous@.kind, user@, session@),
                },
                is_loaded,
            }),
    {
        let org = match &previous.status {
            AuthRuntimeStateKind::SignedInSnapshot { user_id, session_id, org } => {
                if AuthRuntimeState::matches_user_session_org(
                    user_id.as_str(),
                    crate::text::opt_as_str(session_id),
                    crate::text::opt_as_str(&org.org_id),
                    &user,
                    &session,
                ) {
                    org.copy()
                } else {
                    OrgClaims::none()
                }
            },
            AuthRuntimeStateKind::SignedIn { user: previous_user, session: previous_session, org } => {
                if AuthRuntimeState::matches_user_session_org(
                    previous_user.id.as_str(),
                    Some(previous_session.id.as_str()),
                    crate::text::opt_as_str(&org.org_id),
                    &user,
                    &session,
                ) {
                    org.copy()
                } else {
                    OrgClaims::none()
                }
            },
            _ => OrgClaims::none(),
        };
        AuthRuntimeState { status: AuthRuntimeStateKind::SignedIn { user, session, org }, is_loaded }
    }

    /// Apply a clerk-js observation while preserving current loadedness.
    ///
    /// A transient loading observation never disturbs a resolved signed-in
    /// or pending session.
    pub fn apply_observation(&self, observation: AuthObservation) -> (r: Self)
        ensures
            r@ == self@.apply(observation),
    {
        match observation {
            AuthObservation::Loading => {
                if self.is_signed_in() || self.is_pending() {
                    self.clone()
                } else {
                    AuthRuntimeState { status: AuthRuntimeStateKind::Loading, is_loaded: self.is_loaded }
                }
            },
            AuthObservation::SignedOut => AuthRuntimeState {
                status: AuthRuntimeStateKind::SignedOut,
                is_loaded: self.is_loaded,
            },
            AuthObservation::SignedIn { user, session } => {
                AuthRuntimeState::from_js_session_with_loaded(user, session, self, self.is_loaded)
            },
            AuthObservation::Pending { user, session } => AuthRuntimeState {
                status: AuthRuntimeStateKind::Pending { user, session },
                is_loaded: self.is_loaded,
            },
        }
    }

    /// Apply an observation produced after `Clerk.load()` has completed.
    pub fn apply_loaded_observation(&self, observation: AuthObservation) -> (r: Self)
        ensures
            r@ == (AuthRuntimeView { is_loaded: true, ..self@.apply(observation) }),
    {
        self.apply_observation(observation).with_loaded(true)
    }

    /// Convert the current runtime state into app-visible auth state.
    pub fn to_state(&self) -> (r: AuthState)
        ensures
            r@ == self@.to_state(),
    {
        match &self.status {
            AuthRuntimeStateKind::Loading => AuthState::loading().with_loaded(self.is_loaded),
            AuthRuntimeStateKind::SignedOut => AuthState::signed_out().with_loaded(self.is_loaded),
            AuthRuntimeStateKind::SignedInSnapshot { user_id, session_id, org } => AuthState::from_parts(
                AuthStatus::SignedIn,
                self.is_loaded,
                Some(user_id.clone()),
                clone_opt_string(session_id),
                clone_opt_string(&org.org_id),
                clone_opt_string(&org.org_slug),
                clone_opt_string(&org.org_role),
                clone_strings(&org.org_permissions),
            ),
            AuthRuntimeStateKind::SignedIn { user, session, org } => AuthState::from_parts(
                AuthStatus::SignedIn,
                self.is_loaded,
                Some(user.id.clone()),
                Some(session.id.clone()),
                clone_opt_string(&org.org_id),
                clone_opt_string(&org.org_slug),
                clone_opt_string(&org.org_role),
                clone_strings(&org.org_permissions),
            ),
            AuthRuntimeStateKind::Pending { .. } => AuthState::signed_out().with_loaded(self.is_loaded),
        }
    }

    /// Whether clerk-js has completed `Clerk.load()` for this auth state.
    pub fn is_loaded(&self) -> (r: bool)
        ensures
            r == self@.is_loaded,
    {
        self.is_loaded
    }

    /// True when the state represents either server-snapshot or full JS
    /// signed-in knowledge. A pending session is not signed in.
    pub fn is_signed_in(&self) -> (r: bool)
        ensures
            r == self@.is_signed_in(),
    {
        matches!(
            &self.status,
            AuthRuntimeStateKind::SignedInSnapshot { .. } | AuthRuntimeStateKind::SignedIn { .. }
        )
    }

    /// True when clerk-js reports a signed-in session with pending after-auth tasks.
    pub fn is_pending(&self) -> (r: bool)
        ensures
            r == self@.is_pending(),
    {
        matches!(&self.status, AuthRuntimeStateKind::Pending { .. })
    }

    /// Apply `treat_pending_as_signed_out` to produce the effective state a
    /// reader sees. Non-pending states, and the flag-on case, borrow `self`.
    pub fn resolve_pending(&self, treat_pending_as_signed_out: bool) -> (r: Cow<'_, Self>)
        ensures
            r@ == self@.resolve_pending(treat_pending_as_signed_out),
    {
        match &self.status {
            AuthRuntimeStateKind::Pending { user, session } => {
                if treat_pending_as_signed_out {
                    Cow::Borrowed(self)
                } else {
                    let org = OrgClaims {
                        org_id: clone_opt_string(&session.last_active_organization_id),
                        org_slug: None,
                        org_role: None,
                        org_permissions: Vec::new(),
                    };
                    assert(org@.org_permissions =~= Seq::<Seq<char>>::empty());
                    Cow::Owned(
                        AuthRuntimeState {
                            status: AuthRuntimeStateKind::SignedIn {
                                user: user.clone(),
                                session: session.clone(),
                                org,
                            },
                            is_loaded: self.is_loaded,
                        },
                    )
                }
            },
            _ => Cow::Borrowed(self),
        }
    }

    /// Whether `SignedIn` rendering should be shown for this state.
    pub fn should_render_signed_in(&self) -> (r: bool)
        ensures
            r == self@.is_signed_in(),
    {
        self.is_signed_in()
    }

    /// Whether `SignedOut` rendering should be shown for this state. A pending
    /// session renders signed-out.
    pub fn should_render_signed_out(&self) -> (r: bool)
        ensures
            r == self@.renders_signed_out(),
    {
        matches!(&self.status, AuthRuntimeStateKind::SignedOut | AuthRuntimeStateKind::Pending { .. })
    }

    /// Full clerk-js user details, available only after browser hydration.
    pub fn user(&self) -> (r: Option<&User>)
        ensures
            match self@.kind {
                RuntimeKind::SignedIn { user, .. } => r matches Some(u) && u@ == user,
                RuntimeKind::Pending { user, .. } => r matches Some(u) && u@ == user,
                _ => r is None,
            },
    {
        match &self.status {
            AuthRuntimeStateKind::SignedIn { user, .. } => Some(user),
            AuthRuntimeStateKind::Pending { user, .. } => Some(user),
            _ => None,
        }
    }

    /// Full clerk-js session details, including a pending session.
    pub fn session(&self) -> (r: Option<&Session>)
        ensures
            match self@.kind {
                RuntimeKind::SignedIn { session, .. } => r matches Some(s) && s@ == session,
                RuntimeKind::Pending { session, .. } => r matches Some(s) && s@ == session,
                _ => r is None,
            },
    {
        match &self.status {
            AuthRuntimeStateKind::SignedIn { session, .. } => Some(session),
            AuthRuntimeStateKind::Pending { session, .. } => Some(session),
            _ => None,
        }
    }

    /// Whether signed-in gating should render for this state and gate
    /// request. `permission` takes precedence when both gates are requested;
    /// `role` is ignored in that case.
    pub fn allows_signed_in_gate(&self, role: Option<&str>, permission: Option<&str>) -> (r: bool)
        ensures
            r == self@.allows_gate(opt_text(role), opt_text(permission)),
    {
        if !self.should_render_signed_in() {
            return false;
        }
        let role = if permission.is_some() {
            None
        } else {
            role
        };
        if role.is_none() && permission.is_none() {
            return true;
        }
        let org = match &self.status {
            AuthRuntimeStateKind::SignedInSnapshot { org, .. } => org,
            AuthRuntimeStateKind::SignedIn { org, .. } => org,
            _ => return false,
        };
        let role_allowed = match role {
            Some(required) => match &org.org_role {
                Some(actual) => same_text(actual.as_str(), required),
                None => false,
            },
            None => true,
        };
        let permission_allowed = match permission {
            Some(required) => contains_text(org.org_permissions.as_slice(), required),
            None => true,
        };
        role_allowed && permission_allowed
    }
}

/// A transient loading observation never disturbs a resolved signed-in or
/// pending session: users who already have an answer never see a loading
/// flash.
pub proof fn lemma_loading_keeps_resolved_session(state: AuthRuntimeView)
    requires
        state.is_signed_in() || state.is_pending(),
    ensures
        state.apply(AuthObservation::Loading) == state,
{
}

/// Observations never change browser loadedness.
pub proof fn lemma_observation_keeps_loadedness(state: AuthRuntimeView, observation: AuthObservation)
    ensures
        state.apply(observation).is_loaded == state.is_loaded,
{
}

/// `SignedIn` and `SignedOut` rendering never both show, and a loading state
/// shows neither.
pub proof fn lemma_render_gates_exclusive(state: AuthRuntimeView)
    ensures
        !(state.is_signed_in() && state.renders_signed_out()),
        state.kind is Loading ==> !state.is_signed_in() && !state.renders_signed_out(),
{
}

/// The app-visible state reads signed in exactly when the runtime state holds
/// signed-in knowledge, and it is always well formed (a user id exactly when
/// signed in); its loadedness is the runtime's.
pub proof fn lemma_to_state_agrees(state: AuthRuntimeView)
    ensures
        (state.to_state().status == AuthStatus::SignedIn) == state.is_signed_in(),
        state.to_state().well_formed(),
        state.to_state().is_loaded == state.is_loaded,
        state.is_pending() ==> state.to_state().status == AuthStatus::SignedOut,
{
}

/// A gate with any role or permission renders only for a signed-in state.
pub proof fn lemma_gate_needs_signed_in(
    state: AuthRuntimeView,
    role: Option<Seq<char>>,
    permission: Option<Seq<char>>,
)
    ensures
        state.allows_gate(role, permission) ==> state.is_signed_in(),
{
}

/// Verified organization claims survive a fresh signed-in observation only
/// when the previous state knew the same user, the same session and the same
/// active organization; otherwise the new state carries none.
pub proof fn lemma_org_claims_need_same_identity(
    state: AuthRuntimeView,
    user: User,
    session: Session,
)
    ensures
        ({
            let next = state.apply(AuthObservation::SignedIn { user, session });
            ||| next.org() == OrgView::none()
            ||| {
                &&& next.org() == state.org()
                &&& state.is_signed_in()
                &&& state.to_state().user_id == Some(user@.id)
                &&& state.to_state().session_id == Some(session@.id)
                &&& state.org().org_id == session@.last_active_organization_id
            }
        }),
{
}

/// A fresh signed-in clerk-js observation of `user` and `session` (as
/// [`AuthRuntimeState::from_js_session`] and a signed-in observation build it)
/// reads as signed in with that user and session and the given loadedness.
/// It keeps the previous state's verified org claims exactly when the
/// previous state read as signed in with the same user id, the same session
/// id and the same active organization; otherwise it carries none.
pub proof fn lemma_signed_in_observation_state(
    previous: AuthRuntimeView,
    user: UserView,
    session: SessionView,
    is_loaded: bool,
)
    ensures
        ({
            let p = previous.to_state();
            let next = AuthRuntimeView {
                kind: RuntimeKind::SignedIn {
                    user,
                    session,
                    org: carried_org(previous.kind, user, session),
                },
                is_loaded,
            };
            let s = next.to_state();
            let same = p.status == AuthStatus::SignedIn && p.user_id == Some(user.id) && p.session_id
                == Some(session.id) && p.org_id == session.last_active_organization_id;
            &&& s.status == AuthStatus::SignedIn
            &&& s.is_loaded == is_loaded
            &&& s.user_id == Some(user.id)
            &&& s.session_id == Some(session.id)
            &&& if same {
                &&& s.org_id == p.org_id
                &&& s.org_slug == p.org_slug
                &&& s.org_role == p.org_role
                &&& s.org_permissions == p.org_permissions
            } else {
                &&& s.org_id is None
                &&& s.org_slug is None
                &&& s.org_role is None
                &&& s.org_permissions == Seq::<Seq<char>>::empty()
            }
        }),
{
}

/// With `treat_pending_as_signed_out` on, or for any state that is not
/// pending, resolving leaves the state unchanged. A pending session read as
/// signed in carries no verified role or permission, so role and permission
/// gates still fail closed.
pub proof fn lemma_resolve_pending(
    state: AuthRuntimeView,
    treat_pending_as_signed_out: bool,
    role: Seq<char>,
    permission: Seq<char>,
)
    ensures
        state.resolve_pending(true) == state,
        !state.is_pending() ==> state.resolve_pending(treat_pending_as_signed_out) == state,
        state.is_pending() ==> {
            &&& state.resolve_pending(false).is_signed_in()
            &&& !state.resolve_pending(false).allows_gate(Some(role), None)
            &&& !state.resolve_pending(false).allows_gate(None, Some(permission))
        },
{
}

/// An SSR snapshot seeds a signed-out client state only when the server
/// verified the request as signed out: an unverified or malformed snapshot
/// never flashes signed-out UI. Seeded states are never loaded.
pub proof fn lemma_snapshot_seed(snapshot: InitialAuthSnapshot)
    ensures
        runtime_from_snapshot(snapshot).renders_signed_out() == (snapshot.status
            == InitialAuthStatus::SignedOut),
        !runtime_from_snapshot(snapshot).is_loaded,
        runtime_from_snapshot(snapshot).is_signed_in() ==> snapshot.status
            == InitialAuthStatus::SignedIn,
{
}

} // verus!
