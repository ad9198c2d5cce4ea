//! Auth state: the app-visible authentication knowledge consumed by
//! components and hooks.
use vstd::prelude::*;

use super::claims::ClerkAuth;
use super::error::ClerkError;
use crate::text::{clone_opt_string, clone_strings, opt_text};

verus! {

/// Resolved authentication status for app-facing rendering decisions.
#[derive(Debug, Clone, Copy, Default, PartialEq, Eq, Hash, Structural)]
#[non_exhaustive]
pub enum AuthStatus {
    /// Clerk has not supplied a reliable auth answer yet.
    #[default]
    Loading,
    /// Clerk has resolved and no active session is known.
    SignedOut,
    /// A signed-in session is known, either from SSR initial state or clerk-js.
    SignedIn,
}

impl AuthStatus {
    /// True while auth has not resolved to signed-in or signed-out yet.
    pub fn is_loading(self) -> (r: bool)
        ensures
            r == (self == AuthStatus::Loading),
    {
        matches!(self, AuthStatus::Loading)
    }

    /// True only when auth has resolved and no active session is known.
    pub fn is_signed_out(self) -> (r: bool)
        ensures
            r == (self == AuthStatus::SignedOut),
    {
        matches!(self, AuthStatus::SignedOut)
    }

    /// True when a signed-in session is known.
    pub fn is_signed_in(self) -> (r: bool)
        ensures
            r == (self == AuthStatus::SignedIn),
    {
        matches!(self, AuthStatus::SignedIn)
    }
}

/// Client-side rendering authorization check.
#[derive(Debug, PartialEq, Eq)]
#[non_exhaustive]
pub enum AuthRequirement {
    /// Require any signed-in session.
    SignedIn,
    /// Require a server-verified organization role.
    Role(String),
    /// Require a server-verified organization permission.
    Permission(String),
}

impl AuthRequirement {
    /// Require any signed-in session.
    pub fn signed_in() -> (r: Self)
        ensures
            r == AuthRequirement::SignedIn,
    {
        AuthRequirement::SignedIn
    }

    /// Require a server-verified organization role.
    pub fn role(role: &str) -> (r: Self)
        ensures
            r matches AuthRequirement::Role(s) && s@ == role@,
    {
        AuthRequirement::Role(role.to_owned())
    }

    /// Require a server-verified organization permission.
    pub fn permission(permission: &str) -> (r: Self)
        ensures
            r matches AuthRequirement::Permission(s) && s@ == permission@,
    {
        AuthRequirement::Permission(permission.to_owned())
    }
}

/// The mathematical content of an [`AuthState`].
pub struct AuthStateView {
    pub status: AuthStatus,
    pub is_loaded: bool,
    pub user_id: Option<Seq<char>>,
    pub session_id: Option<Seq<char>>,
    pub org_id: Option<Seq<char>>,
    pub org_slug: Option<Seq<char>>,
    pub org_role: Option<Seq<char>>,
    pub org_permissions: Seq<Seq<char>>,
}

impl AuthStateView {
    /// `status` is the single source of truth: a user id is present exactly
    /// when the state is signed in.
    pub open spec fn well_formed(self) -> bool {
        (self.status == AuthStatus::SignedIn) == (self.user_id is Some)
    }

    /// A signed-in state names its user: the state is signed in exactly when
    /// it carries a non-empty user id. Every constructor of [`AuthState`]
    /// gives such a state and every `with_*` setter keeps it one.
    pub open spec fn names_signed_in_user(self) -> bool {
        (self.status == AuthStatus::SignedIn) == (self.user_id matches Some(u) && u.len() > 0)
    }

    /// The signed-out view with the given loadedness.
    pub open spec fn signed_out_with(status: AuthStatus, is_loaded: bool) -> AuthStateView {
        AuthStateView {
            status,
            is_loaded,
            user_id: None,
            session_id: None,
            org_id: None,
            org_slug: None,
            org_role: None,
            org_permissions: Seq::empty(),
        }
    }

    /// Whether the view carries the given role.
    pub open spec fn has_role(self, role: Seq<char>) -> bool {
        self.org_role == Some(role)
    }

    /// Whether the view carries the given permission.
    pub open spec fn has_permission(self, permission: Seq<char>) -> bool {
        self.org_permissions.contains(permission)
    }

    /// Whether the view satisfies a rendering requirement.
    pub open spec fn satisfies(self, requirement: AuthRequirement) -> bool {
        self.status == AuthStatus::SignedIn && match requirement {
            AuthRequirement::SignedIn => true,
            AuthRequirement::Role(role) => self.has_role(role@),
            AuthRequirement::Permission(permission) => self.has_permission(permission@),
        }
    }
}

/// App-visible authentication state for components and hooks.
///
/// [`status`](AuthState::status) is the single source of truth for the
/// signed-in answer; the fields are private so `status` and `user_id` cannot
/// be mutated out of step with each other.
#[derive(Debug, PartialEq, Eq)]
#[non_exhaustive]
pub struct AuthState {
    status: AuthStatus,
    is_loaded: bool,
    user_id: Option<String>,
    session_id: Option<String>,
    org_id: Option<String>,
    org_slug: Option<String>,
    org_role: Option<String>,
    org_permissions: Vec<String>,
}

impl View for AuthState {
    type V = AuthStateView;

    closed spec fn view(&self) -> AuthStateView {
        AuthStateView {
            status: self.status,
            is_loaded: self.is_loaded,
            user_id: self.user_id.deep_view(),
            session_id: self.session_id.deep_view(),
            org_id: self.org_id.deep_view(),
            org_slug: self.org_slug.deep_view(),
            org_role: self.org_role.deep_view(),
            org_permissions: self.org_permissions.deep_view(),
        }
    }
}

impl AuthState {
    #[verifier::type_invariant]
    spec fn inv(self) -> bool {
        (self.status == AuthStatus::SignedIn) == (self.user_id is Some)
    }

    /// Assembles a state from its parts; `user_id` must be present exactly
    /// when `status` is signed in.
    pub(crate) fn from_parts(
        status: AuthStatus,
        is_loaded: bool,
        user_id: Option<String>,
        session_id: Option<String>,
        org_id: Option<String>,
        org_slug: Option<String>,
        org_role: Option<String>,
        org_permissions: Vec<String>,
    ) -> (r: Self)
        requires
            (status == AuthStatus::SignedIn) == (user_id is Some),
        ensures
            r@ == (AuthStateView {
                status,
                is_loaded,
                user_id: user_id.deep_view(),
                session_id: session_id.deep_view(),
                org_id: org_id.deep_view(),
                org_slug: org_slug.deep_view(),
                org_role: org_role.deep_view(),
                org_permissions: org_permissions.deep_view(),
            }),
    {
        AuthState {
            status,
            is_loaded,
            user_id,
            session_id,
            org_id,
            org_slug,
            org_role,
            org_permissions,
        }
    }

    /// Auth state before Clerk has supplied a reliable answer.
    pub fn loading() -> (r: Self)
        ensures
            r@.names_signed_in_user(),
            r@ == AuthStateView::signed_out_with(AuthStatus::Loading, false),
    {
        let r = AuthState::from_parts(AuthStatus::Loading, false, None, None, None, None, None, Vec::new());
        assert(r@.org_permissions =~= Seq::<Seq<char>>::empty());
        r
    }

    /// Auth state representing a resolved signed-out session.
    ///
    /// `is_loaded` stays `false`: browser loadedness is client lifecycle
    /// state, not part of the auth answer.
    pub fn signed_out() -> (r: Self)
        ensures
            r@.names_signed_in_user(),
            r@ == AuthStateView::signed_out_with(AuthStatus::SignedOut, false),
    {
        let r = AuthState::from_parts(AuthStatus::SignedOut, false, None, None, None, None, None, Vec::new());
        assert(r@.org_permissions =~= Seq::<Seq<char>>::empty());
        r
    }

    /// Auth state representing a signed-in session for the given user id.
    ///
    /// An empty user id cannot represent a signed-in session and produces
    /// [`AuthState::signed_out`].
    pub fn signed_in(user_id: &str) -> (r: Self)
        ensures
            r@.names_signed_in_user(),
            user_id@.len() == 0 ==> r@ == AuthStateView::signed_out_with(AuthStatus::SignedOut, false),
            user_id@.len() > 0 ==> r@ == (AuthStateView {
                status: AuthStatus::SignedIn,
                user_id: Some(user_id@),
                ..AuthStateView::signed_out_with(AuthStatus::SignedIn, false)
            }),
    {
        if user_id.is_empty() {
            return AuthState::signed_out();
        }
        let r = AuthState::from_parts(
            AuthStatus::SignedIn,
            false,
            Some(user_id.to_owned()),
            None,
            None,
            None,
            None,
            Vec::new(),
        );
        assert(r@.org_permissions =~= Seq::<Seq<char>>::empty());
        r
    }

    /// Set whether clerk-js has finished loading on the client.
    pub fn with_loaded(self, is_loaded: bool) -> (r: Self)
        ensures
            self@.names_signed_in_user() ==> r@.names_signed_in_user(),
            r@ == (AuthStateView { is_loaded, ..self@ }),
    {
        proof {
            use_type_invariant(&self);
        }
        let mut s = self;
        s.is_loaded = is_loaded;
        s
    }

    /// Set the active session id.
    pub fn with_session_id(self, session_id: &str) -> (r: Self)
        ensures
            self@.names_signed_in_user() ==> r@.names_signed_in_user(),
            r@ == (AuthStateView { session_id: Some(session_id@), ..self@ }),
    {
        proof {
            use_type_invariant(&self);
        }
        let mut s = self;
        s.session_id = Some(session_id.to_owned());
        s
    }

    /// Set the active organization id.
    pub fn with_org_id(self, org_id: &str) -> (r: Self)
        ensures
            self@.names_signed_in_user() ==> r@.names_signed_in_user(),
            r@ == (AuthStateView { org_id: Some(org_id@), ..self@ }),
    {
        proof {
            use_type_invariant(&self);
        }
        let mut s = self;
        s.org_id = Some(org_id.to_owned());
        s
    }

    /// Set the active organization slug.
    pub fn with_org_slug(self, org_slug: &str) -> (r: Self)
        ensures
            self@.names_signed_in_user() ==> r@.names_signed_in_user(),
            r@ == (AuthStateView { org_slug: Some(org_slug@), ..self@ }),
    {
        proof {
            use_type_invariant(&self);
        }
        let mut s = self;
        s.org_slug = Some(org_slug.to_owned());
        s
    }

    /// Set the organization role from verified server auth.
    pub fn with_org_role(self, org_role: &str) -> (r: Self)
        ensures
            self@.names_signed_in_user() ==> r@.names_signed_in_user(),
            r@ == (AuthStateView { org_role: Some(org_role@), ..self@ }),
    {
        proof {
            use_type_invariant(&self);
        }
        let mut s = self;
        s.org_role = Some(org_role.to_owned());
        s
    }

    /// Set the organization permissions from verified server auth.
    pub fn with_org_permissions(self, org_permissions: &[&str]) -> (r: Self)
        ensures
            self@.names_signed_in_user() ==> r@.names_signed_in_user(),
            r@ == (AuthStateView { org_permissions: org_permissions.deep_view(), ..self@ }),
    {
        let mut perms: Vec<String> = Vec::new();
        let mut i: usize = 0;
        while i < org_permissions.len()
            invariant
                i <= org_permissions@.len(),
                perms.deep_view() =~= org_permissions.deep_view().take(i as int),
            decreases org_permissions@.len() - i,
        {
            let ghost before = perms.deep_view();
            perms.push(org_permissions[i].to_owned());
            assert(perms.deep_view() =~= before.push(org_permissions[i as int]@));
            assert(org_permissions.deep_view().take(i + 1) =~= org_permissions.deep_view().take(i as int).push(org_permissions[i as int]@));
            i = i + 1;
        }
        assert(org_permissions.deep_view().take(org_permissions@.len() as int) =~= org_permissions.deep_view());
        proof {
            use_type_invariant(&self);
        }
        let mut s = self;
        s.org_permissions = perms;
        s
    }

    /// Explicit auth resolution status.
    pub fn status(&self) -> (r: AuthStatus)
        ensures
            r == self@.status,
    {
        self.status
    }

    /// Whether clerk-js has finished loading on the client.
    pub fn is_loaded(&self) -> (r: bool)
        ensures
            r == self@.is_loaded,
    {
        self.is_loaded
    }

    /// Clerk user id, if signed in.
    pub fn user_id(&self) -> (r: Option<&str>)
        ensures
            opt_text(r) == self@.user_id,
            (r is Some) == (self@.status == AuthStatus::SignedIn),
    {
        proof {
            use_type_invariant(self);
        }
        crate::text::opt_as_str(&self.user_id)
    }

    /// Active session id, if any.
    pub fn session_id(&self) -> (r: Option<&str>)
        ensures
            opt_text(r) == self@.session_id,
    {
        crate::text::opt_as_str(&self.session_id)
    }

    /// Org id from verified server auth, if any.
    pub fn org_id(&self) -> (r: Option<&str>)
        ensures
            opt_text(r) == self@.org_id,
    {
        crate::text::opt_as_str(&self.org_id)
    }

    /// Org slug from verified server auth, if any.
    pub fn org_slug(&self) -> (r: Option<&str>)
        ensures
            opt_text(r) == self@.org_slug,
    {
        crate::text::opt_as_str(&self.org_slug)
    }

    /// Org role from verified server auth, if any.
    pub fn org_role(&self) -> (r: Option<&str>)
        ensures
            opt_text(r) == self@.org_role,
    {
        crate::text::opt_as_str(&self.org_role)
    }

    /// Org permissions from verified server auth.
    pub fn org_permissions(&self) -> (r: &[String])
        ensures
            r.deep_view() == self@.org_permissions,
    {
        self.org_permissions.as_slice()
    }

    /// True when a signed-in session is known.
    pub fn is_signed_in(&self) -> (r: bool)
        ensures
            r == (self@.status == AuthStatus::SignedIn),
    {
        self.status.is_signed_in()
    }

    /// True while auth has not resolved to signed-in or signed-out yet.
    pub fn is_loading(&self) -> (r: bool)
        ensures
            r == (self@.status == AuthStatus::Loading),
    {
        self.status.is_loading()
    }

    /// True only when auth has resolved and no active session is known.
    pub fn is_signed_out(&self) -> (r: bool)
        ensures
            r == (self@.status == AuthStatus::SignedOut),
    {
        self.status.is_signed_out()
    }

    /// Return the user id for signed-in auth state.
    ///
    /// [`ClerkError::NotLoaded`] while auth has not resolved yet,
    /// [`ClerkError::Unauthenticated`] once auth has resolved without a
    /// signed-in user.
    pub fn require_signed_in(&self) -> (r: Result<&str, ClerkError>)
        ensures
            self@.status == AuthStatus::Loading ==> r == Err::<&str, ClerkError>(ClerkError::NotLoaded),
            self@.status == AuthStatus::SignedOut ==> r == Err::<&str, ClerkError>(ClerkError::Unauthenticated),
            self@.status == AuthStatus::SignedIn ==> (r matches Ok(id) && self@.user_id == Some(id@)),
    {
        proof {
            use_type_invariant(self);
        }
        if self.status.is_loading() {
            return Err(ClerkError::NotLoaded);
        }
        if !self.status.is_signed_in() {
            return Err(ClerkError::Unauthenticated);
        }
        match &self.user_id {
            Some(id) => Ok(id.as_str()),
            None => Err(ClerkError::Unauthenticated),
        }
    }

    /// True if the auth state includes the given server-verified org role.
    pub fn has_role(&self, role: &str) -> (r: bool)
        ensures
            r == self@.has_role(role@),
            r == (self@.org_role == Some(role@)),
    {
        match &self.org_role {
            Some(own) => crate::text::same_text(own.as_str(), role),
            None => false,
        }
    }

    /// True if the auth state includes the given server-verified org permission.
    pub fn has_permission(&self, permission: &str) -> (r: bool)
        ensures
            r == self@.has_permission(permission@),
            r == exists|i: int| 0 <= i < self@.org_permissions.len() && #[trigger] self@.org_permissions[i] == permission@,
    {
        proof {
            lemma_state_permission_is_listed(self@, permission@);
        }
        crate::text::contains_text(self.org_permissions.as_slice(), permission)
    }

    /// True if the auth state satisfies a rendering auth requirement.
    ///
    /// Role and permission requirements imply a signed-in session; they are
    /// never satisfied by a loading or signed-out state.
    pub fn has(&self, requirement: &AuthRequirement) -> (r: bool)
        ensures
            r == self@.satisfies(*requirement),
            r ==> self@.status == AuthStatus::SignedIn,
            match requirement {
                AuthRequirement::SignedIn => r == (self@.status == AuthStatus::SignedIn),
                AuthRequirement::Role(role) => r == (self@.status == AuthStatus::SignedIn && self@.org_role == Some(
                    role@,
                )),
                AuthRequirement::Permission(p) => r == (self@.status == AuthStatus::SignedIn && exists|i: int|
                    0 <= i < self@.org_permissions.len() && #[trigger] self@.org_permissions[i] == p@),
            },
    {
        proof {
            lemma_state_requirement_is_exact(self@, *requirement);
        }
        if !self.is_signed_in() {
            return false;
        }
        match requirement {
            AuthRequirement::SignedIn => true,
            AuthRequirement::Role(role) => self.has_role(role.as_str()),
            AuthRequirement::Permission(permission) => self.has_permission(permission.as_str()),
        }
    }

    /// Converts server-verified claims into app-visible auth state.
    ///
    /// `is_loaded` stays `false`: these claims come from the server, where
    /// clerk-js does not exist. An empty user id produces the signed-out state.
    pub fn from_clerk_auth(c: &ClerkAuth) -> (r: Self)
        ensures
            r@.names_signed_in_user(),
            r@ == AuthStateView::from_auth(*c),
    {
        if c.user_id.as_str().is_empty() {
            return AuthState::signed_out();
        }
        AuthState::from_parts(
            AuthStatus::SignedIn,
            false,
            Some(c.user_id.clone()),
            clone_opt_string(&c.session_id),
            clone_opt_string(&c.org_id),
            clone_opt_string(&c.org_slug),
            clone_opt_string(&c.org_role),
            clone_strings(&c.org_permissions),
        )
    }
}

impl AuthStateView {
    /// The view of the auth state that verified claims produce.
    pub open spec fn from_auth(c: ClerkAuth) -> AuthStateView {
        if c.user_id@.len() == 0 {
            AuthStateView::signed_out_with(AuthStatus::SignedOut, false)
        } else {
            AuthStateView {
                status: AuthStatus::SignedIn,
                is_loaded: false,
                user_id: Some(c.user_id@),
                session_id: c.session_id.deep_view(),
                org_id: c.org_id.deep_view(),
                org_slug: c.org_slug.deep_view(),
                org_role: c.org_role.deep_view(),
                org_permissions: c.org_permissions.deep_view(),
            }
        }
    }
}

impl Clone for AuthRequirement {
    fn clone(&self) -> (r: Self)
        ensures
            r == *self,
    {
        match self {
            AuthRequirement::SignedIn => AuthRequirement::SignedIn,
            AuthRequirement::Role(s) => AuthRequirement::Role(s.clone()),
            AuthRequirement::Permission(s) => AuthRequirement::Permission(s.clone()),
        }
    }
}

impl Clone for AuthState {
    fn clone(&self) -> (r: Self)
        ensures
            r@ == self@,
    {
        proof {
            use_type_invariant(self);
        }
        AuthState::from_parts(
            self.status,
            self.is_loaded,
            clone_opt_string(&self.user_id),
            clone_opt_string(&self.session_id),
            clone_opt_string(&self.org_id),
            clone_opt_string(&self.org_slug),
            clone_opt_string(&self.org_role),
            clone_strings(&self.org_permissions),
        )
    }
}

/// An auth state carries a role exactly when its `org_role` is that very
/// role, so it carries at most one role and none without a role.
pub proof fn lemma_state_role_is_exact(v: AuthStateView, role: Seq<char>, other: Seq<char>)
    ensures
        v.has_role(role) <==> v.org_role == Some(role),
        v.has_role(role) && v.has_role(other) ==> role == other,
        v.org_role is None ==> !v.has_role(role),
{
}

/// An auth state carries a permission exactly when it is one of its
/// `org_permissions`; a state without permissions carries none.
pub proof fn lemma_state_permission_is_listed(v: AuthStateView, permission: Seq<char>)
    ensures
        v.has_permission(permission) <==> exists|i: int|
            0 <= i < v.org_permissions.len() && #[trigger] v.org_permissions[i] == permission,
        v.org_permissions.len() == 0 ==> !v.has_permission(permission),
{
}

/// A rendering requirement holds only for a signed-in state: a role
/// requirement exactly when the state's `org_role` is that role, a
/// permission requirement exactly when the permission is listed.
pub proof fn lemma_state_requirement_is_exact(v: AuthStateView, requirement: AuthRequirement)
    ensures
        v.satisfies(requirement) ==> v.status == AuthStatus::SignedIn,
        match requirement {
            AuthRequirement::SignedIn => v.satisfies(requirement) == (v.status == AuthStatus::SignedIn),
            AuthRequirement::Role(role) => v.satisfies(requirement) == (v.status == AuthStatus::SignedIn
                && v.org_role == Some(role@)),
            AuthRequirement::Permission(p) => v.satisfies(requirement) == (v.status == AuthStatus::SignedIn
                && exists|i: int| 0 <= i < v.org_permissions.len() && #[trigger] v.org_permissions[i] == p@),
        },
{
    if let AuthRequirement::Permission(p) = requirement {
        lemma_state_permission_is_listed(v, p@);
    }
}

} // verus!
