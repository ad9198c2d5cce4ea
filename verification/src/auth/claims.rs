//! Verified Clerk session claims.
use vstd::prelude::*;

use super::auth_state::AuthRequirement;
use crate::text::{clone_opt_string, clone_strings, contains_text, same_text};

verus! {

/// Verified claims from a Clerk session JWT.
///
/// Organization claims are flattened so downstream code can read
/// `org_id`/`org_role`/`org_permissions` directly.
#[derive(Debug, PartialEq, Eq)]
#[non_exhaustive]
pub struct ClerkAuth {
    /// Clerk user id (subject).
    pub user_id: String,
    /// Active session id.
    pub session_id: Option<String>,
    /// Active organization id (when the session is org-scoped).
    pub org_id: Option<String>,
    /// Active organization slug, if Clerk provided one.
    pub org_slug: Option<String>,
    /// Organization role in Clerk's `org:<role>` form.
    pub org_role: Option<String>,
    /// Custom organization permissions in Clerk's `org:<feature>:<permission>` form.
    pub org_permissions: Vec<String>,
    /// Expiry (unix seconds).
    pub exp: i64,
    /// Not-before (unix seconds).
    pub nbf: i64,
    /// Issued-at (unix seconds).
    pub iat: i64,
}

impl ClerkAuth {
    /// Whether the claims carry the given role.
    pub open spec fn spec_has_role(self, role: Seq<char>) -> bool {
        self.org_role.deep_view() == Some(role)
    }

    /// Whether the claims carry the given permission.
    pub open spec fn spec_has_permission(self, permission: Seq<char>) -> bool {
        self.org_permissions.deep_view().contains(permission)
    }

    /// Whether the claims satisfy an authorization requirement; verified
    /// claims always represent a signed-in user.
    pub open spec fn satisfies(self, requirement: AuthRequirement) -> bool {
        match requirement {
            AuthRequirement::SignedIn => true,
            AuthRequirement::Role(role) => self.spec_has_role(role@),
            AuthRequirement::Permission(permission) => self.spec_has_permission(permission@),
        }
    }

    /// Creates claims for the given Clerk user id and expiry (`exp`, unix
    /// seconds), with all optional claims unset and `nbf`/`iat` zero.
    pub fn new(user_id: &str, exp: i64) -> (r: Self)
        ensures
            r.user_id@ == user_id@,
            r.session_id is None,
            r.org_id is None,
            r.org_slug is None,
            r.org_role is None,
            r.org_permissions@.len() == 0,
            r.exp == exp,
            r.nbf == 0,
            r.iat == 0,
    {
        ClerkAuth {
            user_id: user_id.to_owned(),
            session_id: None,
            org_id: None,
            org_slug: None,
            org_role: None,
            org_permissions: Vec::new(),
            exp,
            nbf: 0,
            iat: 0,
        }
    }

    /// True if the claims include the given permission.
    pub fn has_permission(&self, permission: &str) -> (r: bool)
        ensures
            r == self.spec_has_permission(permission@),
            r == exists|i: int| 0 <= i < self.org_permissions@.len() && #[trigger] self.org_permissions@[i]@ == permission@,
    {
        proof {
            lemma_claims_permission_is_listed(*self, permission@);
        }
        contains_text(self.org_permissions.as_slice(), permission)
    }

    /// True if the claims indicate the given org role.
    pub fn has_role(&self, role: &str) -> (r: bool)
        ensures
            r == self.spec_has_role(role@),
            r == (self.org_role matches Some(own) && own@ == role@),
    {
        match &self.org_role {
            Some(own) => same_text(own.as_str(), role),
            None => false,
        }
    }

    /// True if these verified claims satisfy an authorization requirement.
    pub fn has(&self, requirement: &AuthRequirement) -> (r: bool)
        ensures
            r == self.satisfies(*requirement),
            match requirement {
                AuthRequirement::SignedIn => r,
                AuthRequirement::Role(role) => r == (self.org_role matches Some(own) && own@ == role@),
                AuthRequirement::Permission(p) => r == exists|i: int|
                    0 <= i < self.org_permissions@.len() && #[trigger] self.org_permissions@[i]@ == p@,
            },
    {
        match requirement {
            AuthRequirement::SignedIn => true,
            AuthRequirement::Role(role) => self.has_role(role.as_str()),
            AuthRequirement::Permission(permission) => self.has_permission(permission.as_str()),
        }
    }
}

impl ClerkAuth {
    /// Two claim sets with the same content.
    pub open spec fn same_as(self, other: ClerkAuth) -> bool {
        &&& self.user_id@ == other.user_id@
        &&& self.session_id.deep_view() == other.session_id.deep_view()
        &&& self.org_id.deep_view() == other.org_id.deep_view()
        &&& self.org_slug.deep_view() == other.org_slug.deep_view()
        &&& self.org_role.deep_view() == other.org_role.deep_view()
        &&& self.org_permissions.deep_view() == other.org_permissions.deep_view()
        &&& self.exp == other.exp
        &&& self.nbf == other.nbf
        &&& self.iat == other.iat
    }
}

impl Clone for ClerkAuth {
    fn clone(&self) -> (r: Self)
        ensures
            r.same_as(*self),
    {
        ClerkAuth {
            user_id: self.user_id.clone(),
            session_id: clone_opt_string(&self.session_id),
            org_id: clone_opt_string(&self.org_id),
            org_slug: clone_opt_string(&self.org_slug),
            org_role: clone_opt_string(&self.org_role),
            org_permissions: clone_strings(&self.org_permissions),
            exp: self.exp,
            nbf: self.nbf,
            iat: self.iat,
        }
    }
}

/// Verified claims carry a role exactly when their `org_role` is that very
/// role: no other role is granted, so claims carry at most one role, and
/// claims without a role carry none.
pub proof fn lemma_claims_role_is_exact(c: ClerkAuth, role: Seq<char>, other: Seq<char>, requirement: AuthRequirement)
    ensures
        c.spec_has_role(role) <==> (c.org_role matches Some(own) && own@ == role),
        requirement matches AuthRequirement::Role(r) ==> (c.satisfies(requirement) <==> (c.org_role matches Some(
            own,
        ) && own@ == r@)),
        requirement matches AuthRequirement::Permission(p) ==> (c.satisfies(requirement) <==> exists|i: int|
            0 <= i < c.org_permissions@.len() && #[trigger] c.org_permissions@[i]@ == p@),
        c.spec_has_role(role) && c.spec_has_role(other) ==> role == other,
        c.org_role is None ==> !c.spec_has_role(role),
{
    if let AuthRequirement::Permission(p) = requirement {
        lemma_claims_permission_is_listed(c, p@);
    }
}

/// Verified claims carry a permission exactly when it is one of their
/// `org_permissions`: a permission listed nowhere is never granted, and
/// claims without permissions grant none.
pub proof fn lemma_claims_permission_is_listed(c: ClerkAuth, permission: Seq<char>)
    ensures
        c.spec_has_permission(permission) <==> exists|i: int|
            0 <= i < c.org_permissions@.len() && #[trigger] c.org_permissions@[i]@ == permission,
        c.org_permissions@.len() == 0 ==> !c.spec_has_permission(permission),
{
    if c.spec_has_permission(permission) {
        let k = choose|k: int| 0 <= k < c.org_permissions.deep_view().len() && c.org_permissions.deep_view()[k] == permission;
        assert(c.org_permissions@[k]@ == permission);
    }
    if exists|i: int| 0 <= i < c.org_permissions@.len() && #[trigger] c.org_permissions@[i]@ == permission {
        let i = choose|i: int| 0 <= i < c.org_permissions@.len() && #[trigger] c.org_permissions@[i]@ == permission;
        assert(c.org_permissions.deep_view()[i] == permission);
    }
}

} // verus!
