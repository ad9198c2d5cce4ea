//! A Clerk session to mint a test token for, and the claim set it
//! serializes to.
use vstd::prelude::*;

use std::time::Duration;

use super::{
    features_text, first_malformed, masks_text, pair_features, pair_verbs, permission_pairs,
    too_many_permissions_message, join_with, PackedPermissions, TestIssuerError,
};
use crate::duration::{duration_whole_seconds, whole_seconds};
use crate::json::{clone_value, members_map};
use crate::server::config::owned_strings;
use crate::text::{clone_opt_string, clone_strings, push_str};

verus! {

broadcast use vstd::string::group_string_axioms;

/// How long a minted token lives by default, in seconds: Clerk's own
/// session token TTL.
pub const DEFAULT_SESSION_LIFETIME_SECS: u64 = 60;

/// A point in time of std's system clock.
#[verifier::external_type_specification]
#[verifier::external_body]
pub struct ExSystemTime(std::time::SystemTime);

/// `SystemTime::now()`: the system clock's reading. Nothing is stated of it.
#[verifier::external_body]
fn system_now() -> (r: std::time::SystemTime) {
    std::time::SystemTime::now()
}

/// `SystemTime::duration_since(UNIX_EPOCH)`: how long after the Unix epoch
/// `time` is, or `None` for a time before it. Nothing is stated of which.
#[verifier::external_body]
fn since_unix_epoch(time: &std::time::SystemTime) -> (r: Option<Duration>) {
    time.duration_since(std::time::UNIX_EPOCH).ok()
}

/// Whole seconds since the Unix epoch by the system clock, clamped to
/// `i64::MAX`, or 0 for a clock set before the epoch.
fn unix_now() -> (r: i64)
    ensures
        r >= 0,
{
    let now = system_now();
    match since_unix_epoch(&now) {
        Some(elapsed) => {
            let secs = whole_seconds(&elapsed);
            if secs <= i64::MAX as u64 {
                secs as i64
            } else {
                i64::MAX
            }
        },
        None => 0,
    }
}

/// The mathematical content of a [`ClaimValue`].
pub enum ClaimView {
    Text(Seq<char>),
    Number(i64),
    TextList(Seq<Seq<char>>),
    TextObject(Seq<(Seq<char>, Seq<char>)>),
    Json(serde_json::Value),
}

/// The value of one claim of a minted token.
#[derive(Debug)]
pub enum ClaimValue {
    /// A JSON string.
    Text(String),
    /// A JSON integer.
    Number(i64),
    /// A JSON array of strings.
    TextList(Vec<String>),
    /// A JSON object of string members, in insertion order.
    TextObject(Vec<(String, String)>),
    /// A caller-supplied JSON value, passed through untouched.
    Json(serde_json::Value),
}

impl View for ClaimValue {
    type V = ClaimView;

    open spec fn view(&self) -> ClaimView {
        match self {
            ClaimValue::Text(s) => ClaimView::Text(s@),
            ClaimValue::Number(n) => ClaimView::Number(*n),
            ClaimValue::TextList(items) => ClaimView::TextList(items.deep_view()),
            ClaimValue::TextObject(members) => ClaimView::TextObject(
                members@.map_values(|m: (String, String)| (m.0@, m.1@)),
            ),
            ClaimValue::Json(value) => ClaimView::Json(*value),
        }
    }
}

/// The claims of a list, by name and value view, in order.
pub open spec fn claim_views(claims: Seq<(String, ClaimValue)>) -> Seq<(Seq<char>, ClaimView)> {
    claims.map_values(|c: (String, ClaimValue)| (c.0@, c.1@))
}

/// The mathematical content of a [`TestSession`].
pub struct TestSessionView {
    pub user_id: Seq<char>,
    pub session_id: Option<Seq<char>>,
    pub issuer: Option<Seq<char>>,
    pub audience: Option<Seq<char>>,
    pub authorized_party: Option<Seq<char>>,
    pub issued_at: Option<i64>,
    pub not_before: Option<i64>,
    pub expires_at: Option<i64>,
    pub lifetime_secs: u64,
    pub organization_id: Option<Seq<char>>,
    pub organization_slug: Option<Seq<char>>,
    pub organization_role: Option<Seq<char>>,
    pub organization_permissions: Seq<Seq<char>>,
    pub v1_organization_claims: bool,
    pub extra_claims: Seq<(Seq<char>, serde_json::Value)>,
}

/// A Clerk session to mint a token for.
///
/// Defaults to a currently-valid personal-account session: a `sid`, an `iat`
/// and `nbf` of now, and an `exp` one minute out. Every part is overridable,
/// including into shapes the verifier is supposed to reject — see
/// [`expired`](Self::expired) and
/// [`without_session_id`](Self::without_session_id).
#[derive(Debug)]
pub struct TestSession {
    user_id: String,
    session_id: Option<String>,
    issuer: Option<String>,
    audience: Option<String>,
    authorized_party: Option<String>,
    issued_at: Option<i64>,
    not_before: Option<i64>,
    expires_at: Option<i64>,
    lifetime_secs: u64,
    organization_id: Option<String>,
    organization_slug: Option<String>,
    organization_role: Option<String>,
    organization_permissions: Vec<String>,
    v1_organization_claims: bool,
    extra_claims: Vec<(String, serde_json::Value)>,
}

impl View for TestSession {
    type V = TestSessionView;

    closed spec fn view(&self) -> TestSessionView {
        TestSessionView {
            user_id: self.user_id@,
            session_id: self.session_id.deep_view(),
            issuer: self.issuer.deep_view(),
            audience: self.audience.deep_view(),
            authorized_party: self.authorized_party.deep_view(),
            issued_at: self.issued_at,
            not_before: self.not_before,
            expires_at: self.expires_at,
            lifetime_secs: self.lifetime_secs,
            organization_id: self.organization_id.deep_view(),
            organization_slug: self.organization_slug.deep_view(),
            organization_role: self.organization_role.deep_view(),
            organization_permissions: self.organization_permissions.deep_view(),
            v1_organization_claims: self.v1_organization_claims,
            extra_claims: self.extra_claims@.map_values(|c: (String, serde_json::Value)| (c.0@, c.1)),
        }
    }
}

impl Clone for TestSession {
    fn clone(&self) -> (r: Self)
        ensures
            r@ == self@,
    {
        let mut extra_claims: Vec<(String, serde_json::Value)> = Vec::new();
        let mut i: usize = 0;
        while i < self.extra_claims.len()
            invariant
                i <= self.extra_claims@.len(),
                extra_claims@.map_values(|c: (String, serde_json::Value)| (c.0@, c.1)) == self.extra_claims@.take(
                    i as int,
                ).map_values(|c: (String, serde_json::Value)| (c.0@, c.1)),
            decreases self.extra_claims@.len() - i,
        {
            let (name, value) = &self.extra_claims[i];
            let ghost before = extra_claims@;
            extra_claims.push((name.clone(), clone_value(value)));
            assert(extra_claims@.map_values(|c: (String, serde_json::Value)| (c.0@, c.1)) =~= before.map_values(
                |c: (String, serde_json::Value)| (c.0@, c.1),
            ).push((name@, *value)));
            assert(self.extra_claims@.take(i + 1).map_values(|c: (String, serde_json::Value)| (c.0@, c.1))
                =~= self.extra_claims@.take(i as int).map_values(|c: (String, serde_json::Value)| (c.0@, c.1)).push(
                (name@, *value),
            ));
            i = i + 1;
        }
        assert(self.extra_claims@.take(self.extra_claims@.len() as int) =~= self.extra_claims@);
        TestSession {
            user_id: self.user_id.clone(),
            session_id: clone_opt_string(&self.session_id),
            issuer: clone_opt_string(&self.issuer),
            audience: clone_opt_string(&self.audience),
            authorized_party: clone_opt_string(&self.authorized_party),
            issued_at: self.issued_at,
            not_before: self.not_before,
            expires_at: self.expires_at,
            lifetime_secs: self.lifetime_secs,
            organization_id: clone_opt_string(&self.organization_id),
            organization_slug: clone_opt_string(&self.organization_slug),
            organization_role: clone_opt_string(&self.organization_role),
            organization_permissions: clone_strings(&self.organization_permissions),
            v1_organization_claims: self.v1_organization_claims,
            extra_claims,
        }
    }
}

/// `sess_<user_id>`, the session id a new session derives.
pub open spec fn derived_session_id(user_id: Seq<char>) -> Seq<char> {
    "sess_"@ + user_id
}

/// A fresh session for `user_id`: a derived `sid`, the default lifetime,
/// and nothing else set.
pub open spec fn new_session(user_id: Seq<char>) -> TestSessionView {
    TestSessionView {
        user_id,
        session_id: Some(derived_session_id(user_id)),
        issuer: None,
        audience: None,
        authorized_party: None,
        issued_at: None,
        not_before: None,
        expires_at: None,
        lifetime_secs: DEFAULT_SESSION_LIFETIME_SECS,
        organization_id: None,
        organization_slug: None,
        organization_role: None,
        organization_permissions: Seq::empty(),
        v1_organization_claims: false,
        extra_claims: Seq::empty(),
    }
}

/// A string claim, present only when the value is.
pub open spec fn optional_text_claim(name: Seq<char>, value: Option<Seq<char>>) -> Seq<(Seq<char>, ClaimView)> {
    match value {
        Some(v) => seq![(name, ClaimView::Text(v))],
        None => Seq::empty(),
    }
}

/// A string member of an object, present only when the value is.
pub open spec fn optional_member(name: Seq<char>, value: Option<Seq<char>>) -> Seq<(Seq<char>, Seq<char>)> {
    match value {
        Some(v) => seq![(name, v)],
        None => Seq::empty(),
    }
}

/// The `exp` of a session issued at `issued_at`: the pinned expiry, or the
/// lifetime (at most `i64::MAX` seconds) after issue, saturating at
/// `i64::MAX`.
pub open spec fn expiry(s: TestSessionView, issued_at: i64) -> i64 {
    match s.expires_at {
        Some(e) => e,
        None => {
            let lifetime: int = if s.lifetime_secs <= i64::MAX { s.lifetime_secs as int } else { i64::MAX as int };
            if issued_at + lifetime <= i64::MAX { (issued_at + lifetime) as i64 } else { i64::MAX }
        },
    }
}

/// The registered claims: `sub`, `iat`, `nbf` (the issue time unless
/// pinned), `exp`, then whichever of `sid`, `iss`, `aud`, `azp` are set.
pub open spec fn registered_claims(s: TestSessionView, issued_at: i64) -> Seq<(Seq<char>, ClaimView)> {
    seq![
        ("sub"@, ClaimView::Text(s.user_id)),
        ("iat"@, ClaimView::Number(issued_at)),
        ("nbf"@, ClaimView::Number(match s.not_before { Some(n) => n, None => issued_at })),
        ("exp"@, ClaimView::Number(expiry(s, issued_at))),
    ] + optional_text_claim("sid"@, s.session_id) + optional_text_claim("iss"@, s.issuer) + optional_text_claim(
        "aud"@,
        s.audience,
    ) + optional_text_claim("azp"@, s.authorized_party)
}

/// Why a permission list cannot be packed into Clerk's v2 encoding, if it
/// cannot: its first permission not in `org:<feature>:<permission>` form,
/// or more distinct verbs than a mask has bits.
pub open spec fn packing_error(ps: Seq<Seq<char>>) -> Option<Seq<char>> {
    match first_malformed(ps) {
        Some(i) => Some(ps[i]),
        None => {
            let verbs = pair_verbs(permission_pairs(ps));
            if verbs.len() > 128 {
                Some(too_many_permissions_message(verbs.len()))
            } else {
                None
            }
        },
    }
}

/// The organization claims of a session: none outside an organization;
/// with v1 claims, flat `org_id`, `org_slug`, `org_role` and
/// `org_permissions` (the list as given, when not empty); otherwise the
/// packed `fea` list (with permissions) and the `o` object with `id`,
/// `slg`, `rol` and, with permissions, `per` and `fpm`. `Err` carries the
/// packing error of the permissions.
pub open spec fn organization_claims(s: TestSessionView) -> Result<Seq<(Seq<char>, ClaimView)>, Seq<char>> {
    match s.organization_id {
        None => Ok(Seq::empty()),
        Some(id) => if s.v1_organization_claims {
            Ok(
                seq![("org_id"@, ClaimView::Text(id))] + optional_text_claim("org_slug"@, s.organization_slug)
                    + optional_text_claim("org_role"@, s.organization_role) + if s.organization_permissions.len()
                    == 0 {
                    Seq::empty()
                } else {
                    seq![("org_permissions"@, ClaimView::TextList(s.organization_permissions))]
                },
            )
        } else {
            let object = seq![("id"@, id)] + optional_member("slg"@, s.organization_slug) + optional_member(
                "rol"@,
                s.organization_role,
            );
            if s.organization_permissions.len() == 0 {
                Ok(seq![("o"@, ClaimView::TextObject(object))])
            } else {
                let ps = s.organization_permissions;
                match packing_error(ps) {
                    Some(message) => Err(message),
                    None => {
                        let pairs = permission_pairs(ps);
                        let features = pair_features(pairs);
                        let verbs = pair_verbs(pairs);
                        Ok(
                            seq![
                                ("fea"@, ClaimView::Text(features_text(features))),
                                ("o"@, ClaimView::TextObject(object + seq![
                                    ("per"@, join_with(verbs, ',')),
                                    ("fpm"@, masks_text(pairs, features, verbs)),
                                ])),
                            ],
                        )
                    },
                }
            }
        },
    }
}

/// The caller-supplied claims, in the order they were set.
pub open spec fn extra_claim_views(extras: Seq<(Seq<char>, serde_json::Value)>) -> Seq<(Seq<char>, ClaimView)> {
    extras.map_values(|c: (Seq<char>, serde_json::Value)| (c.0, ClaimView::Json(c.1)))
}

/// The claim set of a session issued at `issued_at`, in insertion order:
/// the registered claims, the organization claims, then the caller's
/// claims; a later claim of the same name overrides an earlier one.
pub open spec fn session_claims(s: TestSessionView, issued_at: i64) -> Result<Seq<(Seq<char>, ClaimView)>, Seq<char>> {
    match organization_claims(s) {
        Ok(org) => Ok(registered_claims(s, issued_at) + org + extra_claim_views(s.extra_claims)),
        Err(message) => Err(message),
    }
}

/// Whether `r` is the claim set of `s` issued at `issued_at`, or its
/// packing error.
pub open spec fn is_claims_result(
    s: TestSessionView,
    issued_at: i64,
    r: Result<Vec<(String, ClaimValue)>, TestIssuerError>,
) -> bool {
    match session_claims(s, issued_at) {
        Ok(claims) => r matches Ok(v) && claim_views(v@) == claims,
        Err(message) => r matches Err(TestIssuerError::OrganizationPermission(m)) && m@ == message,
    }
}

/// Appends one claim.
fn push_claim(claims: &mut Vec<(String, ClaimValue)>, name: &str, value: ClaimValue)
    ensures
        claim_views(final(claims)@) == claim_views(old(claims)@).push((name@, value@)),
{
    let ghost before = claims@;
    claims.push((name.to_owned(), value));
    assert(claim_views(claims@) =~= claim_views(before).push((name@, value@)));
}

/// Appends a string claim when the value is set.
fn push_optional_text(claims: &mut Vec<(String, ClaimValue)>, name: &str, value: &Option<String>)
    ensures
        claim_views(final(claims)@) == claim_views(old(claims)@) + optional_text_claim(name@, value.deep_view()),
{
    match value {
        Some(v) => {
            push_claim(claims, name, ClaimValue::Text(v.clone()));
            assert(optional_text_claim(name@, value.deep_view()) =~= seq![(name@, ClaimView::Text(v@))]);
        },
        None => {
            assert(claim_views(claims@) + optional_text_claim(name@, value.deep_view()) =~= claim_views(claims@));
        },
    }
}

/// Appends a string member when the value is set.
fn push_optional_member(members: &mut Vec<(String, String)>, name: &str, value: &Option<String>)
    ensures
        final(members)@.map_values(|m: (String, String)| (m.0@, m.1@)) == old(members)@.map_values(
            |m: (String, String)| (m.0@, m.1@),
        ) + optional_member(name@, value.deep_view()),
{
    let ghost before = members@.map_values(|m: (String, String)| (m.0@, m.1@));
    match value {
        Some(v) => {
            members.push((name.to_owned(), v.clone()));
            assert(members@.map_values(|m: (String, String)| (m.0@, m.1@)) =~= before + seq![(name@, v@)]);
        },
        None => {
            assert(before + optional_member(name@, value.deep_view()) =~= before);
        },
    }
}

impl TestSession {
    /// A currently-valid session for `user_id`, with a derived `sid`.
    pub fn new(user_id: &str) -> (r: Self)
        ensures
            r@ == new_session(user_id@),
    {
        let mut session_id = String::new();
        push_str(&mut session_id, "sess_");
        push_str(&mut session_id, user_id);
        let r = TestSession {
            user_id: user_id.to_owned(),
            session_id: Some(session_id),
            issuer: None,
            audience: None,
            authorized_party: None,
            issued_at: None,
            not_before: None,
            expires_at: None,
            lifetime_secs: DEFAULT_SESSION_LIFETIME_SECS,
            organization_id: None,
            organization_slug: None,
            organization_role: None,
            organization_permissions: Vec::new(),
            v1_organization_claims: false,
            extra_claims: Vec::new(),
        };
        assert(r@.organization_permissions =~= Seq::<Seq<char>>::empty());
        assert(r@.extra_claims =~= Seq::<(Seq<char>, serde_json::Value)>::empty());
        r
    }

    /// Overrides the `sid` session id claim.
    pub fn with_session_id(self, session_id: &str) -> (r: Self)
        ensures
            r@ == (TestSessionView { session_id: Some(session_id@), ..self@ }),
    {
        TestSession { session_id: Some(session_id.to_owned()), ..self }
    }

    /// Omits the `sid` claim, producing a token shaped like a Clerk
    /// JWT-template token rather than a session token. Verification rejects
    /// these by default.
    pub fn without_session_id(self) -> (r: Self)
        ensures
            r@ == (TestSessionView { session_id: None, ..self@ }),
    {
        TestSession { session_id: None, ..self }
    }

    /// Sets the `iss` claim, to test issuer pinning.
    pub fn with_issuer(self, issuer: &str) -> (r: Self)
        ensures
            r@ == (TestSessionView { issuer: Some(issuer@), ..self@ }),
    {
        TestSession { issuer: Some(issuer.to_owned()), ..self }
    }

    /// Sets the `aud` claim, to test audience pinning.
    pub fn with_audience(self, audience: &str) -> (r: Self)
        ensures
            r@ == (TestSessionView { audience: Some(audience@), ..self@ }),
    {
        TestSession { audience: Some(audience.to_owned()), ..self }
    }

    /// Sets the `azp` claim, to test authorized-party pinning.
    pub fn with_authorized_party(self, authorized_party: &str) -> (r: Self)
        ensures
            r@ == (TestSessionView { authorized_party: Some(authorized_party@), ..self@ }),
    {
        TestSession { authorized_party: Some(authorized_party.to_owned()), ..self }
    }

    /// Sets how long after `iat` the token expires, in whole seconds.
    /// Defaults to one minute.
    pub fn with_lifetime(self, lifetime: Duration) -> (r: Self)
        ensures
            r@ == (TestSessionView { lifetime_secs: duration_whole_seconds(lifetime), ..self@ }),
    {
        let lifetime_secs = whole_seconds(&lifetime);
        TestSession { lifetime_secs, ..self }
    }

    /// Pins `iat` and `nbf` to a fixed Unix timestamp instead of now.
    pub fn with_issued_at(self, issued_at: i64) -> (r: Self)
        ensures
            r@ == (TestSessionView { issued_at: Some(issued_at), ..self@ }),
    {
        TestSession { issued_at: Some(issued_at), ..self }
    }

    /// Pins `nbf` to a fixed Unix timestamp, independent of `iat`. Set it in
    /// the future to produce a not-yet-valid token.
    pub fn with_not_before(self, not_before: i64) -> (r: Self)
        ensures
            r@ == (TestSessionView { not_before: Some(not_before), ..self@ }),
    {
        TestSession { not_before: Some(not_before), ..self }
    }

    /// Pins `exp` to a fixed Unix timestamp, ignoring the lifetime.
    pub fn with_expires_at(self, expires_at: i64) -> (r: Self)
        ensures
            r@ == (TestSessionView { expires_at: Some(expires_at), ..self@ }),
    {
        TestSession { expires_at: Some(expires_at), ..self }
    }

    /// Makes the token already expired, for testing rejection and refresh
    /// paths: `iat` (and so `nbf`, unless pinned) moves an hour before the
    /// pinned issue time, or before now, and `exp` a minute after that, so
    /// the token is expired well beyond any configured clock skew.
    pub fn expired(self) -> (r: Self)
        requires
            self@.issued_at matches Some(t) ==> t >= i64::MIN + 3600,
        ensures
            r@ == (TestSessionView { issued_at: r@.issued_at, expires_at: r@.expires_at, ..self@ }),
            r@.issued_at matches Some(iat) && r@.expires_at == Some((iat + 60) as i64),
            self@.issued_at matches Some(t) ==> r@.issued_at == Some((t - 3600) as i64),
            self@.issued_at is None ==> (r@.issued_at matches Some(iat) && iat >= -3600),
    {
        let base = match self.issued_at {
            Some(t) => t,
            None => unix_now(),
        };
        let issued_at = base - 3600;
        TestSession { issued_at: Some(issued_at), expires_at: Some(issued_at + 60), ..self }
    }

    /// Puts the session in an organization. Emits Clerk's v2 `o` claim by
    /// default; see [`with_v1_organization_claims`](Self::with_v1_organization_claims)
    /// for the older flat shape.
    pub fn with_organization(self, organization_id: &str) -> (r: Self)
        ensures
            r@ == (TestSessionView { organization_id: Some(organization_id@), ..self@ }),
    {
        TestSession { organization_id: Some(organization_id.to_owned()), ..self }
    }

    /// Sets the organization slug (`o.slg`, or `org_slug` on v1).
    pub fn with_organization_slug(self, slug: &str) -> (r: Self)
        ensures
            r@ == (TestSessionView { organization_slug: Some(slug@), ..self@ }),
    {
        TestSession { organization_slug: Some(slug.to_owned()), ..self }
    }

    /// Sets the organization role (`o.rol`, or `org_role` on v1). Accepts
    /// either `admin` or `org:admin`; verification normalizes both to the
    /// `org:`-prefixed form.
    pub fn with_organization_role(self, role: &str) -> (r: Self)
        ensures
            r@ == (TestSessionView { organization_role: Some(role@), ..self@ }),
    {
        TestSession { organization_role: Some(role.to_owned()), ..self }
    }

    /// Sets the organization permissions, as `org:<feature>:<permission>`
    /// strings such as `org:dashboard:read`. On v2 these are packed into
    /// Clerk's `fea`/`per`/`fpm` claims; a permission not in that form is an
    /// error when the claims are built, since it could not round-trip.
    pub fn with_organization_permissions(self, permissions: &[&str]) -> (r: Self)
        ensures
            r@ == (TestSessionView {
                organization_permissions: permissions@.map_values(|p: &str| p@),
                ..self@
            }),
    {
        TestSession { organization_permissions: owned_strings(permissions), ..self }
    }

    /// Emits pre-v2 flat `org_id` / `org_slug` / `org_role` /
    /// `org_permissions` claims instead of the packed `o` claim, with
    /// permission strings in any form.
    pub fn with_v1_organization_claims(self) -> (r: Self)
        ensures
            r@ == (TestSessionView { v1_organization_claims: true, ..self@ }),
    {
        TestSession { v1_organization_claims: true, ..self }
    }

    /// Sets an arbitrary top-level claim, overriding anything above: the
    /// escape hatch for claims this builder does not model, and for
    /// deliberately malformed tokens.
    pub fn with_claim(self, name: &str, value: serde_json::Value) -> (r: Self)
        ensures
            r@ == (TestSessionView { extra_claims: self@.extra_claims.push((name@, value)), ..self@ }),
            members_map(r@.extra_claims) == members_map(self@.extra_claims).insert(name@, value),
    {
        let mut extra_claims = self.extra_claims;
        let ghost before = extra_claims@;
        extra_claims.push((name.to_owned(), value));
        assert(extra_claims@.map_values(|c: (String, serde_json::Value)| (c.0@, c.1)) =~= before.map_values(
            |c: (String, serde_json::Value)| (c.0@, c.1),
        ).push((name@, value)));
        let r = TestSession { extra_claims, ..self };
        assert(r@.extra_claims.drop_last() =~= self@.extra_claims);
        r
    }

    /// The claim set this session serializes to, issued now unless `iat` is
    /// pinned; in insertion order, a later claim of a name overriding an
    /// earlier one.
    pub fn to_claims(&self) -> (r: Result<Vec<(String, ClaimValue)>, TestIssuerError>)
        ensures
            self@.issued_at matches Some(t) ==> is_claims_result(self@, t, r),
            self@.issued_at is None ==> exists|now: i64| now >= 0 && is_claims_result(self@, now, r),
    {
        let issued_at = match self.issued_at {
            Some(t) => t,
            None => unix_now(),
        };
        let r = self.claims_at(issued_at);
        proof {
            if self@.issued_at is None {
                assert(is_claims_result(self@, issued_at, r));
            }
        }
        r
    }

    /// The claim set of this session issued at `issued_at` (the issue time
    /// when `iat` is pinned).
    pub fn claims_at(&self, issued_at: i64) -> (r: Result<Vec<(String, ClaimValue)>, TestIssuerError>)
        ensures
            is_claims_result(self@, issued_at, r),
    {
        let org = match self.organization_claims() {
            Ok(org) => org,
            Err(error) => return Err(error),
        };
        let ghost org_views = claim_views(org@);
        let mut claims: Vec<(String, ClaimValue)> = Vec::new();
        push_claim(&mut claims, "sub", ClaimValue::Text(self.user_id.clone()));
        push_claim(&mut claims, "iat", ClaimValue::Number(issued_at));
        let not_before = match self.not_before {
            Some(n) => n,
            None => issued_at,
        };
        push_claim(&mut claims, "nbf", ClaimValue::Number(not_before));
        let expires_at = match self.expires_at {
            Some(e) => e,
            None => {
                let lifetime: i64 = if self.lifetime_secs <= i64::MAX as u64 {
                    self.lifetime_secs as i64
                } else {
                    i64::MAX
                };
                if issued_at <= i64::MAX - lifetime {
                    issued_at + lifetime
                } else {
                    i64::MAX
                }
            },
        };
        push_claim(&mut claims, "exp", ClaimValue::Number(expires_at));
        push_optional_text(&mut claims, "sid", &self.session_id);
        push_optional_text(&mut claims, "iss", &self.issuer);
        push_optional_text(&mut claims, "aud", &self.audience);
        push_optional_text(&mut claims, "azp", &self.authorized_party);
        assert(claim_views(claims@) =~= registered_claims(self@, issued_at));
        let ghost registered = claim_views(claims@);
        let mut org = org;
        let ghost org_items = org@;
        claims.append(&mut org);
        assert(claim_views(claims@) =~= registered + org_views);
        let ghost with_org = claim_views(claims@);
        let ghost extras = self@.extra_claims;
        let mut i: usize = 0;
        while i < self.extra_claims.len()
            invariant
                i <= self.extra_claims@.len(),
                extras == self@.extra_claims,
                extras.len() == self.extra_claims@.len(),
                claim_views(claims@) == with_org + extra_claim_views(extras.take(i as int)),
            decreases self.extra_claims@.len() - i,
        {
            let (name, value) = &self.extra_claims[i];
            push_claim(&mut claims, name.as_str(), ClaimValue::Json(clone_value(value)));
            assert(extras[i as int] == (name@, *value));
            assert(extra_claim_views(extras.take(i + 1)) =~= extra_claim_views(extras.take(i as int)).push(
                (name@, ClaimView::Json(*value)),
            ));
            i = i + 1;
        }
        assert(extras.take(extras.len() as int) =~= extras);
        Ok(claims)
    }

    /// The organization claims of this session, or the packing error of its
    /// permissions.
    fn organization_claims(&self) -> (r: Result<Vec<(String, ClaimValue)>, TestIssuerError>)
        ensures
            match organization_claims(self@) {
                Ok(claims) => r matches Ok(v) && claim_views(v@) == claims,
                Err(message) => r matches Err(TestIssuerError::OrganizationPermission(m)) && m@ == message,
            },
    {
        let organization_id = match &self.organization_id {
            Some(id) => id,
            None => {
                let r: Vec<(String, ClaimValue)> = Vec::new();
                assert(claim_views(r@) =~= Seq::<(Seq<char>, ClaimView)>::empty());
                return Ok(r);
            },
        };
        let mut claims: Vec<(String, ClaimValue)> = Vec::new();
        if self.v1_organization_claims {
            push_claim(&mut claims, "org_id", ClaimValue::Text(organization_id.clone()));
            push_optional_text(&mut claims, "org_slug", &self.organization_slug);
            push_optional_text(&mut claims, "org_role", &self.organization_role);
            if self.organization_permissions.len() > 0 {
                push_claim(
                    &mut claims,
                    "org_permissions",
                    ClaimValue::TextList(clone_strings(&self.organization_permissions)),
                );
            }
            assert(claim_views(claims@) =~= organization_claims(self@)->Ok_0);
            return Ok(claims);
        }
        let ghost id = organization_id@;
        let mut object: Vec<(String, String)> = Vec::new();
        object.push(("id".to_owned(), organization_id.clone()));
        assert(object@.map_values(|m: (String, String)| (m.0@, m.1@)) =~= seq![("id"@, id)]);
        push_optional_member(&mut object, "slg", &self.organization_slug);
        push_optional_member(&mut object, "rol", &self.organization_role);
        let ghost base_object = seq![("id"@, id)] + optional_member("slg"@, self@.organization_slug)
            + optional_member("rol"@, self@.organization_role);
        assert(object@.map_values(|m: (String, String)| (m.0@, m.1@)) == base_object);
        if self.organization_permissions.len() > 0 {
            let ghost ps = self@.organization_permissions;
            let packed = match PackedPermissions::encode(self.organization_permissions.as_slice()) {
                Ok(packed) => packed,
                Err(error) => return Err(error),
            };
            let ghost pairs = permission_pairs(ps);
            let ghost per = join_with(pair_verbs(pairs), ',');
            let ghost fpm = masks_text(pairs, pair_features(pairs), pair_verbs(pairs));
            let ghost fea = features_text(pair_features(pairs));
            assert(packed.permissions@ == per);
            assert(packed.feature_permission_map@ == fpm);
            assert(packed.features@ == fea);
            object.push(("per".to_owned(), packed.permissions));
            object.push(("fpm".to_owned(), packed.feature_permission_map));
            assert(object@.map_values(|m: (String, String)| (m.0@, m.1@)) =~= base_object + seq![
                ("per"@, per),
                ("fpm"@, fpm),
            ]);
            push_claim(&mut claims, "fea", ClaimValue::Text(packed.features));
            push_claim(&mut claims, "o", ClaimValue::TextObject(object));
            assert(claim_views(claims@) =~= organization_claims(self@)->Ok_0);
            return Ok(claims);
        }
        push_claim(&mut claims, "o", ClaimValue::TextObject(object));
        assert(claim_views(claims@) =~= organization_claims(self@)->Ok_0);
        Ok(claims)
    }
}

/// A fresh session is currently valid: issued at the issue time, valid
/// from it, expiring one minute later, with its derived `sid` and nothing
/// more.
pub proof fn lemma_new_session_claims(user_id: Seq<char>, issued_at: i64)
    requires
        issued_at <= i64::MAX - 60,
    ensures
        session_claims(new_session(user_id), issued_at) == Ok::<Seq<(Seq<char>, ClaimView)>, Seq<char>>(
            seq![
                ("sub"@, ClaimView::Text(user_id)),
                ("iat"@, ClaimView::Number(issued_at)),
                ("nbf"@, ClaimView::Number(issued_at)),
                ("exp"@, ClaimView::Number((issued_at + 60) as i64)),
                ("sid"@, ClaimView::Text(derived_session_id(user_id))),
            ],
        ),
{
    let s = new_session(user_id);
    assert(extra_claim_views(s.extra_claims) =~= Seq::<(Seq<char>, ClaimView)>::empty());
    assert(session_claims(s, issued_at)->Ok_0 =~= seq![
        ("sub"@, ClaimView::Text(user_id)),
        ("iat"@, ClaimView::Number(issued_at)),
        ("nbf"@, ClaimView::Number(issued_at)),
        ("exp"@, ClaimView::Number((issued_at + 60) as i64)),
        ("sid"@, ClaimView::Text(derived_session_id(user_id))),
    ]);
}

/// The claims of a claim set by name, as a token carries them: a later
/// claim of a name replaces an earlier one.
pub open spec fn claim_map(claims: Seq<(Seq<char>, ClaimView)>) -> Map<Seq<char>, ClaimView>
    decreases claims.len(),
{
    if claims.len() == 0 {
        Map::empty()
    } else {
        claim_map(claims.drop_last()).insert(claims.last().0, claims.last().1)
    }
}

/// A claim set with [`TestSession::with_claim`] overrides anything above:
/// it is built exactly when the session's is, and its last claim, which
/// wins over any earlier claim of that name, is the one set.
pub proof fn lemma_with_claim_overrides(
    s: TestSessionView,
    name: Seq<char>,
    value: serde_json::Value,
    issued_at: i64,
)
    ensures
        ({
            let t = TestSessionView { extra_claims: s.extra_claims.push((name, value)), ..s };
            &&& session_claims(t, issued_at) is Ok <==> session_claims(s, issued_at) is Ok
            &&& session_claims(t, issued_at) matches Ok(claims) ==> claims.last() == (name, ClaimView::Json(value))
            &&& session_claims(t, issued_at) matches Ok(claims) ==> claims.drop_last() == session_claims(
                s,
                issued_at,
            )->Ok_0
            &&& session_claims(t, issued_at) matches Ok(claims) ==> claim_map(claims) == claim_map(
                session_claims(s, issued_at)->Ok_0,
            ).insert(name, ClaimView::Json(value))
        }),
{
    let t = TestSessionView { extra_claims: s.extra_claims.push((name, value)), ..s };
    assert(extra_claim_views(t.extra_claims) =~= extra_claim_views(s.extra_claims).push(
        (name, ClaimView::Json(value)),
    ));
    assert(organization_claims(t) == organization_claims(s));
    assert(registered_claims(t, issued_at) == registered_claims(s, issued_at));
    if let Ok(org) = organization_claims(s) {
        let prefix = registered_claims(s, issued_at) + org;
        let claims = prefix + extra_claim_views(t.extra_claims);
        assert(claims =~= (prefix + extra_claim_views(s.extra_claims)).push((name, ClaimView::Json(value))));
        assert(claims.drop_last() =~= prefix + extra_claim_views(s.extra_claims));
        assert(claim_map(claims) == claim_map(claims.drop_last()).insert(name, ClaimView::Json(value)));
    }
}

} // verus!
