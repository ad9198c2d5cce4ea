//! Conversion of verified Clerk JWT claims into [`ClerkAuth`].
use vstd::prelude::*;

use crate::auth::{ClerkAuth, InvalidTokenReason, VerificationOutcome};
use crate::text::{
    chars_of, has_prefix, opt_as_str, opt_text, parse_u128, parse_u128_spec,
    piece_views, push_char, push_chars, split_chars, split_on, starts_with_chars,
    string_from_chars,
};

verus! {

broadcast use vstd::string::group_string_axioms;

/// `o:`, the prefix of organization features in `fea`.
pub open spec fn org_feature_prefix() -> Seq<char> {
    seq!['o', ':']
}

/// `u:`, the prefix of user features in `fea`.
pub open spec fn user_feature_prefix() -> Seq<char> {
    seq!['u', ':']
}

/// `org:`, the prefix of organization roles and permissions.
pub open spec fn org_prefix() -> Seq<char> {
    seq!['o', 'r', 'g', ':']
}

/// A feature entry that makes the whole `fea` claim unusable: empty, or a
/// bare `o:` / `u:` prefix with no feature name.
pub open spec fn feature_malformed(f: Seq<char>) -> bool {
    f.len() == 0 || f == org_feature_prefix() || f == user_feature_prefix()
}

/// Whether bit `index` (least significant first) of `mask` is set.
pub open spec fn bit_set(mask: u128, index: u32) -> bool {
    mask & (1u128 << index) != 0
}

/// Whether `mask` has no bit at or above position `width`.
pub open spec fn mask_fits(mask: u128, width: nat) -> bool {
    width >= 128 || (mask >> (width as u32)) == 0
}

/// The decimal masks of `fpm`, one per entry.
pub open spec fn parsed_masks(ms: Seq<Seq<char>>) -> Seq<u128> {
    ms.map_values(
        |m: Seq<char>|
            match parse_u128_spec(m) {
                Some(v) => v,
                None => 0u128,
            },
    )
}

/// Whether the split `fea`, `per` and `fpm` claims can be decoded: no
/// malformed feature, between one and 128 permissions, none of them empty,
/// one parsable mask per feature, and no mask bit beyond the permissions.
pub open spec fn permission_layout_valid(
    fs: Seq<Seq<char>>,
    ps: Seq<Seq<char>>,
    ms: Seq<Seq<char>>,
) -> bool {
    &&& forall|i: int| 0 <= i < fs.len() ==> !feature_malformed(#[trigger] fs[i])
    &&& 0 < ps.len() <= 128
    &&& forall|j: int| 0 <= j < ps.len() ==> (#[trigger] ps[j]).len() > 0
    &&& forall|i: int| 0 <= i < ms.len() ==> (parse_u128_spec(#[trigger] ms[i]) is Some)
    &&& fs.len() == ms.len()
    &&& forall|i: int| 0 <= i < ms.len() ==> mask_fits(#[trigger] parsed_masks(ms)[i], ps.len())
}

/// `org:<feature>:<permission>`.
pub open spec fn permission_name(feature: Seq<char>, permission: Seq<char>) -> Seq<char> {
    org_prefix() + feature + seq![':'] + permission
}

/// The permissions among the first `n` of `ps` whose bit is set in `mask`,
/// in order, named for `feature`.
pub open spec fn granted_permissions(
    feature: Seq<char>,
    ps: Seq<Seq<char>>,
    mask: u128,
    n: nat,
) -> Seq<Seq<char>>
    decreases n,
{
    if n == 0 {
        Seq::empty()
    } else {
        let earlier = granted_permissions(feature, ps, mask, (n - 1) as nat);
        if bit_set(mask, (n - 1) as u32) {
            earlier.push(permission_name(feature, ps[n - 1]))
        } else {
            earlier
        }
    }
}

/// The permissions granted by the first `k` features: organization features
/// (`o:` prefix) contribute their granted permissions, in feature order;
/// user features contribute none.
pub open spec fn feature_permissions(
    fs: Seq<Seq<char>>,
    ps: Seq<Seq<char>>,
    masks: Seq<u128>,
    k: nat,
) -> Seq<Seq<char>>
    decreases k,
{
    if k == 0 {
        Seq::empty()
    } else {
        let earlier = feature_permissions(fs, ps, masks, (k - 1) as nat);
        let f = fs[k - 1];
        if has_prefix(f, org_feature_prefix()) {
            earlier + granted_permissions(f.skip(2), ps, masks[k - 1], ps.len())
        } else {
            earlier
        }
    }
}

/// The organization permissions that Clerk's compact `fea` / `per` / `fpm`
/// claims encode: none unless all three are present and well formed.
pub open spec fn decoded_permissions(
    features: Option<Seq<char>>,
    permissions: Option<Seq<char>>,
    masks: Option<Seq<char>>,
) -> Seq<Seq<char>> {
    match (features, permissions, masks) {
        (Some(f), Some(p), Some(m)) => {
            let fs = split_on(f, ',');
            let ps = split_on(p, ',');
            let ms = split_on(m, ',');
            if permission_layout_valid(fs, ps, ms) {
                feature_permissions(fs, ps, parsed_masks(ms), fs.len())
            } else {
                Seq::empty()
            }
        },
        _ => Seq::empty(),
    }
}

/// A text claim with an empty value treated as absent.
pub open spec fn nonempty_text(o: Option<Seq<char>>) -> Option<Seq<char>> {
    match o {
        Some(t) => if t.len() == 0 {
            None
        } else {
            Some(t)
        },
        None => None,
    }
}

/// An organization role in Clerk's `org:<role>` form; an empty role is absent.
pub open spec fn role_claim(role: Option<Seq<char>>) -> Option<Seq<char>> {
    match role {
        Some(r) => if r.len() == 0 {
            None
        } else if has_prefix(r, org_prefix()) {
            Some(r)
        } else {
            Some(org_prefix() + r)
        },
        None => None,
    }
}

/// Custom claims Clerk puts in session tokens.
#[derive(Debug)]
pub struct ClerkJwtClaims {
    /// `azp`: the origin the token was issued for.
    pub authorized_party: Option<String>,
    /// `sid`: the session id.
    pub session_id: Option<String>,
    /// `fea`: comma-separated features (`o:` organization, `u:` user).
    pub features: Option<String>,
    /// `o`: compact (v2) organization claims.
    pub organization: Option<ClerkV2OrganizationClaims>,
    /// `org_id` (v1 claims).
    pub org_id: Option<String>,
    /// `org_slug` (v1 claims).
    pub org_slug: Option<String>,
    /// `org_role` (v1 claims).
    pub org_role: Option<String>,
    /// `org_permissions` (v1 claims).
    pub org_permissions: Vec<String>,
}

/// Clerk's compact (v2) organization claims.
#[derive(Debug)]
pub struct ClerkV2OrganizationClaims {
    /// `id`: the active organization id.
    pub id: String,
    /// `slg`: the organization slug.
    pub slug: Option<String>,
    /// `rol`: the role, with or without the `org:` prefix.
    pub role: Option<String>,
    /// `per`: comma-separated permission names.
    pub permissions: Option<String>,
    /// `fpm`: comma-separated decimal masks, one per feature of `fea`.
    pub feature_permission_map: Option<String>,
}

/// Organization claims in the shape [`ClerkAuth`] carries them.
pub struct OrganizationAuthClaims {
    pub id: Option<String>,
    pub slug: Option<String>,
    pub role: Option<String>,
    pub permissions: Vec<String>,
}

impl ClerkJwtClaims {
    /// The `azp` claim.
    pub fn authorized_party(&self) -> (r: Option<&str>)
        ensures
            opt_text(r) == self.authorized_party.deep_view(),
    {
        opt_as_str(&self.authorized_party)
    }

    /// The session id (`sid`) claim, treating an empty string as absent. Clerk
    /// session tokens carry it; JWT-template tokens do not.
    pub fn session_id(&self) -> (r: Option<&str>)
        ensures
            opt_text(r) == nonempty_text(self.session_id.deep_view()),
    {
        match &self.session_id {
            Some(sid) => {
                if sid.as_str().is_empty() {
                    None
                } else {
                    Some(sid.as_str())
                }
            },
            None => None,
        }
    }
}

/// Whether no entry of `fs` is a malformed feature.
fn features_well_formed(fs: &Vec<Vec<char>>) -> (r: bool)
    ensures
        r == forall|i: int| 0 <= i < fs@.len() ==> !feature_malformed(#[trigger] piece_views(fs@)[i]),
{
    let mut i: usize = 0;
    while i < fs.len()
        invariant
            i <= fs@.len(),
            forall|k: int| 0 <= k < i ==> !feature_malformed(#[trigger] piece_views(fs@)[k]),
        decreases fs@.len() - i,
    {
        let f = &fs[i];
        assert(piece_views(fs@)[i as int] == f@);
        let malformed = f.len() == 0 || (f.len() == 2 && (f[0] == 'o' || f[0] == 'u') && f[1] == ':');
        if f.len() == 2 {
            proof {
                if f@[0] == 'o' && f@[1] == ':' {
                    assert(f@ =~= org_feature_prefix());
                }
                if f@[0] == 'u' && f@[1] == ':' {
                    assert(f@ =~= user_feature_prefix());
                }
            }
            assert(f@ == org_feature_prefix() ==> (f@[0] == 'o' && f@[1] == ':'));
            assert(f@ == user_feature_prefix() ==> (f@[0] == 'u' && f@[1] == ':'));
        }
        if f.len() != 2 {
            assert(f@ != org_feature_prefix());
            assert(f@ != user_feature_prefix());
        }
        if malformed {
            return false;
        }
        i = i + 1;
    }
    true
}

/// Whether every entry of `ps` is non-empty.
fn permissions_nonempty(ps: &Vec<Vec<char>>) -> (r: bool)
    ensures
        r == forall|j: int| 0 <= j < ps@.len() ==> (#[trigger] piece_views(ps@)[j]).len() > 0,
{
    let mut i: usize = 0;
    while i < ps.len()
        invariant
            i <= ps@.len(),
            forall|k: int| 0 <= k < i ==> (#[trigger] piece_views(ps@)[k]).len() > 0,
        decreases ps@.len() - i,
    {
        assert(piece_views(ps@)[i as int] == ps@[i as int]@);
        if ps[i].len() == 0 {
            return false;
        }
        i = i + 1;
    }
    true
}

/// Parses every entry of `ms` as a decimal `u128`; `None` when one fails.
fn parse_masks(ms: &Vec<Vec<char>>) -> (r: Option<Vec<u128>>)
    ensures
        match r {
            Some(v) => {
                &&& forall|i: int| 0 <= i < ms@.len() ==> (parse_u128_spec(#[trigger] piece_views(ms@)[i]) is Some)
                &&& v@ == parsed_masks(piece_views(ms@))
            },
            None => exists|i: int| 0 <= i < ms@.len() && (parse_u128_spec(#[trigger] piece_views(ms@)[i]) is None),
        },
{
    let ghost views = piece_views(ms@);
    let mut out: Vec<u128> = Vec::new();
    let mut i: usize = 0;
    while i < ms.len()
        invariant
            i <= ms@.len(),
            views == piece_views(ms@),
            out@ == parsed_masks(views).take(i as int),
            forall|k: int| 0 <= k < i ==> (parse_u128_spec(#[trigger] views[k]) is Some),
        decreases ms@.len() - i,
    {
        assert(views[i as int] == ms@[i as int]@);
        match parse_u128(ms[i].as_slice()) {
            Some(v) => {
                out.push(v);
                assert(parsed_masks(views).take(i + 1) =~= parsed_masks(views).take(i as int).push(v));
            },
            None => {
                return None;
            },
        }
        i = i + 1;
    }
    assert(parsed_masks(views).take(ms@.len() as int) =~= parsed_masks(views));
    Some(out)
}

/// Whether every mask fits in `width` bits.
fn masks_fit(masks: &Vec<u128>, width: usize) -> (r: bool)
    requires
        0 < width <= 128,
    ensures
        r == forall|i: int| 0 <= i < masks@.len() ==> mask_fits(#[trigger] masks@[i], width as nat),
{
    let mut i: usize = 0;
    while i < masks.len()
        invariant
            0 < width <= 128,
            i <= masks@.len(),
            forall|k: int| 0 <= k < i ==> mask_fits(#[trigger] masks@[k], width as nat),
        decreases masks@.len() - i,
    {
        let fits = width == 128 || (masks[i] >> (width as u32)) == 0;
        if !fits {
            return false;
        }
        i = i + 1;
    }
    true
}

/// `org:<feature>:<permission>` where the feature is `feature` from index
/// `from` on.
fn permission_string(feature: &[char], from: usize, permission: &[char]) -> (r: String)
    requires
        from <= feature@.len(),
    ensures
        r@ == permission_name(feature@.skip(from as int), permission@),
{
    let mut s = String::new();
    push_char(&mut s, 'o');
    push_char(&mut s, 'r');
    push_char(&mut s, 'g');
    push_char(&mut s, ':');
    assert(s@ =~= org_prefix());
    let mut i: usize = from;
    while i < feature.len()
        invariant
            from <= i <= feature@.len(),
            s@ == org_prefix() + feature@.subrange(from as int, i as int),
        decreases feature@.len() - i,
    {
        push_char(&mut s, feature[i]);
        assert(feature@.subrange(from as int, i + 1) =~= feature@.subrange(from as int, i as int).push(feature@[i as int]));
        i = i + 1;
    }
    assert(feature@.subrange(from as int, feature@.len() as int) =~= feature@.skip(from as int));
    push_char(&mut s, ':');
    push_chars(&mut s, permission);
    assert(s@ =~= permission_name(feature@.skip(from as int), permission@));
    s
}

/// Appends the permissions of `ps` granted by `mask`, named for the feature
/// `feature` from index `from` on.
fn push_granted(out: &mut Vec<String>, feature: &[char], from: usize, ps: &Vec<Vec<char>>, mask: u128)
    requires
        from <= feature@.len(),
        ps@.len() <= 128,
    ensures
        final(out).deep_view() == old(out).deep_view() + granted_permissions(
            feature@.skip(from as int),
            piece_views(ps@),
            mask,
            ps@.len(),
        ),
{
    let ghost name = feature@.skip(from as int);
    let ghost views = piece_views(ps@);
    let ghost start = out.deep_view();
    let mut j: usize = 0;
    assert(start + granted_permissions(name, views, mask, 0) =~= start);
    while j < ps.len()
        invariant
            from <= feature@.len(),
            ps@.len() <= 128,
            j <= ps@.len(),
            name == feature@.skip(from as int),
            views == piece_views(ps@),
            out.deep_view() == start + granted_permissions(name, views, mask, j as nat),
        decreases ps@.len() - j,
    {
        let ghost before = out.deep_view();
        let set = mask & (1u128 << (j as u32)) != 0;
        if set {
            let p = permission_string(feature, from, ps[j].as_slice());
            assert(views[j as int] == ps@[j as int]@);
            out.push(p);
            assert(out.deep_view() =~= before.push(p@));
            assert(start + granted_permissions(name, views, mask, (j + 1) as nat) =~= (start
                + granted_permissions(name, views, mask, j as nat)).push(permission_name(name, views[j as int])));
        } else {
            assert(granted_permissions(name, views, mask, (j + 1) as nat) == granted_permissions(
                name,
                views,
                mask,
                j as nat,
            ));
        }
        j = j + 1;
    }
}

impl ClerkV2OrganizationClaims {
    /// Organization claims as [`ClerkAuth`] carries them: none at all when
    /// the organization id is empty; otherwise the id, the non-empty slug,
    /// the role in `org:<role>` form and the decoded permissions.
    pub fn into_auth_claims(self, features: Option<&str>) -> (r: OrganizationAuthClaims)
        ensures
            self.id@.len() == 0 ==> {
                &&& r.id is None
                &&& r.slug is None
                &&& r.role is None
                &&& r.permissions@.len() == 0
            },
            self.id@.len() > 0 ==> {
                &&& r.id.deep_view() == Some(self.id@)
                &&& r.slug.deep_view() == nonempty_text(self.slug.deep_view())
                &&& r.role.deep_view() == role_claim(self.role.deep_view())
                &&& r.permissions.deep_view() == decoded_permissions(
                    opt_text(features),
                    self.permissions.deep_view(),
                    self.feature_permission_map.deep_view(),
                )
            },
    {
        if self.id.as_str().is_empty() {
            return OrganizationAuthClaims { id: None, slug: None, role: None, permissions: Vec::new() };
        }
        let permissions = self.decode_permissions(features);
        let slug = match self.slug {
            Some(slug) => if slug.as_str().is_empty() {
                None
            } else {
                Some(slug)
            },
            None => None,
        };
        let role = match self.role {
            Some(role) => {
                if role.as_str().is_empty() {
                    None
                } else {
                    let chars = chars_of(role.as_str());
                    let mut prefix: Vec<char> = Vec::new();
                    prefix.push('o');
                    prefix.push('r');
                    prefix.push('g');
                    prefix.push(':');
                    assert(prefix@ =~= org_prefix());
                    if starts_with_chars(chars.as_slice(), prefix.as_slice()) {
                        Some(role)
                    } else {
                        let mut full = string_from_chars(prefix.as_slice());
                        push_chars(&mut full, chars.as_slice());
                        Some(full)
                    }
                }
            },
            None => None,
        };
        OrganizationAuthClaims { id: Some(self.id), slug, role, permissions }
    }

    /// Decodes Clerk's compact permission claims: `fpm` holds one decimal
    /// mask per feature of `fea`, and bit N (least significant first) of a
    /// mask grants permission N of `per`. Only organization features
    /// (`o:`) yield permissions, each as `org:<feature>:<permission>`.
    pub fn decode_permissions(&self, features: Option<&str>) -> (r: Vec<String>)
        ensures
            r.deep_view() == decoded_permissions(
                opt_text(features),
                self.permissions.deep_view(),
                self.feature_permission_map.deep_view(),
            ),
    {
        let (features, permissions, masks) = match (features, &self.permissions, &self.feature_permission_map) {
            (Some(f), Some(p), Some(m)) => (f, p, m),
            _ => {
                return Vec::new();
            },
        };
        let fchars = chars_of(features);
        let pchars = chars_of(permissions.as_str());
        let mchars = chars_of(masks.as_str());
        let fs = split_chars(fchars.as_slice(), ',');
        let ps = split_chars(pchars.as_slice(), ',');
        let ms = split_chars(mchars.as_slice(), ',');
        let ghost fv = piece_views(fs@);
        let ghost pv = piece_views(ps@);
        let ghost mv = piece_views(ms@);
        assert(fv.len() == fs@.len());
        assert(pv.len() == ps@.len());
        assert(mv.len() == ms@.len());
        if !features_well_formed(&fs) || ps.len() == 0 || ps.len() > 128 || !permissions_nonempty(&ps) {
            return Vec::new();
        }
        let parsed = match parse_masks(&ms) {
            Some(v) => v,
            None => {
                return Vec::new();
            },
        };
        if fs.len() != parsed.len() || !masks_fit(&parsed, ps.len()) {
            assert(!permission_layout_valid(fv, pv, mv));
            return Vec::new();
        }
        assert(permission_layout_valid(fv, pv, mv));
        let ghost masks_view = parsed_masks(mv);
        let mut out: Vec<String> = Vec::new();
        let mut k: usize = 0;
        assert(out.deep_view() =~= feature_permissions(fv, pv, masks_view, 0));
        while k < fs.len()
            invariant
                k <= fs@.len(),
                fs@.len() == parsed@.len(),
                ps@.len() <= 128,
                fv == piece_views(fs@),
                pv == piece_views(ps@),
                parsed@ == masks_view,
                out.deep_view() == feature_permissions(fv, pv, masks_view, k as nat),
            decreases fs@.len() - k,
        {
            let f = &fs[k];
            assert(fv[k as int] == f@);
            let is_org = f.len() >= 2 && f[0] == 'o' && f[1] == ':';
            if f.len() >= 2 {
                assert(has_prefix(f@, org_feature_prefix()) <==> (f@[0] == 'o' && f@[1] == ':')) by {
                    if f@[0] == 'o' && f@[1] == ':' {
                        assert(f@.take(2) =~= org_feature_prefix());
                    }
                    if has_prefix(f@, org_feature_prefix()) {
                        assert(f@.take(2)[0] == 'o');
                        assert(f@.take(2)[1] == ':');
                    }
                }
            }
            if is_org {
                push_granted(&mut out, f.as_slice(), 2, &ps, parsed[k]);
            }
            k = k + 1;
        }
        out
    }
}

/// Claims of a signature-checked JWT: the registered claims the library
/// reads, as unix seconds, and Clerk's custom claims.
#[derive(Debug)]
pub struct JwtClaims {
    /// `sub`.
    pub subject: Option<String>,
    /// `exp`, unix seconds.
    pub expires_at: Option<u64>,
    /// `nbf`, unix seconds.
    pub invalid_before: Option<u64>,
    /// `iat`, unix seconds.
    pub issued_at: Option<u64>,
    /// Clerk's custom claims.
    pub custom: ClerkJwtClaims,
}

/// A timestamp as `i64` seconds; absent, or too large for `i64`, is `None`.
pub open spec fn timestamp_value(timestamp: Option<u64>) -> Option<i64> {
    match timestamp {
        Some(t) => if t <= i64::MAX {
            Some(t as i64)
        } else {
            None
        },
        None => None,
    }
}

/// Converts a timestamp in seconds to `i64`.
pub fn timestamp_seconds(timestamp: Option<u64>) -> (r: Option<i64>)
    ensures
        r == timestamp_value(timestamp),
{
    match timestamp {
        Some(t) => if t <= i64::MAX as u64 {
            Some(t as i64)
        } else {
            None
        },
        None => None,
    }
}

/// What a signature-checked token's claims grant, organization claims
/// included, before they are taken apart.
pub open spec fn claims_grant_auth(jwt: JwtClaims) -> bool {
    &&& nonempty_text(jwt.subject.deep_view()) is Some
    &&& timestamp_value(jwt.expires_at) is Some
}

/// The organization id, slug, role and permissions that `jwt` grants:
/// from the compact `o` claim when present, else from the v1 claims.
pub open spec fn org_claims_match(jwt: JwtClaims, auth: ClerkAuth) -> bool {
    match jwt.custom.organization {
        Some(o) => if o.id@.len() == 0 {
            &&& auth.org_id is None
            &&& auth.org_slug is None
            &&& auth.org_role is None
            &&& auth.org_permissions@.len() == 0
        } else {
            &&& auth.org_id.deep_view() == Some(o.id@)
            &&& auth.org_slug.deep_view() == nonempty_text(o.slug.deep_view())
            &&& auth.org_role.deep_view() == role_claim(o.role.deep_view())
            &&& auth.org_permissions.deep_view() == decoded_permissions(
                jwt.custom.features.deep_view(),
                o.permissions.deep_view(),
                o.feature_permission_map.deep_view(),
            )
        },
        None => {
            &&& auth.org_id.deep_view() == jwt.custom.org_id.deep_view()
            &&& auth.org_slug.deep_view() == jwt.custom.org_slug.deep_view()
            &&& auth.org_role.deep_view() == jwt.custom.org_role.deep_view()
            &&& auth.org_permissions.deep_view() == jwt.custom.org_permissions.deep_view()
        },
    }
}

/// The [`ClerkAuth`] that `jwt` yields: its subject, session id,
/// organization claims and timestamps (`nbf` and `iat` default to 0).
pub open spec fn auth_from_claims(jwt: JwtClaims, auth: ClerkAuth) -> bool {
    &&& Some(auth.user_id@) == jwt.subject.deep_view()
    &&& auth.session_id.deep_view() == jwt.custom.session_id.deep_view()
    &&& org_claims_match(jwt, auth)
    &&& Some(auth.exp) == timestamp_value(jwt.expires_at)
    &&& auth.nbf == match timestamp_value(jwt.invalid_before) {
        Some(v) => v,
        None => 0,
    }
    &&& auth.iat == match timestamp_value(jwt.issued_at) {
        Some(v) => v,
        None => 0,
    }
}

/// Claims whose signature, expiry and audience have been checked.
#[derive(Debug)]
pub struct VerifiedClerkClaims {
    pub jwt: JwtClaims,
}

impl VerifiedClerkClaims {
    /// Wraps verified claims.
    pub fn new(jwt: JwtClaims) -> (r: Self)
        ensures
            r.jwt == jwt,
    {
        VerifiedClerkClaims { jwt }
    }

    /// The outcome of a token with these claims: valid with the auth they
    /// yield, or invalid when they name no user or carry no usable `exp`.
    pub fn into_outcome(self) -> (r: VerificationOutcome)
        ensures
            claims_grant_auth(self.jwt) ==> (r matches VerificationOutcome::Valid(a) && auth_from_claims(self.jwt, a)),
            !claims_grant_auth(self.jwt) ==> r == VerificationOutcome::Invalid(InvalidTokenReason::Other),
    {
        match self.into_auth() {
            Some(auth) => VerificationOutcome::Valid(auth),
            None => VerificationOutcome::Invalid(InvalidTokenReason::Other),
        }
    }

    /// The auth these claims yield, if they name a user and carry an `exp`.
    pub fn into_auth(self) -> (r: Option<ClerkAuth>)
        ensures
            claims_grant_auth(self.jwt) ==> (r matches Some(a) && auth_from_claims(self.jwt, a)),
            !claims_grant_auth(self.jwt) ==> r is None,
    {
        let ghost jwt0 = self.jwt;
        let jwt = self.jwt;
        let user_id = match jwt.subject {
            Some(sub) => if sub.as_str().is_empty() {
                return None;
            } else {
                sub
            },
            None => {
                return None;
            },
        };
        let exp = match timestamp_seconds(jwt.expires_at) {
            Some(e) => e,
            None => {
                return None;
            },
        };
        let nbf = match timestamp_seconds(jwt.invalid_before) {
            Some(v) => v,
            None => 0,
        };
        let iat = match timestamp_seconds(jwt.issued_at) {
            Some(v) => v,
            None => 0,
        };
        let custom = jwt.custom;
        let features = custom.features;
        let organization = match custom.organization {
            Some(organization) => organization.into_auth_claims(opt_as_str(&features)),
            None => OrganizationAuthClaims {
                id: custom.org_id,
                slug: custom.org_slug,
                role: custom.org_role,
                permissions: custom.org_permissions,
            },
        };
        let auth = ClerkAuth {
            user_id,
            session_id: custom.session_id,
            org_id: organization.id,
            org_slug: organization.slug,
            org_role: organization.role,
            org_permissions: organization.permissions,
            exp,
            nbf,
            iat,
        };
        assert(auth_from_claims(jwt0, auth));
        Some(auth)
    }
}

} // verus!
