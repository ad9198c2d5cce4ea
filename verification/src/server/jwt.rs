//! The checks a Clerk session JWT goes through around its signature check.
use vstd::prelude::*;

use ct_codecs::{Base64UrlSafeNoPadding, Decoder};
use std::time::Duration;

use jwk_simple::KeySet;

use super::claims::{JwtClaims, VerifiedClerkClaims, nonempty_text};
use super::verification::VerificationFailure;
use crate::auth::InvalidTokenReason;
use crate::duration::{duration_millis, whole_millis};
use crate::text::{
    before_first, chars_of, clone_strings, contains_text, eq_ignore_ascii_case_chars, eq_ignore_ascii_case_spec,
    lemma_before_first_step, opt_text, string_from_chars,
};

verus! {

broadcast use vstd::string::group_string_axioms;

/// The bytes that unpadded URL-safe base64 (RFC 4648 §5) text decodes to;
/// `None` for text that is not valid unpadded URL-safe base64.
pub uninterp spec fn base64_url_decoded(input: Seq<char>) -> Option<Seq<u8>>;

/// `Base64UrlSafeNoPadding::decode_to_vec(input, None)` of `ct-codecs`: the
/// decoded bytes, or `None` where the text is not unpadded URL-safe base64
/// (padding, characters outside the alphabet, or leftover bits).
#[verifier::external_body]
fn decode_base64_url(input: &str) -> (r: Option<Vec<u8>>)
    ensures
        match r {
            Some(v) => base64_url_decoded(input@) == Some(v@),
            None => base64_url_decoded(input@) is None,
        },
{
    Base64UrlSafeNoPadding::decode_to_vec(input, None).ok()
}

/// Decodes unpadded URL-safe base64, as JWT segments are encoded.
pub fn base64_url_decode(input: &str) -> (r: Option<Vec<u8>>)
    ensures
        match r {
            Some(v) => base64_url_decoded(input@) == Some(v@),
            None => base64_url_decoded(input@) is None,
        },
{
    decode_base64_url(input)
}

/// The header segment of a compact JWT: the text before the first `.`.
pub open spec fn header_segment(token: Seq<char>) -> Seq<char> {
    before_first(token, '.')
}

/// The characters of `token` before its first `.`.
fn token_header_segment(token: &str) -> (r: Vec<char>)
    ensures
        r@ == header_segment(token@),
{
    let chars = chars_of(token);
    let mut out: Vec<char> = Vec::new();
    let mut i: usize = 0;
    while i < chars.len()
        invariant
            chars@ == token@,
            i <= chars@.len(),
            out@ == chars@.take(i as int),
            forall|j: int| 0 <= j < i ==> chars@[j] != '.',
        decreases chars@.len() - i,
    {
        if chars[i] == '.' {
            proof {
                if i > 0 {
                    lemma_before_first_step(chars@, '.', i - 1);
                    assert(chars@.take(i as int) =~= chars@.take(i - 1 + 1));
                }
                assert(chars@.skip(i as int)[0] == '.');
                assert(before_first(chars@.skip(i as int), '.') == Seq::<char>::empty());
                assert(chars@.take(i as int) + Seq::<char>::empty() =~= chars@.take(i as int));
                if i == 0 {
                    assert(chars@.skip(0) =~= chars@);
                    assert(chars@.take(0) =~= Seq::<char>::empty());
                }
            }
            return out;
        }
        out.push(chars[i]);
        assert(chars@.take(i + 1) =~= chars@.take(i as int).push(chars@[i as int]));
        i = i + 1;
    }
    proof {
        if chars@.len() > 0 {
            lemma_before_first_step(chars@, '.', chars@.len() - 1);
            assert(chars@.skip(chars@.len() as int) =~= Seq::<char>::empty());
            assert(chars@.take(chars@.len() as int) + Seq::<char>::empty() =~= chars@.take(chars@.len() as int));
        }
        assert(chars@.take(chars@.len() as int) =~= chars@);
    }
    out
}

/// The decoded JSON header of a compact JWT: the bytes its first segment
/// decodes to.
pub fn token_header_bytes(token: &str) -> (r: Option<Vec<u8>>)
    ensures
        match r {
            Some(v) => base64_url_decoded(header_segment(token@)) == Some(v@),
            None => base64_url_decoded(header_segment(token@)) is None,
        },
{
    let segment = token_header_segment(token);
    let text = string_from_chars(segment.as_slice());
    base64_url_decode(text.as_str())
}

/// The fields of a JWT header that verification reads.
#[derive(Debug)]
pub struct JwtHeader {
    pub kid: Option<String>,
    pub alg: Option<String>,
    pub typ: Option<String>,
}

/// `RS256`, the only signing algorithm accepted.
pub open spec fn rs256() -> Seq<char> {
    seq!['R', 'S', '2', '5', '6']
}

/// `JWT`, the header type required (in any ASCII case).
pub open spec fn jwt_type() -> Seq<char> {
    seq!['J', 'W', 'T']
}

/// The key id of a header that announces an RS256-signed JWT; `None` for
/// a missing header, another algorithm, another type or a missing `kid`.
pub open spec fn header_key_id(header: Option<JwtHeader>) -> Option<Seq<char>> {
    match header {
        Some(h) => if h.alg.deep_view() == Some(rs256()) && (h.typ matches Some(t) && eq_ignore_ascii_case_spec(
            t@,
            jwt_type(),
        )) {
            h.kid.deep_view()
        } else {
            None
        },
        None => None,
    }
}

/// What a jwt-simple validation error says about the token.
#[derive(Debug, Clone, Copy, PartialEq, Eq, Structural)]
pub enum JwtErrorKind {
    /// `exp` is past.
    TokenHasExpired,
    /// `nbf` is in the future.
    TokenNotValidYet,
    /// `iat` is in the future beyond the tolerance.
    ClockDrift,
    /// Any other failure.
    Other,
}

/// The reason a token failed validation with an error of this kind.
pub fn invalid_reason(kind: JwtErrorKind) -> (r: InvalidTokenReason)
    ensures
        r == match kind {
            JwtErrorKind::TokenHasExpired => InvalidTokenReason::Expired,
            JwtErrorKind::TokenNotValidYet | JwtErrorKind::ClockDrift => InvalidTokenReason::NotYetValid,
            JwtErrorKind::Other => InvalidTokenReason::Other,
        },
{
    match kind {
        JwtErrorKind::TokenHasExpired => InvalidTokenReason::Expired,
        // ClockDrift is jwt-simple's "iat is in the future beyond tolerance".
        JwtErrorKind::TokenNotValidYet | JwtErrorKind::ClockDrift => InvalidTokenReason::NotYetValid,
        JwtErrorKind::Other => InvalidTokenReason::Other,
    }
}

/// Milliseconds as `u64`, saturating.
pub open spec fn saturated_millis(millis: u128) -> u64 {
    if millis <= u64::MAX {
        millis as u64
    } else {
        u64::MAX
    }
}

/// A clock skew in milliseconds as `u64`, saturating.
pub fn clock_skew_millis(millis: u128) -> (r: u64)
    ensures
        r == saturated_millis(millis),
{
    if millis <= u64::MAX as u128 {
        millis as u64
    } else {
        u64::MAX
    }
}

/// A key of jwk-simple.
#[verifier::external_type_specification]
#[verifier::external_body]
pub struct ExJwk(jwk_simple::Key);

/// An RS256 public key of jwt-simple.
#[verifier::external_type_specification]
#[verifier::external_body]
pub struct ExRs256PublicKey(jwt_simple::algorithms::RS256PublicKey);

/// The key jwk-simple's strict selector picks from `keyset` for verifying
/// an RS256 signature under key id `kid`, or `None` where no key qualifies.
/// A function of the key set and the key id alone.
pub uninterp spec fn selected_rs256_key(keyset: KeySet, kid: Seq<char>) -> Option<jwk_simple::Key>;

/// The jwt-simple RS256 verifier a key converts to, or `None` where
/// jwk-simple's conversion refuses it. A function of the key alone.
pub uninterp spec fn rs256_key_of(key: jwk_simple::Key) -> Option<jwt_simple::algorithms::RS256PublicKey>;

/// `KeySet::selector(&[Rs256]).select(KeyMatcher::new(Verify, Rs256).with_kid(kid))`
/// of jwk-simple: the key allowed to verify RS256 signatures under `kid`.
#[verifier::external_body]
fn select_rs256_key(keyset: &KeySet, kid: &str) -> (r: Option<jwk_simple::Key>)
    ensures
        r == selected_rs256_key(*keyset, kid@),
{
    keyset
        .selector(&[jwk_simple::Algorithm::Rs256])
        .select(jwk_simple::KeyMatcher::new(jwk_simple::KeyOperation::Verify, jwk_simple::Algorithm::Rs256).with_kid(kid))
        .ok()
        .cloned()
}

/// `RS256PublicKey::try_from(&key)` of jwk-simple's jwt-simple adapter: the
/// verifier for an RSA key that passes its checks.
#[verifier::external_body]
fn rs256_verifier(key: &jwk_simple::Key) -> (r: Option<jwt_simple::algorithms::RS256PublicKey>)
    ensures
        r == rs256_key_of(*key),
{
    jwt_simple::algorithms::RS256PublicKey::try_from(key).ok()
}

/// The RS256 verifier for the key under `kid`: the key is selected
/// strictly (one that permits verifying RS256 signatures), then converted;
/// a token whose key cannot be had this way is invalid.
pub fn rs256_key_for_kid(keyset: &KeySet, kid: &str) -> (r: Result<jwt_simple::algorithms::RS256PublicKey, VerificationFailure>)
    ensures
        r == match selected_rs256_key(*keyset, kid@) {
            Some(key) => match rs256_key_of(key) {
                Some(verifier) => Ok::<jwt_simple::algorithms::RS256PublicKey, VerificationFailure>(verifier),
                None => Err(VerificationFailure::Invalid(InvalidTokenReason::Other)),
            },
            None => Err(VerificationFailure::Invalid(InvalidTokenReason::Other)),
        },
{
    match select_rs256_key(keyset, kid) {
        Some(key) => match rs256_verifier(&key) {
            Some(verifier) => Ok(verifier),
            None => Err(VerificationFailure::invalid()),
        },
        None => Err(VerificationFailure::invalid()),
    }
}

/// The checks a signature-verified token must pass inside the JWT library,
/// for one key id.
#[derive(Debug)]
pub struct TokenChecks {
    /// Tolerated clock skew for `exp`, `nbf` and `iat`, in milliseconds (so
    /// a sub-second skew is not truncated to zero).
    pub time_tolerance_ms: u64,
    /// The `typ` the header must announce.
    pub required_signature_type: String,
    /// The `kid` the header must carry.
    pub required_key_id: String,
    /// Accepted `aud` values, or `None` for no audience check.
    pub allowed_audiences: Option<Vec<String>>,
    /// Accepted `iss` values, or `None` for no issuer check.
    pub allowed_issuers: Option<Vec<String>>,
}

/// A pinned list, or no check when nothing is pinned.
pub open spec fn pinned(values: Seq<Seq<char>>) -> Option<Seq<Seq<char>>> {
    if values.len() == 0 {
        None
    } else {
        Some(values)
    }
}

/// What a token must satisfy besides its signature.
#[derive(Debug)]
pub struct JwtVerificationProfile {
    /// Accepted `azp` origins; empty accepts any.
    pub authorized_parties: Vec<String>,
    /// Accepted `aud` values; empty skips the check.
    pub audiences: Vec<String>,
    /// Accepted `iss` values; empty skips the check.
    pub issuers: Vec<String>,
    /// Tolerated clock skew for `exp`, `nbf` and `iat`.
    pub clock_skew: Duration,
    /// Whether a `sid` claim is required.
    pub require_session_id: bool,
}

/// Whether an `azp` claim is acceptable: no parties configured, no `azp`
/// in the token, or one of the configured parties.
pub open spec fn authorized_party_ok(parties: Seq<Seq<char>>, azp: Option<Seq<char>>) -> bool {
    parties.len() == 0 || azp is None || parties.contains(azp->0)
}

impl JwtVerificationProfile {
    /// A profile with these settings.
    pub fn new(
        authorized_parties: Vec<String>,
        audiences: Vec<String>,
        issuers: Vec<String>,
        clock_skew: Duration,
        require_session_id: bool,
    ) -> (r: Self)
        ensures
            r.authorized_parties == authorized_parties,
            r.audiences == audiences,
            r.issuers == issuers,
            r.clock_skew == clock_skew,
            r.require_session_id == require_session_id,
    {
        JwtVerificationProfile { authorized_parties, audiences, issuers, clock_skew, require_session_id }
    }

    /// The key id of a token whose decoded header is `header`: the header
    /// must announce an RS256-signed `JWT` and carry a `kid`.
    pub fn key_id_from_header(&self, header: Option<JwtHeader>) -> (r: Result<String, VerificationFailure>)
        ensures
            match header_key_id(header) {
                Some(kid) => r matches Ok(s) && s@ == kid,
                None => r == Err::<String, VerificationFailure>(VerificationFailure::Invalid(InvalidTokenReason::Other)),
            },
    {
        let header = match header {
            Some(h) => h,
            None => {
                return Err(VerificationFailure::invalid());
            },
        };
        let alg_ok = match &header.alg {
            Some(alg) => {
                let mut expected: Vec<char> = Vec::new();
                expected.push('R');
                expected.push('S');
                expected.push('2');
                expected.push('5');
                expected.push('6');
                assert(expected@ =~= rs256());
                let got = chars_of(alg.as_str());
                crate::text::same_chars(got.as_slice(), expected.as_slice())
            },
            None => false,
        };
        if !alg_ok {
            return Err(VerificationFailure::invalid());
        }
        let typ_ok = match &header.typ {
            Some(typ) => {
                let mut expected: Vec<char> = Vec::new();
                expected.push('J');
                expected.push('W');
                expected.push('T');
                assert(expected@ =~= jwt_type());
                let got = chars_of(typ.as_str());
                eq_ignore_ascii_case_chars(got.as_slice(), expected.as_slice())
            },
            None => false,
        };
        if !typ_ok {
            return Err(VerificationFailure::invalid());
        }
        match header.kid {
            Some(kid) => Ok(kid),
            None => Err(VerificationFailure::invalid()),
        }
    }

    /// Reject instance-signed JWTs that are not session tokens when the profile
    /// requires a session id. Clerk session tokens carry `sid`; JWT-template
    /// tokens do not, so this keeps a leaked template token from being replayed
    /// as a session.
    pub fn validate_session_token(&self, sid: Option<&str>) -> (r: Result<(), VerificationFailure>)
        ensures
            r is Ok <==> !(self.require_session_id && sid is None),
            r is Err ==> r == Err::<(), VerificationFailure>(VerificationFailure::Invalid(InvalidTokenReason::Other)),
    {
        if self.require_session_id && sid.is_none() {
            return Err(VerificationFailure::invalid());
        }
        Ok(())
    }

    /// Checks the `azp` claim against the configured parties. Tokens
    /// without `azp` are accepted, matching Clerk's guidance.
    pub fn validate_authorized_party(&self, azp: Option<&str>) -> (r: Result<(), VerificationFailure>)
        ensures
            r is Ok <==> authorized_party_ok(self.authorized_parties.deep_view(), opt_text(azp)),
            r is Err ==> r == Err::<(), VerificationFailure>(VerificationFailure::Invalid(InvalidTokenReason::Other)),
    {
        if self.authorized_parties.len() == 0 {
            return Ok(());
        }
        match azp {
            None => Ok(()),
            Some(azp) => if contains_text(self.authorized_parties.as_slice(), azp) {
                Ok(())
            } else {
                Err(VerificationFailure::invalid())
            },
        }
    }

    /// The checks for a token signed under `kid`: a `JWT` type, that key id,
    /// the clock skew, and the audiences and issuers when any are
    /// configured; with none configured, `aud` and `iss` are not checked.
    pub fn verification_options(&self, kid: &str) -> (r: TokenChecks)
        ensures
            r.time_tolerance_ms == saturated_millis(duration_millis(self.clock_skew)),
            r.required_signature_type@ == jwt_type(),
            r.required_key_id@ == kid@,
            r.allowed_audiences.deep_view() == pinned(self.audiences.deep_view()),
            r.allowed_issuers.deep_view() == pinned(self.issuers.deep_view()),
    {
        let mut typ = String::new();
        crate::text::push_str(&mut typ, "JWT");
        proof {
            reveal_strlit("JWT");
        }
        assert(typ@ =~= jwt_type());
        let allowed_audiences = if self.audiences.len() == 0 {
            None
        } else {
            Some(clone_strings(&self.audiences))
        };
        let allowed_issuers = if self.issuers.len() == 0 {
            None
        } else {
            Some(clone_strings(&self.issuers))
        };
        TokenChecks {
            time_tolerance_ms: clock_skew_millis(whole_millis(&self.clock_skew)),
            required_signature_type: typ,
            required_key_id: kid.to_owned(),
            allowed_audiences,
            allowed_issuers,
        }
    }

    /// Accepts the claims of a token whose signature, expiry, audience and
    /// issuer checked out, if its `azp` is acceptable and it carries a `sid`
    /// where one is required.
    pub fn accept_claims(&self, jwt: JwtClaims) -> (r: Result<VerifiedClerkClaims, VerificationFailure>)
        ensures
            r is Ok <==> (authorized_party_ok(
                self.authorized_parties.deep_view(),
                jwt.custom.authorized_party.deep_view(),
            ) && !(self.require_session_id && nonempty_text(jwt.custom.session_id.deep_view()) is None)),
            r matches Ok(v) ==> v.jwt == jwt,
            r is Err ==> r == Err::<VerifiedClerkClaims, VerificationFailure>(
                VerificationFailure::Invalid(InvalidTokenReason::Other),
            ),
    {
        let azp_ok = self.validate_authorized_party(jwt.custom.authorized_party());
        if azp_ok.is_err() {
            return Err(VerificationFailure::invalid());
        }
        let sid_ok = self.validate_session_token(jwt.custom.session_id());
        if sid_ok.is_err() {
            return Err(VerificationFailure::invalid());
        }
        Ok(VerifiedClerkClaims::new(jwt))
    }
}

} // verus!
