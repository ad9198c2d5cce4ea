//! Configuration for server-side Clerk request verification.
use vstd::prelude::*;

use std::time::Duration;

use super::jwt::JwtVerificationProfile;
use crate::auth::ClerkError;
use crate::duration::{duration_from_secs, duration_millis, secs_duration};
use crate::text::{chars_of, push_str, same_text};

verus! {

broadcast use vstd::string::group_string_axioms;

/// A parsed URL of the `url` crate (re-exported by reqwest).
#[verifier::external_type_specification]
#[verifier::external_body]
pub struct ExUrl(reqwest::Url);

/// What `reqwest::Url::parse` makes of `text`: the parsed URL with its
/// scheme, or the text of the parse error. A function of the text alone.
pub uninterp spec fn url_parse_outcome(text: Seq<char>) -> Result<(reqwest::Url, Seq<char>), Seq<char>>;

/// `reqwest::Url::parse(text)`: the URL and its scheme, or the error's
/// text.
#[verifier::external_body]
fn parse_url(text: &str) -> (r: Result<(reqwest::Url, String), String>)
    ensures
        match r {
            Ok((url, scheme)) => url_parse_outcome(text@) == Ok::<(reqwest::Url, Seq<char>), Seq<char>>(
                (url, scheme@),
            ),
            Err(message) => url_parse_outcome(text@) == Err::<(reqwest::Url, Seq<char>), Seq<char>>(message@),
        },
{
    match reqwest::Url::parse(text) {
        Ok(url) => {
            let scheme = url.scheme().to_string();
            Ok((url, scheme))
        },
        Err(error) => Err(error.to_string()),
    }
}

/// The default accepted clock skew, in seconds.
pub const DEFAULT_CLOCK_SKEW_SECS: u64 = 5;

/// `https://api.clerk.com/v1`, Clerk's Backend API base URL.
pub open spec fn default_backend_api_base_url() -> Seq<char> {
    "https://api.clerk.com/v1"@
}

/// Configuration for the verification layer.
///
/// # Security: default claim acceptance
///
/// By default, with no issuers, audiences, or authorized parties configured,
/// verification accepts any RS256 JWT that is signed by your instance's JWKS
/// and passes standard `exp`/`nbf` validation. The `iss`, `aud`, and `azp`
/// claims are not checked. This is safe for the single-instance case: the
/// JWKS endpoint is scoped to your Clerk instance by the secret key.
///
/// # Security: session tokens only, by default
///
/// Verification accepts only Clerk session tokens by default: a token must
/// carry a `sid` claim. Clerk JWT-template tokens omit `sid`, so a leaked
/// template token cannot be replayed to authenticate as its user. Opt out
/// with [`allow_non_session_tokens`](Self::allow_non_session_tokens).
pub struct ClerkAuthLayerConfig {
    pub secret_key: String,
    pub backend_api_base_url: String,
    pub allow_insecure_backend_api_base_url: bool,
    pub authorized_parties: Vec<String>,
    pub audiences: Vec<String>,
    pub issuers: Vec<String>,
    pub clock_skew: Duration,
    pub require_session_id: bool,
}

/// Owned copies of string slices.
pub(crate) fn owned_strings(items: &[&str]) -> (r: Vec<String>)
    ensures
        r.deep_view() == items@.map_values(|s: &str| s@),
{
    let mut out: Vec<String> = Vec::new();
    let mut i: usize = 0;
    while i < items.len()
        invariant
            i <= items@.len(),
            out.deep_view() == items@.take(i as int).map_values(|s: &str| s@),
        decreases items@.len() - i,
    {
        let ghost before = out.deep_view();
        out.push(items[i].to_owned());
        assert(out.deep_view() =~= before.push(items@[i as int]@));
        assert(items@.take(i + 1).map_values(|s: &str| s@) =~= items@.take(i as int).map_values(|s: &str| s@).push(
            items@[i as int]@,
        ));
        i = i + 1;
    }
    assert(items@.take(items@.len() as int) =~= items@);
    out
}

/// `s` without its trailing `/` characters.
pub open spec fn trim_end_slashes(s: Seq<char>) -> Seq<char>
    decreases s.len(),
{
    if s.len() > 0 && s.last() == '/' {
        trim_end_slashes(s.drop_last())
    } else {
        s
    }
}

/// The JWKS endpoint text for a Backend API base URL: the base without
/// trailing slashes, then `/jwks`.
pub open spec fn jwks_url_text(base: Seq<char>) -> Seq<char> {
    trim_end_slashes(base) + "/jwks"@
}

/// The error text for a base URL that does not parse.
pub open spec fn invalid_base_url_message(error: Seq<char>) -> Seq<char> {
    "invalid Clerk Backend API base URL: "@ + error
}

/// The error text for a plain-HTTP base URL that was not allowed.
pub open spec fn insecure_base_url_message() -> Seq<char> {
    "Clerk Backend API base URL must use https; use with_insecure_backend_api_base_url only for local tests"@
}

/// The message of a missing secret key variable.
pub open spec fn missing_secret_key_message() -> Seq<char> {
    "missing CLERK_SECRET_KEY environment variable"@
}

/// Whether `config` is the default config for `secret_key`: Clerk's default
/// Backend API base URL over HTTPS, no authorized parties, audiences or
/// issuers, and session tokens required.
pub open spec fn is_default_config(config: ClerkAuthLayerConfig, secret_key: Seq<char>) -> bool {
    &&& config.secret_key@ == secret_key
    &&& config.backend_api_base_url@ == default_backend_api_base_url()
    &&& !config.allow_insecure_backend_api_base_url
    &&& config.authorized_parties@.len() == 0
    &&& config.audiences@.len() == 0
    &&& config.issuers@.len() == 0
    &&& config.require_session_id
    &&& config.clock_skew == duration_from_secs(DEFAULT_CLOCK_SKEW_SECS)
    &&& duration_millis(config.clock_skew) == DEFAULT_CLOCK_SKEW_SECS * 1000
}

impl ClerkAuthLayerConfig {
    /// Creates a config using Clerk's default Backend API base URL: no
    /// authorized parties, audiences or issuers, a five-second clock skew,
    /// and session tokens required.
    pub fn new(secret_key: &str) -> (r: Self)
        ensures
            r.secret_key@ == secret_key@,
            r.backend_api_base_url@ == default_backend_api_base_url(),
            !r.allow_insecure_backend_api_base_url,
            r.authorized_parties@.len() == 0,
            r.audiences@.len() == 0,
            r.issuers@.len() == 0,
            r.require_session_id,
            r.clock_skew == duration_from_secs(DEFAULT_CLOCK_SKEW_SECS),
            duration_millis(r.clock_skew) == DEFAULT_CLOCK_SKEW_SECS * 1000,
    {
        let mut base = String::new();
        push_str(&mut base, "https://api.clerk.com/v1");
        ClerkAuthLayerConfig {
            secret_key: secret_key.to_owned(),
            backend_api_base_url: base,
            allow_insecure_backend_api_base_url: false,
            authorized_parties: Vec::new(),
            audiences: Vec::new(),
            issuers: Vec::new(),
            clock_skew: secs_duration(DEFAULT_CLOCK_SKEW_SECS),
            require_session_id: true,
        }
    }

    /// Creates a config from the value of the conventional
    /// `CLERK_SECRET_KEY` environment variable, as read by the caller
    /// (`None` when it is unset or not Unicode).
    pub fn from_env_value(secret_key: Option<&str>) -> (r: Result<Self, ClerkError>)
        ensures
            match secret_key {
                Some(key) => r matches Ok(config) && is_default_config(config, key@),
                None => r matches Err(ClerkError::InvalidConfig(m)) && m@ == missing_secret_key_message(),
            },
    {
        match secret_key {
            Some(key) => Ok(ClerkAuthLayerConfig::new(key)),
            None => {
                let mut message = String::new();
                push_str(&mut message, "missing CLERK_SECRET_KEY environment variable");
                Err(ClerkError::InvalidConfig(message))
            },
        }
    }

    /// Sets the HTTPS Clerk Backend API base URL, including API version.
    /// The JWKS endpoint is derived by appending `/jwks` to this base URL.
    pub fn with_backend_api_base_url(self, url: &str) -> (r: Self)
        ensures
            r.backend_api_base_url@ == url@,
            !r.allow_insecure_backend_api_base_url,
            r.secret_key == self.secret_key,
            r.authorized_parties == self.authorized_parties,
            r.audiences == self.audiences,
            r.issuers == self.issuers,
            r.clock_skew == self.clock_skew,
            r.require_session_id == self.require_session_id,
    {
        ClerkAuthLayerConfig {
            backend_api_base_url: url.to_owned(),
            allow_insecure_backend_api_base_url: false,
            ..self
        }
    }

    /// Sets a local/test-only HTTP Backend API base URL. This explicitly
    /// allows `http://` URLs for local JWKS mocks; plain HTTP allows JWKS
    /// response tampering.
    pub fn with_insecure_backend_api_base_url(self, url: &str) -> (r: Self)
        ensures
            r.backend_api_base_url@ == url@,
            r.allow_insecure_backend_api_base_url,
            r.secret_key == self.secret_key,
            r.authorized_parties == self.authorized_parties,
            r.audiences == self.audiences,
            r.issuers == self.issuers,
            r.clock_skew == self.clock_skew,
            r.require_session_id == self.require_session_id,
    {
        ClerkAuthLayerConfig {
            backend_api_base_url: url.to_owned(),
            allow_insecure_backend_api_base_url: true,
            ..self
        }
    }

    /// Adds a single allowed `azp` authorized-party origin.
    pub fn add_authorized_party(self, party: &str) -> (r: Self)
        ensures
            r.authorized_parties.deep_view() == self.authorized_parties.deep_view().push(party@),
            r.backend_api_base_url == self.backend_api_base_url,
            r.allow_insecure_backend_api_base_url == self.allow_insecure_backend_api_base_url,
            r.secret_key == self.secret_key,
            r.audiences == self.audiences,
            r.issuers == self.issuers,
            r.clock_skew == self.clock_skew,
            r.require_session_id == self.require_session_id,
    {
        let mut s = self;
        let ghost before = s.authorized_parties.deep_view();
        s.authorized_parties.push(party.to_owned());
        assert(s.authorized_parties.deep_view() =~= before.push(party@));
        s
    }

    /// Sets allowed `azp` authorized-party origins. When configured, a token
    /// with an `azp` claim must match one of these; tokens without `azp` are
    /// still accepted, matching Clerk's manual verification guidance.
    pub fn with_authorized_parties(self, parties: &[&str]) -> (r: Self)
        ensures
            r.authorized_parties.deep_view() == parties@.map_values(|s: &str| s@),
            r.backend_api_base_url == self.backend_api_base_url,
            r.allow_insecure_backend_api_base_url == self.allow_insecure_backend_api_base_url,
            r.secret_key == self.secret_key,
            r.audiences == self.audiences,
            r.issuers == self.issuers,
            r.clock_skew == self.clock_skew,
            r.require_session_id == self.require_session_id,
    {
        ClerkAuthLayerConfig { authorized_parties: owned_strings(parties), ..self }
    }

    /// Adds a single allowed JWT audience.
    pub fn add_audience(self, audience: &str) -> (r: Self)
        ensures
            r.audiences.deep_view() == self.audiences.deep_view().push(audience@),
            r.backend_api_base_url == self.backend_api_base_url,
            r.allow_insecure_backend_api_base_url == self.allow_insecure_backend_api_base_url,
            r.secret_key == self.secret_key,
            r.authorized_parties == self.authorized_parties,
            r.issuers == self.issuers,
            r.clock_skew == self.clock_skew,
            r.require_session_id == self.require_session_id,
    {
        let mut s = self;
        let ghost before = s.audiences.deep_view();
        s.audiences.push(audience.to_owned());
        assert(s.audiences.deep_view() =~= before.push(audience@));
        s
    }

    /// Sets allowed JWT audiences.
    pub fn with_audiences(self, audiences: &[&str]) -> (r: Self)
        ensures
            r.audiences.deep_view() == audiences@.map_values(|s: &str| s@),
            r.backend_api_base_url == self.backend_api_base_url,
            r.allow_insecure_backend_api_base_url == self.allow_insecure_backend_api_base_url,
            r.secret_key == self.secret_key,
            r.authorized_parties == self.authorized_parties,
            r.issuers == self.issuers,
            r.clock_skew == self.clock_skew,
            r.require_session_id == self.require_session_id,
    {
        ClerkAuthLayerConfig { audiences: owned_strings(audiences), ..self }
    }

    /// Adds a single allowed JWT issuer. Clerk session tokens carry the
    /// instance frontend origin as `iss`; when configured, tokens whose `iss`
    /// is missing or does not match are rejected.
    pub fn add_issuer(self, issuer: &str) -> (r: Self)
        ensures
            r.issuers.deep_view() == self.issuers.deep_view().push(issuer@),
            r.backend_api_base_url == self.backend_api_base_url,
            r.allow_insecure_backend_api_base_url == self.allow_insecure_backend_api_base_url,
            r.secret_key == self.secret_key,
            r.authorized_parties == self.authorized_parties,
            r.audiences == self.audiences,
            r.clock_skew == self.clock_skew,
            r.require_session_id == self.require_session_id,
    {
        let mut s = self;
        let ghost before = s.issuers.deep_view();
        s.issuers.push(issuer.to_owned());
        assert(s.issuers.deep_view() =~= before.push(issuer@));
        s
    }

    /// Sets allowed JWT issuers.
    pub fn with_issuers(self, issuers: &[&str]) -> (r: Self)
        ensures
            r.issuers.deep_view() == issuers@.map_values(|s: &str| s@),
            r.backend_api_base_url == self.backend_api_base_url,
            r.allow_insecure_backend_api_base_url == self.allow_insecure_backend_api_base_url,
            r.secret_key == self.secret_key,
            r.authorized_parties == self.authorized_parties,
            r.audiences == self.audiences,
            r.clock_skew == self.clock_skew,
            r.require_session_id == self.require_session_id,
    {
        ClerkAuthLayerConfig { issuers: owned_strings(issuers), ..self }
    }

    /// Sets accepted clock skew for JWT `exp`, `nbf`, and `iat` validation.
    pub fn with_clock_skew(self, clock_skew: Duration) -> (r: Self)
        ensures
            r.clock_skew == clock_skew,
            r.backend_api_base_url == self.backend_api_base_url,
            r.allow_insecure_backend_api_base_url == self.allow_insecure_backend_api_base_url,
            r.secret_key == self.secret_key,
            r.authorized_parties == self.authorized_parties,
            r.audiences == self.audiences,
            r.issuers == self.issuers,
            r.require_session_id == self.require_session_id,
    {
        ClerkAuthLayerConfig { clock_skew, ..self }
    }

    /// Accept instance-signed JWTs that are not session tokens (tokens
    /// without a `sid` claim, such as Clerk JWT-template tokens).
    pub fn allow_non_session_tokens(self) -> (r: Self)
        ensures
            !r.require_session_id,
            r.backend_api_base_url == self.backend_api_base_url,
            r.allow_insecure_backend_api_base_url == self.allow_insecure_backend_api_base_url,
            r.secret_key == self.secret_key,
            r.authorized_parties == self.authorized_parties,
            r.audiences == self.audiences,
            r.issuers == self.issuers,
            r.clock_skew == self.clock_skew,
    {
        ClerkAuthLayerConfig { require_session_id: false, ..self }
    }

    /// The JWKS endpoint: the base URL without trailing slashes, then
    /// `/jwks`. It must parse, and use `https` unless plain HTTP was
    /// explicitly allowed.
    pub fn jwks_url(&self) -> (r: Result<reqwest::Url, ClerkError>)
        ensures
            match url_parse_outcome(jwks_url_text(self.backend_api_base_url@)) {
                Err(e) => r matches Err(ClerkError::InvalidConfig(m)) && m@ == invalid_base_url_message(e),
                Ok((url, scheme)) => if scheme != "https"@ && !self.allow_insecure_backend_api_base_url {
                    r matches Err(ClerkError::InvalidConfig(m)) && m@ == insecure_base_url_message()
                } else {
                    r == Ok::<reqwest::Url, ClerkError>(url)
                },
            },
    {
        let base = chars_of(self.backend_api_base_url.as_str());
        let mut end: usize = base.len();
        assert(base@.take(base@.len() as int) =~= base@);
        while end > 0 && base[end - 1] == '/'
            invariant
                end <= base@.len(),
                trim_end_slashes(base@) == trim_end_slashes(base@.take(end as int)),
            decreases end,
        {
            assert(base@.take(end as int).drop_last() =~= base@.take(end - 1));
            end = end - 1;
        }
        let mut text = String::new();
        let mut i: usize = 0;
        while i < end
            invariant
                i <= end <= base@.len(),
                text@ == base@.take(i as int),
            decreases end - i,
        {
            crate::text::push_char(&mut text, base[i]);
            assert(base@.take(i + 1) =~= base@.take(i as int).push(base@[i as int]));
            i = i + 1;
        }
        push_str(&mut text, "/jwks");
        match parse_url(text.as_str()) {
            Err(error) => {
                let mut message = String::new();
                push_str(&mut message, "invalid Clerk Backend API base URL: ");
                push_str(&mut message, error.as_str());
                Err(ClerkError::InvalidConfig(message))
            },
            Ok((url, scheme)) => {
                if !same_text(scheme.as_str(), "https") && !self.allow_insecure_backend_api_base_url {
                    let mut message = String::new();
                    push_str(
                        &mut message,
                        "Clerk Backend API base URL must use https; use with_insecure_backend_api_base_url only for local tests",
                    );
                    Err(ClerkError::InvalidConfig(message))
                } else {
                    Ok(url)
                }
            },
        }
    }
}

/// What a verifier is built from: the secret key, the JWKS endpoint, and
/// the token profile.
pub struct VerifierSettings {
    pub secret_key: String,
    pub jwks_url: reqwest::Url,
    pub profile: JwtVerificationProfile,
}

/// The error text for an empty secret key.
pub open spec fn empty_secret_key_message() -> Seq<char> {
    "Clerk secret key must not be empty"@
}

/// Checks a config and takes it apart into verifier settings: the secret
/// key must not be empty and the JWKS endpoint must be acceptable.
pub fn verifier_settings(config: ClerkAuthLayerConfig) -> (r: Result<VerifierSettings, ClerkError>)
    ensures
        config.secret_key@.len() == 0 ==> (r matches Err(ClerkError::InvalidConfig(m)) && m@
            == empty_secret_key_message()),
        config.secret_key@.len() > 0 ==> match url_parse_outcome(jwks_url_text(config.backend_api_base_url@)) {
            Err(e) => r matches Err(ClerkError::InvalidConfig(m)) && m@ == invalid_base_url_message(e),
            Ok((url, scheme)) => if scheme != "https"@ && !config.allow_insecure_backend_api_base_url {
                r matches Err(ClerkError::InvalidConfig(m)) && m@ == insecure_base_url_message()
            } else {
                r matches Ok(s) && {
                    &&& s.secret_key == config.secret_key
                    &&& s.jwks_url == url
                    &&& s.profile.authorized_parties == config.authorized_parties
                    &&& s.profile.audiences == config.audiences
                    &&& s.profile.issuers == config.issuers
                    &&& s.profile.clock_skew == config.clock_skew
                    &&& s.profile.require_session_id == config.require_session_id
                }
            },
        },
{
    if config.secret_key.as_str().is_empty() {
        let mut message = String::new();
        push_str(&mut message, "Clerk secret key must not be empty");
        return Err(ClerkError::InvalidConfig(message));
    }
    let jwks_url = match config.jwks_url() {
        Ok(url) => url,
        Err(e) => {
            return Err(e);
        },
    };
    let profile = JwtVerificationProfile::new(
        config.authorized_parties,
        config.audiences,
        config.issuers,
        config.clock_skew,
        config.require_session_id,
    );
    Ok(VerifierSettings { secret_key: config.secret_key, jwks_url, profile })
}

} // verus!
