//! The in-memory JWKS cache and its refresh decisions.
//!
//! Times are nanoseconds since the Unix epoch and durations are
//! nanoseconds; the caller reads the clock and passes the time in.
use vstd::prelude::*;

use jwk_simple::KeySet;
use std::sync::Arc;

use super::verification::VerificationFailure;
use crate::auth::InvalidTokenReason;

verus! {

/// The JSON Web Key Set type of `jwk-simple`.
#[verifier::external_type_specification]
#[verifier::external_body]
pub struct ExKeySet(jwk_simple::KeySet);

/// The key ids (`kid`) of the keys a key set holds.
pub uninterp spec fn keyset_kids(keyset: KeySet) -> Set<Seq<char>>;

/// `KeySet::get_by_kid(kid).is_some()`: the set holds a key whose `kid` is
/// `kid`.
#[verifier::external_body]
pub(crate) fn keyset_has_kid(keyset: &KeySet, kid: &str) -> (r: bool)
    ensures
        r == keyset_kids(*keyset).contains(kid@),
{
    keyset.get_by_kid(kid).is_some()
}

/// `Arc::clone`: another handle to the same key set.
#[verifier::external_body]
fn share_keyset(keyset: &Arc<KeySet>) -> (r: Arc<KeySet>)
    ensures
        r == *keyset,
{
    Arc::clone(keyset)
}

/// One second in nanoseconds.
pub const NANOS_PER_SECOND: u128 = 1_000_000_000;

/// The largest `std::time::Duration`, in nanoseconds.
pub const MAX_DURATION_NANOS: u128 = 18_446_744_073_709_551_615_999_999_999;

/// How long a fetched key set is used before it is refreshed: one hour.
pub const DEFAULT_JWKS_CACHE_TTL: u128 = 3_600_000_000_000;

/// How long after a fetch an unknown `kid` may trigger another: five minutes.
pub const DEFAULT_UNKNOWN_KID_REFRESH_INTERVAL: u128 = 300_000_000_000;

/// After a failed JWKS fetch, further refresh attempts are suppressed for this
/// long so an upstream outage does not serialize every request into its own
/// slow fetch while holding the refresh lock: ten seconds.
pub const DEFAULT_JWKS_FAILURE_BACKOFF: u128 = 10_000_000_000;

/// How long past the cache TTL a stored keyset may still be served when a
/// refresh fails (stale-while-error), so a Clerk outage does not turn every
/// credentialed request into a 503 while the cached keys would still verify:
/// one day.
pub const DEFAULT_JWKS_MAX_STALE: u128 = 86_400_000_000_000;

/// Tuning knobs for cache lookup decisions, in nanoseconds.
#[derive(Clone, Copy, Debug)]
pub struct JwksCachePolicy {
    pub ttl: u128,
    pub unknown_kid_refresh_interval: u128,
    pub failure_backoff: u128,
    /// Stale-while-error window: how long past `ttl` a stored keyset may
    /// still be served when refreshing fails.
    pub max_stale: u128,
}

impl JwksCachePolicy {
    /// Every knob is a valid `Duration`, and so is `ttl + max_stale`.
    pub open spec fn well_formed(self) -> bool {
        &&& self.ttl <= MAX_DURATION_NANOS
        &&& self.unknown_kid_refresh_interval <= MAX_DURATION_NANOS
        &&& self.failure_backoff <= MAX_DURATION_NANOS
        &&& self.max_stale <= MAX_DURATION_NANOS
        &&& self.ttl + self.max_stale <= MAX_DURATION_NANOS
    }

    /// The default policy: one hour TTL, five minutes between unknown-`kid`
    /// refreshes, ten seconds of failure backoff, one day of stale serving.
    pub fn default_policy() -> (r: Self)
        ensures
            r.ttl == DEFAULT_JWKS_CACHE_TTL,
            r.unknown_kid_refresh_interval == DEFAULT_UNKNOWN_KID_REFRESH_INTERVAL,
            r.failure_backoff == DEFAULT_JWKS_FAILURE_BACKOFF,
            r.max_stale == DEFAULT_JWKS_MAX_STALE,
            r.well_formed(),
    {
        JwksCachePolicy {
            ttl: DEFAULT_JWKS_CACHE_TTL,
            unknown_kid_refresh_interval: DEFAULT_UNKNOWN_KID_REFRESH_INTERVAL,
            failure_backoff: DEFAULT_JWKS_FAILURE_BACKOFF,
            max_stale: DEFAULT_JWKS_MAX_STALE,
        }
    }
}

/// The cached key set and the times of the last fetch and of the last
/// failed fetch.
pub struct JwksCache {
    /// Stored behind an `Arc` so a cache hit clones a pointer rather than the
    /// whole keyset.
    pub keyset: Option<Arc<KeySet>>,
    /// When the key set was last stored.
    pub last_updated: Option<u128>,
    /// When the last upstream fetch failed, if it failed more recently than it
    /// succeeded. Drives the failure backoff.
    pub last_failure: Option<u128>,
}

/// What to do for a token whose key id was looked up in the cache.
pub enum JwksCacheLookup {
    /// Use this key set.
    Hit(Arc<KeySet>),
    /// Fetch the key set again.
    Refresh,
    /// The key id is unknown and may not trigger a fetch yet.
    RejectUnknownKid,
    /// A refresh is needed but a recent fetch failure is inside the backoff
    /// window; fail unavailable without hitting the upstream again.
    Unavailable,
}

/// The decision a lookup makes, without the key set it hands out.
#[derive(PartialEq, Eq, Structural, Clone, Copy, Debug)]
pub enum LookupDecision {
    Hit,
    Refresh,
    RejectUnknownKid,
    Unavailable,
}

/// The time elapsed from `since` to `now`; none when the clock went back.
pub open spec fn elapsed(since: u128, now: u128) -> Option<u128> {
    if now >= since {
        Some((now - since) as u128)
    } else {
        None
    }
}

impl JwksCache {
    /// A cache with nothing stored and no failure recorded.
    pub fn new() -> (r: Self)
        ensures
            r.keyset is None,
            r.last_updated is None,
            r.last_failure is None,
    {
        JwksCache { keyset: None, last_updated: None, last_failure: None }
    }

    /// Time since the key set was stored, if it was and the clock did not
    /// go back.
    pub open spec fn age_at(self, now: u128) -> Option<u128> {
        match self.last_updated {
            Some(t) => elapsed(t, now),
            None => None,
        }
    }

    /// No key set was ever stored.
    pub open spec fn is_uninitialized(self) -> bool {
        self.last_updated is None
    }

    /// The stored key set is at least `ttl` old (or its age is unknown).
    pub open spec fn is_expired(self, ttl: u128, now: u128) -> bool {
        match self.age_at(now) {
            Some(a) => a >= ttl,
            None => true,
        }
    }

    /// An unknown key id may trigger a fetch: the key set is at least
    /// `min_age` old (or its age is unknown).
    pub open spec fn can_refresh_for_unknown_kid(self, min_age: u128, now: u128) -> bool {
        match self.age_at(now) {
            Some(a) => a >= min_age,
            None => true,
        }
    }

    /// A fetch failed less than `backoff` ago. A clock that went backwards
    /// fails toward refresh.
    pub open spec fn in_failure_backoff(self, backoff: u128, now: u128) -> bool {
        match self.last_failure {
            Some(f) => match elapsed(f, now) {
                Some(e) => e < backoff,
                None => false,
            },
            None => false,
        }
    }

    /// The stored key set holds a key with this key id.
    pub open spec fn knows_kid(self, kid: Seq<char>) -> bool {
        match self.keyset {
            Some(k) => keyset_kids(*k).contains(kid),
            None => false,
        }
    }

    /// The stored key set may be served for `kid` while refreshing fails:
    /// it knows `kid` and is younger than `ttl + max_stale`.
    pub open spec fn serves_stale(self, kid: Seq<char>, policy: JwksCachePolicy, now: u128) -> bool {
        &&& match self.age_at(now) {
            Some(a) => a < policy.ttl + policy.max_stale,
            None => false,
        }
        &&& self.knows_kid(kid)
    }

    /// The decision of a lookup of `kid` at `now`.
    pub open spec fn lookup_decision(self, kid: Seq<char>, policy: JwksCachePolicy, now: u128) -> LookupDecision {
        if self.is_uninitialized() || self.is_expired(policy.ttl, now) {
            if self.in_failure_backoff(policy.failure_backoff, now) {
                if self.serves_stale(kid, policy, now) {
                    LookupDecision::Hit
                } else {
                    LookupDecision::Unavailable
                }
            } else {
                LookupDecision::Refresh
            }
        } else if self.knows_kid(kid) {
            LookupDecision::Hit
        } else if self.can_refresh_for_unknown_kid(policy.unknown_kid_refresh_interval, now)
            && !self.in_failure_backoff(policy.failure_backoff, now) {
            LookupDecision::Refresh
        } else {
            LookupDecision::RejectUnknownKid
        }
    }

    fn age(&self, now: u128) -> (r: Option<u128>)
        ensures
            r == self.age_at(now),
    {
        match self.last_updated {
            Some(t) => if now >= t {
                Some(now - t)
            } else {
                None
            },
            None => None,
        }
    }

    fn expired(&self, ttl: u128, now: u128) -> (r: bool)
        ensures
            r == self.is_expired(ttl, now),
    {
        match self.age(now) {
            Some(a) => a >= ttl,
            None => true,
        }
    }

    fn unknown_kid_refresh_allowed(&self, min_age: u128, now: u128) -> (r: bool)
        ensures
            r == self.can_refresh_for_unknown_kid(min_age, now),
    {
        match self.age(now) {
            Some(a) => a >= min_age,
            None => true,
        }
    }

    fn backing_off(&self, backoff: u128, now: u128) -> (r: bool)
        ensures
            r == self.in_failure_backoff(backoff, now),
    {
        match self.last_failure {
            Some(f) => now >= f && now - f < backoff,
            None => false,
        }
    }

    /// The stored key set, if it holds a key with this key id.
    pub fn keyset_for_kid(&self, kid: &str) -> (r: Option<Arc<KeySet>>)
        ensures
            self.knows_kid(kid@) ==> r == self.keyset,
            !self.knows_kid(kid@) ==> r is None,
    {
        match &self.keyset {
            Some(keyset) => if keyset_has_kid(&**keyset, kid) {
                Some(share_keyset(keyset))
            } else {
                None
            },
            None => None,
        }
    }

    /// The stored keyset for a known kid while inside the stale-while-error
    /// window (`ttl + max_stale` since the last successful fetch). A clock
    /// that went backwards yields `None`, failing toward unavailable.
    pub fn stale_keyset_for_kid(&self, kid: &str, policy: JwksCachePolicy, now: u128) -> (r: Option<Arc<KeySet>>)
        requires
            policy.well_formed(),
        ensures
            self.serves_stale(kid@, policy, now) ==> r == self.keyset,
            !self.serves_stale(kid@, policy, now) ==> r is None,
    {
        let within_stale_window = match self.age(now) {
            Some(a) => a < policy.ttl + policy.max_stale,
            None => false,
        };
        if !within_stale_window {
            return None;
        }
        self.keyset_for_kid(kid)
    }

    /// Decides how to find the key set for `kid` at `now`: use the stored
    /// one, fetch again, reject the unknown key id, or fail unavailable
    /// during the failure backoff.
    pub fn lookup(&self, kid: &str, policy: JwksCachePolicy, now: u128) -> (r: JwksCacheLookup)
        requires
            policy.well_formed(),
        ensures
            decision_of(&r) == self.lookup_decision(kid@, policy, now),
            r matches JwksCacheLookup::Hit(k) ==> Some(k) == self.keyset,
    {
        if self.last_updated.is_none() || self.expired(policy.ttl, now) {
            if self.backing_off(policy.failure_backoff, now) {
                // Stale-while-error: upstream is failing, so a known kid is
                // served from the stored keyset instead of failing closed.
                if let Some(keyset) = self.stale_keyset_for_kid(kid, policy, now) {
                    return JwksCacheLookup::Hit(keyset);
                }
                return JwksCacheLookup::Unavailable;
            }
            return JwksCacheLookup::Refresh;
        }
        if let Some(keyset) = self.keyset_for_kid(kid) {
            return JwksCacheLookup::Hit(keyset);
        }
        if self.unknown_kid_refresh_allowed(policy.unknown_kid_refresh_interval, now)
            && !self.backing_off(policy.failure_backoff, now) {
            return JwksCacheLookup::Refresh;
        }
        JwksCacheLookup::RejectUnknownKid
    }

    /// Stores a freshly fetched key set at `now` and clears the failure
    /// backoff.
    pub fn store_at(&mut self, keyset: Arc<KeySet>, now: u128)
        ensures
            final(self).keyset == Some(keyset),
            final(self).last_updated == Some(now),
            final(self).last_failure is None,
    {
        self.keyset = Some(keyset);
        self.last_updated = Some(now);
        self.last_failure = None;
    }

    /// Records that a fetch failed at `now`; the stored key set is kept.
    pub fn record_failure_at(&mut self, now: u128)
        ensures
            final(self).keyset == old(self).keyset,
            final(self).last_updated == old(self).last_updated,
            final(self).last_failure == Some(now),
    {
        self.last_failure = Some(now);
    }
}

/// The decision a lookup result stands for.
pub open spec fn decision_of(r: &JwksCacheLookup) -> LookupDecision {
    match *r {
        JwksCacheLookup::Hit(_) => LookupDecision::Hit,
        JwksCacheLookup::Refresh => LookupDecision::Refresh,
        JwksCacheLookup::RejectUnknownKid => LookupDecision::RejectUnknownKid,
        JwksCacheLookup::Unavailable => LookupDecision::Unavailable,
    }
}

impl JwksCacheLookup {
    /// The decision this result stands for.
    pub fn decision(&self) -> (r: LookupDecision)
        ensures
            r == decision_of(self),
    {
        match self {
            JwksCacheLookup::Hit(_) => LookupDecision::Hit,
            JwksCacheLookup::Refresh => LookupDecision::Refresh,
            JwksCacheLookup::RejectUnknownKid => LookupDecision::RejectUnknownKid,
            JwksCacheLookup::Unavailable => LookupDecision::Unavailable,
        }
    }
}

/// A lookup hands out a key set only for a key id that the key set holds.
pub proof fn lemma_hit_only_for_known_kid(cache: JwksCache, kid: Seq<char>, policy: JwksCachePolicy, now: u128)
    ensures
        cache.lookup_decision(kid, policy, now) == LookupDecision::Hit ==> cache.knows_kid(kid),
{
}

/// While a failed fetch is inside the backoff window, no lookup asks for
/// another fetch.
pub proof fn lemma_no_refresh_during_backoff(cache: JwksCache, kid: Seq<char>, policy: JwksCachePolicy, now: u128)
    requires
        cache.in_failure_backoff(policy.failure_backoff, now),
    ensures
        cache.lookup_decision(kid, policy, now) != LookupDecision::Refresh,
{
}

/// Right after a key set is stored (with a positive TTL), a lookup of any
/// key id it holds uses it, whatever failures were recorded before.
pub proof fn lemma_store_then_hit(
    before: JwksCache,
    after: JwksCache,
    keyset: Arc<KeySet>,
    kid: Seq<char>,
    policy: JwksCachePolicy,
    now: u128,
)
    requires
        policy.ttl > 0,
        after.keyset == Some(keyset),
        after.last_updated == Some(now),
        after.last_failure is None,
        keyset_kids(*keyset).contains(kid),
    ensures
        after.lookup_decision(kid, policy, now) == LookupDecision::Hit,
{
}

/// Without a stored key set, a lookup fetches unless a failure is inside
/// the backoff window, in which case it fails unavailable.
pub proof fn lemma_uninitialized_refreshes(cache: JwksCache, kid: Seq<char>, policy: JwksCachePolicy, now: u128)
    requires
        cache.last_updated is None,
    ensures
        cache.lookup_decision(kid, policy, now) == if cache.in_failure_backoff(policy.failure_backoff, now) {
            LookupDecision::Unavailable
        } else {
            LookupDecision::Refresh
        },
{
}

/// Recording a failure never turns a lookup into a fetch.
pub proof fn lemma_failure_never_adds_refresh(
    before: JwksCache,
    after: JwksCache,
    kid: Seq<char>,
    policy: JwksCachePolicy,
    now: u128,
)
    requires
        after.keyset == before.keyset,
        after.last_updated == before.last_updated,
        after.last_failure == Some(now),
        policy.failure_backoff > 0,
    ensures
        after.lookup_decision(kid, policy, now) != LookupDecision::Refresh,
{
}

/// What to do next to find the key set for a token.
pub enum KeysetStep {
    /// Use this key set.
    Use(Arc<KeySet>),
    /// Fetch the key set from the JWKS endpoint.
    Fetch,
    /// Give up with this failure.
    Fail(VerificationFailure),
}

/// The next step after a cache lookup: a hit is used, a refresh fetches,
/// an unknown key id is invalid and an unavailable cache fails closed.
pub fn step_after_lookup(lookup: JwksCacheLookup) -> (r: KeysetStep)
    ensures
        match lookup {
            JwksCacheLookup::Hit(k) => r matches KeysetStep::Use(u) && u == k,
            JwksCacheLookup::Refresh => r is Fetch,
            JwksCacheLookup::RejectUnknownKid => r matches KeysetStep::Fail(f) && f == VerificationFailure::Invalid(
                InvalidTokenReason::Other,
            ),
            JwksCacheLookup::Unavailable => r matches KeysetStep::Fail(f) && f == VerificationFailure::Unavailable,
        },
{
    match lookup {
        JwksCacheLookup::Hit(keyset) => KeysetStep::Use(keyset),
        JwksCacheLookup::Refresh => KeysetStep::Fetch,
        JwksCacheLookup::RejectUnknownKid => KeysetStep::Fail(VerificationFailure::invalid()),
        JwksCacheLookup::Unavailable => KeysetStep::Fail(VerificationFailure::Unavailable),
    }
}

/// Records the result of a JWKS fetch made at `now` for a token with key
/// id `kid`, and decides what the token gets.
///
/// A fetched key set is stored (clearing the failure backoff) and used if
/// it holds `kid`; otherwise the token is invalid. A failed fetch is
/// recorded; then, stale-while-error, the stored key set is still served
/// for a known `kid` inside the stale window, and otherwise the failure
/// stands.
pub fn finish_fetch(
    cache: &mut JwksCache,
    fetched: Result<Arc<KeySet>, VerificationFailure>,
    kid: &str,
    policy: JwksCachePolicy,
    now: u128,
) -> (r: Result<Arc<KeySet>, VerificationFailure>)
    requires
        policy.well_formed(),
    ensures
        match fetched {
            Ok(k) => {
                &&& final(cache).keyset == Some(k)
                &&& final(cache).last_updated == Some(now)
                &&& final(cache).last_failure is None
                &&& if keyset_kids(*k).contains(kid@) {
                    r == Ok::<Arc<KeySet>, VerificationFailure>(k)
                } else {
                    r == Err::<Arc<KeySet>, VerificationFailure>(VerificationFailure::Invalid(InvalidTokenReason::Other))
                }
            },
            Err(f) => {
                &&& final(cache).keyset == old(cache).keyset
                &&& final(cache).last_updated == old(cache).last_updated
                &&& final(cache).last_failure == Some(now)
                &&& if final(cache).serves_stale(kid@, policy, now) {
                    r matches Ok(k) && Some(k) == final(cache).keyset
                } else {
                    r == Err::<Arc<KeySet>, VerificationFailure>(f)
                }
            },
        },
{
    match fetched {
        Ok(keyset) => {
            let contains_kid = keyset_has_kid(&*keyset, kid);
            let shared = share_keyset(&keyset);
            cache.store_at(shared, now);
            if contains_kid {
                Ok(keyset)
            } else {
                Err(VerificationFailure::invalid())
            }
        },
        Err(failure) => {
            cache.record_failure_at(now);
            match cache.stale_keyset_for_kid(kid, policy, now) {
                Some(stale) => Ok(stale),
                None => Err(failure),
            }
        },
    }
}

/// The largest JWKS response accepted, in bytes.
pub const JWKS_MAX_RESPONSE_BYTES: u64 = 1024 * 1024;

/// Why a JWKS response is not a source of signing keys. Each fails closed.
#[derive(Debug, Clone, Copy, PartialEq, Eq, Structural)]
pub enum JwksResponseIssue {
    /// The response came from another origin than the configured endpoint
    /// (a redirect): the signing keys are the entire trust root.
    ForeignOrigin,
    /// 401 or 403: almost always a wrong or revoked secret key rather than
    /// an outage.
    CredentialsRejected,
    /// Any other status outside 2xx.
    ErrorStatus,
    /// The response is larger than [`JWKS_MAX_RESPONSE_BYTES`].
    TooLarge,
}

/// The issue with a JWKS response, judged by its headers, if any.
pub open spec fn jwks_response_issue(same_origin: bool, status: u16, content_length: Option<u64>) -> Option<
    JwksResponseIssue,
> {
    if !same_origin {
        Some(JwksResponseIssue::ForeignOrigin)
    } else if status == 401 || status == 403 {
        Some(JwksResponseIssue::CredentialsRejected)
    } else if !(200 <= status < 300) {
        Some(JwksResponseIssue::ErrorStatus)
    } else if content_length matches Some(n) && n > JWKS_MAX_RESPONSE_BYTES {
        Some(JwksResponseIssue::TooLarge)
    } else {
        None
    }
}

/// Whether a JWKS response may be read for signing keys, from where it came
/// from, its status, and its announced length: only a 2xx response of the
/// configured origin within the size limit.
pub fn check_jwks_response(same_origin: bool, status: u16, content_length: Option<u64>) -> (r: Result<
    (),
    JwksResponseIssue,
>)
    ensures
        r == match jwks_response_issue(same_origin, status, content_length) {
            Some(issue) => Err::<(), JwksResponseIssue>(issue),
            None => Ok(()),
        },
        r is Ok ==> same_origin && 200 <= status < 300,
{
    if !same_origin {
        return Err(JwksResponseIssue::ForeignOrigin);
    }
    if status == 401 || status == 403 {
        return Err(JwksResponseIssue::CredentialsRejected);
    }
    if !(200 <= status && status < 300) {
        return Err(JwksResponseIssue::ErrorStatus);
    }
    match content_length {
        Some(n) => if n > JWKS_MAX_RESPONSE_BYTES {
            Err(JwksResponseIssue::TooLarge)
        } else {
            Ok(())
        },
        None => Ok(()),
    }
}

/// Whether a JWKS body of `len` bytes is within the size limit, whatever
/// length the response announced.
pub fn check_jwks_body(len: usize) -> (r: Result<(), JwksResponseIssue>)
    ensures
        r == if len > JWKS_MAX_RESPONSE_BYTES {
            Err::<(), JwksResponseIssue>(JwksResponseIssue::TooLarge)
        } else {
            Ok(())
        },
{
    if len as u64 > JWKS_MAX_RESPONSE_BYTES {
        Err(JwksResponseIssue::TooLarge)
    } else {
        Ok(())
    }
}

/// The key set a JWKS document of these bytes parses to, or `None` where
/// the bytes are not a JWKS document. A function of the bytes alone.
pub uninterp spec fn parsed_keyset(body: Seq<u8>) -> Option<KeySet>;

/// `serde_json::from_slice::<KeySet>(body)`: the key set the JWKS document
/// holds, or `None` where it does not parse.
#[verifier::external_body]
fn parse_keyset_body(body: &[u8]) -> (r: Option<KeySet>)
    ensures
        r == parsed_keyset(body@),
{
    serde_json::from_slice::<KeySet>(body).ok()
}

/// The key set a fetched JWKS body holds: a body over the size limit, or one
/// that is not a JWKS document, makes verification unavailable.
pub fn keyset_from_body(body: &[u8]) -> (r: Result<KeySet, VerificationFailure>)
    ensures
        r == if body@.len() > JWKS_MAX_RESPONSE_BYTES {
            Err::<KeySet, VerificationFailure>(VerificationFailure::Unavailable)
        } else {
            match parsed_keyset(body@) {
                Some(k) => Ok::<KeySet, VerificationFailure>(k),
                None => Err::<KeySet, VerificationFailure>(VerificationFailure::Unavailable),
            }
        },
{
    if check_jwks_body(body.len()).is_err() {
        return Err(VerificationFailure::Unavailable);
    }
    match parse_keyset_body(body) {
        Some(keyset) => Ok(keyset),
        None => Err(VerificationFailure::Unavailable),
    }
}

} // verus!
