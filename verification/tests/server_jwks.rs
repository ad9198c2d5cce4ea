use ct_codecs::{Base64UrlSafeNoPadding, Encoder};
use jwt_simple::prelude::RS256KeyPair;
use dioxus_clerk::server::jwks::{
    check_jwks_body, check_jwks_response, keyset_from_body, JwksResponseIssue, JWKS_MAX_RESPONSE_BYTES,
};
use dioxus_clerk::auth::InvalidTokenReason;
use dioxus_clerk::server::jwt::rs256_key_for_kid;
use std::sync::Arc;

use dioxus_clerk::server::jwks::{
    finish_fetch, step_after_lookup, JwksCache, JwksCacheLookup, JwksCachePolicy, KeysetStep, LookupDecision,
    DEFAULT_JWKS_CACHE_TTL, DEFAULT_JWKS_FAILURE_BACKOFF, DEFAULT_JWKS_MAX_STALE, DEFAULT_UNKNOWN_KID_REFRESH_INTERVAL,
};
use dioxus_clerk::server::verification::VerificationFailure;
use jwk_simple::KeySet;

const SECOND: u128 = 1_000_000_000;

fn secs(n: u128) -> u128 {
    n * SECOND
}

fn test_keyset() -> Arc<KeySet> {
    Arc::new(
        serde_json::from_str(r#"{"keys":[{"kty":"oct","kid":"test-kid","k":"AQAB"}]}"#).unwrap(),
    )
}

fn sample_time() -> u128 {
    secs(10_000)
}

fn test_policy() -> JwksCachePolicy {
    JwksCachePolicy {
        ttl: secs(60 * 60),
        unknown_kid_refresh_interval: secs(60 * 5),
        failure_backoff: secs(10),
        max_stale: secs(60 * 60 * 24),
    }
}

fn decision(cache: &JwksCache, kid: &str, now: u128) -> LookupDecision {
    cache.lookup(kid, test_policy(), now).decision()
}

#[test]
fn jwks_cache_refreshes_when_uninitialized() {
    let cache = JwksCache::new();

    assert!(matches!(
        cache.lookup("test-kid", test_policy(), sample_time()),
        JwksCacheLookup::Refresh
    ));
}

#[test]
fn jwks_cache_uses_known_kid_before_ttl() {
    let now = sample_time();
    let mut cache = JwksCache::new();
    cache.store_at(test_keyset(), now - secs(10));

    match cache.lookup("test-kid", test_policy(), now) {
        JwksCacheLookup::Hit(keyset) => assert!(keyset.get_by_kid("test-kid").is_some()),
        _ => panic!("known kid should use cached keyset before TTL"),
    }
}

#[test]
fn jwks_cache_refreshes_known_kid_after_ttl() {
    let now = sample_time();
    let mut cache = JwksCache::new();
    cache.store_at(test_keyset(), now - secs(3_601));

    assert!(matches!(
        cache.lookup("test-kid", test_policy(), now),
        JwksCacheLookup::Refresh
    ));
}

#[test]
fn jwks_cache_rejects_unknown_kid_before_refresh_interval() {
    let now = sample_time();
    let mut cache = JwksCache::new();
    cache.store_at(test_keyset(), now - secs(30));

    assert!(matches!(
        cache.lookup("unknown-kid", test_policy(), now),
        JwksCacheLookup::RejectUnknownKid
    ));
}

#[test]
fn jwks_cache_refreshes_unknown_kid_after_refresh_interval() {
    let now = sample_time();
    let mut cache = JwksCache::new();
    cache.store_at(test_keyset(), now - secs(301));

    assert!(matches!(
        cache.lookup("unknown-kid", test_policy(), now),
        JwksCacheLookup::Refresh
    ));
}

#[test]
fn jwks_cache_is_unavailable_during_failure_backoff_when_refresh_is_needed() {
    let now = sample_time();
    let mut cache = JwksCache::new();
    cache.record_failure_at(now - secs(3));

    assert!(matches!(
        cache.lookup("test-kid", test_policy(), now),
        JwksCacheLookup::Unavailable
    ));
}

#[test]
fn jwks_cache_refreshes_again_after_failure_backoff_elapses() {
    let now = sample_time();
    let mut cache = JwksCache::new();
    cache.record_failure_at(now - secs(11));

    assert!(matches!(
        cache.lookup("test-kid", test_policy(), now),
        JwksCacheLookup::Refresh
    ));
}

#[test]
fn jwks_cache_rejects_unknown_kid_instead_of_refetching_during_failure_backoff() {
    let now = sample_time();
    let mut cache = JwksCache::new();
    cache.store_at(test_keyset(), now - secs(301));
    cache.record_failure_at(now - secs(3));

    assert!(matches!(
        cache.lookup("unknown-kid", test_policy(), now),
        JwksCacheLookup::RejectUnknownKid
    ));
}

#[test]
fn jwks_cache_store_clears_failure_backoff() {
    let now = sample_time();
    let mut cache = JwksCache::new();
    cache.record_failure_at(now - secs(3));
    cache.store_at(test_keyset(), now);

    match cache.lookup("test-kid", test_policy(), now) {
        JwksCacheLookup::Hit(_) => {}
        _ => panic!("successful store should clear failure backoff"),
    }
}

#[test]
fn jwks_cache_serves_cached_known_kid_during_failure_backoff() {
    let now = sample_time();
    let mut cache = JwksCache::new();
    cache.store_at(test_keyset(), now - secs(10));
    cache.record_failure_at(now - secs(3));

    assert!(matches!(
        cache.lookup("test-kid", test_policy(), now),
        JwksCacheLookup::Hit(_)
    ));
}

#[test]
fn jwks_cache_serves_stale_known_kid_during_failure_backoff_after_ttl() {
    let now = sample_time();
    let mut cache = JwksCache::new();
    cache.store_at(test_keyset(), now - secs(3_601));
    cache.record_failure_at(now - secs(3));

    assert!(matches!(
        cache.lookup("test-kid", test_policy(), now),
        JwksCacheLookup::Hit(_)
    ));
}

#[test]
fn jwks_cache_is_unavailable_for_unknown_kid_during_failure_backoff_after_ttl() {
    let now = sample_time();
    let mut cache = JwksCache::new();
    cache.store_at(test_keyset(), now - secs(3_601));
    cache.record_failure_at(now - secs(3));

    assert!(matches!(
        cache.lookup("unknown-kid", test_policy(), now),
        JwksCacheLookup::Unavailable
    ));
}

#[test]
fn jwks_cache_stops_serving_stale_keyset_past_max_stale_window() {
    let now = sample_time() + secs(60 * 60 * 48);
    let mut cache = JwksCache::new();
    cache.store_at(test_keyset(), now - secs(60 * 60 * 25 + 1));
    cache.record_failure_at(now - secs(3));

    assert!(matches!(
        cache.lookup("test-kid", test_policy(), now),
        JwksCacheLookup::Unavailable
    ));
    assert!(cache.stale_keyset_for_kid("test-kid", test_policy(), now).is_none());
}

#[test]
fn stale_keyset_for_kid_serves_known_kid_within_stale_window() {
    let now = sample_time();
    let mut cache = JwksCache::new();
    cache.store_at(test_keyset(), now - secs(3_601));

    assert!(cache.stale_keyset_for_kid("test-kid", test_policy(), now).is_some());
    assert!(cache.stale_keyset_for_kid("unknown-kid", test_policy(), now).is_none());
}

#[test]
fn clock_going_backwards_fails_toward_refresh() {
    let now = sample_time();
    let mut cache = JwksCache::new();
    cache.store_at(test_keyset(), now + secs(5));
    cache.record_failure_at(now + secs(1));

    assert_eq!(decision(&cache, "test-kid", now), LookupDecision::Refresh);
    assert!(cache.stale_keyset_for_kid("test-kid", test_policy(), now).is_none());
}

#[test]
fn default_policy_matches_the_documented_windows() {
    let policy = JwksCachePolicy::default_policy();
    assert_eq!(policy.ttl, secs(3_600));
    assert_eq!(policy.unknown_kid_refresh_interval, secs(300));
    assert_eq!(policy.failure_backoff, secs(10));
    assert_eq!(policy.max_stale, secs(86_400));
    assert_eq!(DEFAULT_JWKS_CACHE_TTL, secs(3_600));
    assert_eq!(DEFAULT_UNKNOWN_KID_REFRESH_INTERVAL, secs(300));
    assert_eq!(DEFAULT_JWKS_FAILURE_BACKOFF, secs(10));
    assert_eq!(DEFAULT_JWKS_MAX_STALE, secs(86_400));
}

#[test]
fn lookup_steps_map_to_use_fetch_or_failure() {
    assert!(matches!(step_after_lookup(JwksCacheLookup::Hit(test_keyset())), KeysetStep::Use(_)));
    assert!(matches!(step_after_lookup(JwksCacheLookup::Refresh), KeysetStep::Fetch));
    assert!(matches!(
        step_after_lookup(JwksCacheLookup::RejectUnknownKid),
        KeysetStep::Fail(VerificationFailure::Invalid(_))
    ));
    assert!(matches!(
        step_after_lookup(JwksCacheLookup::Unavailable),
        KeysetStep::Fail(VerificationFailure::Unavailable)
    ));
}

#[test]
fn finished_fetch_stores_the_keyset_and_checks_the_kid() {
    let now = sample_time();
    let mut cache = JwksCache::new();
    cache.record_failure_at(now - secs(3));

    assert!(finish_fetch(&mut cache, Ok(test_keyset()), "test-kid", test_policy(), now).is_ok());
    assert_eq!(cache.last_updated, Some(now));
    assert_eq!(cache.last_failure, None);

    let mut cache = JwksCache::new();
    assert_eq!(
        finish_fetch(&mut cache, Ok(test_keyset()), "other-kid", test_policy(), now).err(),
        Some(VerificationFailure::invalid())
    );
    assert!(cache.keyset.is_some());
}

#[test]
fn failed_fetch_serves_stale_known_kid_or_fails() {
    let now = sample_time();
    let mut cache = JwksCache::new();
    cache.store_at(test_keyset(), now - secs(3_601));

    let served = finish_fetch(&mut cache, Err(VerificationFailure::Unavailable), "test-kid", test_policy(), now);
    assert!(served.is_ok());
    assert_eq!(cache.last_failure, Some(now));

    let failed = finish_fetch(&mut cache, Err(VerificationFailure::Unavailable), "unknown-kid", test_policy(), now);
    assert_eq!(failed.err(), Some(VerificationFailure::Unavailable));
}

#[test]
fn jwks_responses_are_read_only_from_the_configured_origin_with_2xx_within_limit() {
    assert_eq!(check_jwks_response(true, 200, None), Ok(()));
    assert_eq!(check_jwks_response(true, 204, Some(JWKS_MAX_RESPONSE_BYTES)), Ok(()));
    assert_eq!(check_jwks_response(false, 200, None), Err(JwksResponseIssue::ForeignOrigin));
    assert_eq!(check_jwks_response(false, 401, None), Err(JwksResponseIssue::ForeignOrigin));
    assert_eq!(check_jwks_response(true, 401, None), Err(JwksResponseIssue::CredentialsRejected));
    assert_eq!(check_jwks_response(true, 403, None), Err(JwksResponseIssue::CredentialsRejected));
    assert_eq!(check_jwks_response(true, 500, None), Err(JwksResponseIssue::ErrorStatus));
    assert_eq!(check_jwks_response(true, 302, None), Err(JwksResponseIssue::ErrorStatus));
    assert_eq!(check_jwks_response(true, 200, Some(JWKS_MAX_RESPONSE_BYTES + 1)), Err(JwksResponseIssue::TooLarge));
    assert_eq!(check_jwks_body(1024 * 1024), Ok(()));
    assert_eq!(check_jwks_body(1024 * 1024 + 1), Err(JwksResponseIssue::TooLarge));
}

#[test]
fn jwks_bodies_parse_within_the_size_limit() {
    let body = br#"{"keys":[{"kty":"oct","kid":"test-kid","k":"AQAB"}]}"#;
    let keyset = keyset_from_body(body).expect("a JWKS document parses");
    assert!(keyset.get_by_kid("test-kid").is_some());
    assert!(keyset.get_by_kid("other").is_none());

    assert!(matches!(keyset_from_body(b"not json"), Err(VerificationFailure::Unavailable)));
    assert!(matches!(keyset_from_body(br#"{"nokeys":true}"#), Err(VerificationFailure::Unavailable)));
    let oversized = vec![b' '; JWKS_MAX_RESPONSE_BYTES as usize + 1];
    assert!(matches!(keyset_from_body(&oversized), Err(VerificationFailure::Unavailable)));
}

fn rsa_jwks(kid: &str) -> Vec<u8> {
    let keypair = RS256KeyPair::generate(2048).expect("an RSA key pair");
    let components = keypair.public_key().to_components();
    let n = Base64UrlSafeNoPadding::encode_to_string(&components.n).unwrap();
    let e = Base64UrlSafeNoPadding::encode_to_string(&components.e).unwrap();
    format!(r#"{{"keys":[{{"use":"sig","kty":"RSA","kid":"{kid}","alg":"RS256","n":"{n}","e":"{e}"}}]}}"#).into_bytes()
}

#[test]
fn rs256_keys_are_selected_by_kid_and_kind() {
    let keyset = keyset_from_body(&rsa_jwks("rsa-kid")).expect("an RSA JWKS parses");
    assert!(rs256_key_for_kid(&keyset, "rsa-kid").is_ok());
    assert!(matches!(
        rs256_key_for_kid(&keyset, "missing"),
        Err(VerificationFailure::Invalid(InvalidTokenReason::Other))
    ));

    let oct = keyset_from_body(br#"{"keys":[{"kty":"oct","kid":"test-kid","k":"AQAB"}]}"#).unwrap();
    assert!(matches!(
        rs256_key_for_kid(&oct, "test-kid"),
        Err(VerificationFailure::Invalid(InvalidTokenReason::Other))
    ));
}
