use std::time::Duration;

use dioxus_clerk::auth::InvalidTokenReason;
use dioxus_clerk::server::claims::{ClerkJwtClaims, JwtClaims};
use dioxus_clerk::server::jwt::{
    base64_url_decode, clock_skew_millis, invalid_reason, token_header_bytes, JwtErrorKind, JwtHeader,
    JwtVerificationProfile,
};
use dioxus_clerk::server::verification::VerificationFailure;

fn test_profile() -> JwtVerificationProfile {
    JwtVerificationProfile::new(vec![], vec![], vec![], Duration::from_secs(5), true)
}

fn base64_url_encode(input: &[u8]) -> String {
    const TABLE: &[u8; 64] = b"ABCDEFGHIJKLMNOPQRSTUVWXYZabcdefghijklmnopqrstuvwxyz0123456789-_";

    let mut output = String::with_capacity(input.len().div_ceil(3) * 4);
    let mut chunks = input.chunks_exact(3);
    for chunk in &mut chunks {
        output.push(TABLE[(chunk[0] >> 2) as usize] as char);
        output.push(TABLE[(((chunk[0] & 0b0000_0011) << 4) | (chunk[1] >> 4)) as usize] as char);
        output.push(TABLE[(((chunk[1] & 0b0000_1111) << 2) | (chunk[2] >> 6)) as usize] as char);
        output.push(TABLE[(chunk[2] & 0b0011_1111) as usize] as char);
    }

    match chunks.remainder() {
        [first] => {
            output.push(TABLE[(first >> 2) as usize] as char);
            output.push(TABLE[((first & 0b0000_0011) << 4) as usize] as char);
        }
        [first, second] => {
            output.push(TABLE[(first >> 2) as usize] as char);
            output.push(TABLE[(((first & 0b0000_0011) << 4) | (second >> 4)) as usize] as char);
            output.push(TABLE[((second & 0b0000_1111) << 2) as usize] as char);
        }
        [] => {}
        _ => unreachable!(),
    }

    output
}

fn token_with_header(header: &str) -> String {
    format!("{}.payload.signature", base64_url_encode(header.as_bytes()))
}

/// Reads the token's header the way the request pipeline does: decode the
/// first segment, parse the JSON, keep the three fields verification reads.
fn header_of(token: &str) -> Option<JwtHeader> {
    let bytes = token_header_bytes(token)?;
    let value: serde_json::Value = serde_json::from_slice(&bytes).ok()?;
    let field = |name: &str| value.get(name).and_then(|v| v.as_str()).map(String::from);
    Some(JwtHeader { kid: field("kid"), alg: field("alg"), typ: field("typ") })
}

fn key_id_from_token_header(profile: &JwtVerificationProfile, token: &str) -> Result<String, VerificationFailure> {
    profile.key_id_from_header(header_of(token))
}

#[test]
fn jwt_profile_accepts_rs256_jwt_header_with_key_id() {
    let token = token_with_header(r#"{"alg":"RS256","typ":"JWT","kid":"test-kid"}"#);

    assert_eq!(key_id_from_token_header(&test_profile(), &token).unwrap(), "test-kid");
}

#[test]
fn jwt_profile_rejects_non_rs256_header() {
    let token = token_with_header(r#"{"alg":"HS256","typ":"JWT","kid":"test-kid"}"#);

    assert!(matches!(
        key_id_from_token_header(&test_profile(), &token),
        Err(VerificationFailure::Invalid(_))
    ));
}

#[test]
fn jwt_profile_rejects_missing_header_type() {
    let token = token_with_header(r#"{"alg":"RS256","kid":"test-kid"}"#);

    assert!(matches!(
        key_id_from_token_header(&test_profile(), &token),
        Err(VerificationFailure::Invalid(_))
    ));
}

#[test]
fn jwt_profile_rejects_missing_key_id() {
    let token = token_with_header(r#"{"alg":"RS256","typ":"JWT"}"#);

    assert!(matches!(
        key_id_from_token_header(&test_profile(), &token),
        Err(VerificationFailure::Invalid(_))
    ));
}

#[test]
fn jwt_profile_accepts_header_type_in_any_ascii_case() {
    let token = token_with_header(r#"{"alg":"RS256","typ":"jwt","kid":"k"}"#);
    assert_eq!(key_id_from_token_header(&test_profile(), &token).unwrap(), "k");
    assert!(test_profile().key_id_from_header(None).is_err());
}

#[test]
fn token_header_bytes_reads_only_the_first_segment() {
    assert_eq!(token_header_bytes("aGk.rest.more").as_deref(), Some(b"hi".as_slice()));
    assert_eq!(token_header_bytes("aGk").as_deref(), Some(b"hi".as_slice()));
    assert!(token_header_bytes("a+b/.x").is_none());
}

#[test]
fn authorized_party_validation_skips_missing_azp() {
    let profile = JwtVerificationProfile::new(
        vec!["https://example.com".into()],
        vec![],
        vec![],
        Duration::from_secs(5),
        true,
    );

    assert!(profile.validate_authorized_party(None).is_ok());
}

#[test]
fn authorized_party_validation_rejects_mismatch() {
    let profile = JwtVerificationProfile::new(
        vec!["https://example.com".into()],
        vec![],
        vec![],
        Duration::from_secs(5),
        true,
    );

    assert!(matches!(
        profile.validate_authorized_party(Some("https://evil.example")),
        Err(VerificationFailure::Invalid(_))
    ));
    assert!(profile.validate_authorized_party(Some("https://example.com")).is_ok());
}

#[test]
fn base64_url_decode_rejects_padded_and_malformed_input() {
    assert_eq!(base64_url_decode("aGk").as_deref(), Some(b"hi".as_slice()));
    assert!(base64_url_decode("aGk=").is_none());
    assert!(base64_url_decode("aGk=garbage").is_none());
    assert!(base64_url_decode("a+b/").is_none());
}

#[test]
fn session_token_validation_rejects_a_token_without_sid_when_required() {
    let profile = JwtVerificationProfile::new(vec![], vec![], vec![], Duration::from_secs(5), true);

    assert!(profile.validate_session_token(Some("sess_1")).is_ok());
    assert!(matches!(
        profile.validate_session_token(None),
        Err(VerificationFailure::Invalid(_))
    ));
}

#[test]
fn session_token_validation_allows_a_missing_sid_when_not_required() {
    let profile = JwtVerificationProfile::new(vec![], vec![], vec![], Duration::from_secs(5), false);

    assert!(profile.validate_session_token(None).is_ok());
}

fn claims_with(azp: Option<&str>, sid: Option<&str>) -> JwtClaims {
    JwtClaims {
        subject: Some("user_1".into()),
        expires_at: Some(100),
        invalid_before: None,
        issued_at: None,
        custom: ClerkJwtClaims {
            authorized_party: azp.map(String::from),
            session_id: sid.map(String::from),
            features: None,
            organization: None,
            org_id: None,
            org_slug: None,
            org_role: None,
            org_permissions: vec![],
        },
    }
}

#[test]
fn accepted_claims_need_an_allowed_party_and_a_session() {
    let profile = JwtVerificationProfile::new(
        vec!["https://example.com".into()],
        vec![],
        vec![],
        Duration::from_secs(5),
        true,
    );

    assert!(profile.accept_claims(claims_with(Some("https://example.com"), Some("sess_1"))).is_ok());
    assert!(profile.accept_claims(claims_with(None, Some("sess_1"))).is_ok());
    assert_eq!(
        profile.accept_claims(claims_with(Some("https://evil.example"), Some("sess_1"))).err(),
        Some(VerificationFailure::Invalid(InvalidTokenReason::Other))
    );
    assert!(profile.accept_claims(claims_with(Some("https://example.com"), Some(""))).is_err());
}

#[test]
fn validation_errors_map_to_invalid_token_reasons() {
    assert_eq!(invalid_reason(JwtErrorKind::TokenHasExpired), InvalidTokenReason::Expired);
    assert_eq!(invalid_reason(JwtErrorKind::TokenNotValidYet), InvalidTokenReason::NotYetValid);
    assert_eq!(invalid_reason(JwtErrorKind::ClockDrift), InvalidTokenReason::NotYetValid);
    assert_eq!(invalid_reason(JwtErrorKind::Other), InvalidTokenReason::Other);
}

#[test]
fn clock_skew_saturates_at_u64() {
    assert_eq!(clock_skew_millis(5_000), 5_000);
    assert_eq!(clock_skew_millis(u128::MAX), u64::MAX);
}

#[test]
fn verification_options_pin_audiences_and_issuers_only_when_configured() {
    let open = JwtVerificationProfile::new(vec![], vec![], vec![], std::time::Duration::from_millis(1_500), true);
    let checks = open.verification_options("kid-1");
    assert_eq!(checks.required_signature_type, "JWT");
    assert_eq!(checks.required_key_id, "kid-1");
    assert_eq!(checks.time_tolerance_ms, 1_500);
    assert!(checks.allowed_audiences.is_none());
    assert!(checks.allowed_issuers.is_none());

    let pinned = JwtVerificationProfile::new(
        vec![],
        vec!["aud-1".to_string()],
        vec!["https://clerk.example.com".to_string()],
        std::time::Duration::from_secs(5),
        true,
    );
    let checks = pinned.verification_options("kid-2");
    assert_eq!(checks.allowed_audiences, Some(vec!["aud-1".to_string()]));
    assert_eq!(checks.allowed_issuers, Some(vec!["https://clerk.example.com".to_string()]));
    assert_eq!(checks.time_tolerance_ms, 5_000);
}
