use std::time::Duration;

use dioxus_clerk::testing::{ClaimValue, TestIssuerError, TestSession};


fn names(claims: &[(String, ClaimValue)]) -> Vec<&str> {
    claims.iter().map(|(name, _)| name.as_str()).collect()
}

fn find<'a>(claims: &'a [(String, ClaimValue)], name: &str) -> Option<&'a ClaimValue> {
    claims.iter().rev().find(|(n, _)| n == name).map(|(_, value)| value)
}

fn number(claims: &[(String, ClaimValue)], name: &str) -> i64 {
    match find(claims, name) {
        Some(ClaimValue::Number(n)) => *n,
        other => panic!("{name} is not a number: {other:?}"),
    }
}

#[test]
fn new_session_is_currently_valid_for_a_minute() {
    let claims = TestSession::new("user_2abc").claims_at(1_700_000_000).unwrap();
    assert_eq!(names(&claims), vec!["sub", "iat", "nbf", "exp", "sid"]);
    assert!(matches!(find(&claims, "sub"), Some(ClaimValue::Text(s)) if s == "user_2abc"));
    assert!(matches!(find(&claims, "sid"), Some(ClaimValue::Text(s)) if s == "sess_user_2abc"));
    assert_eq!(number(&claims, "iat"), 1_700_000_000);
    assert_eq!(number(&claims, "nbf"), 1_700_000_000);
    assert_eq!(number(&claims, "exp"), 1_700_000_060);
}

#[test]
fn pinned_times_and_lifetime_shape_the_registered_claims() {
    let session = TestSession::new("user_1")
        .with_issued_at(1_000)
        .with_not_before(2_000)
        .with_lifetime(Duration::from_secs(300));
    let claims = session.to_claims().unwrap();
    assert_eq!(number(&claims, "iat"), 1_000);
    assert_eq!(number(&claims, "nbf"), 2_000);
    assert_eq!(number(&claims, "exp"), 1_300);

    let pinned = session.with_expires_at(5_000).to_claims().unwrap();
    assert_eq!(number(&pinned, "exp"), 5_000);

    // An expiry past i64::MAX saturates instead of wrapping.
    let far = TestSession::new("user_1").with_lifetime(Duration::from_secs(u64::MAX)).claims_at(10).unwrap();
    assert_eq!(number(&far, "exp"), i64::MAX);
}

#[test]
fn optional_registered_claims_follow_the_builder() {
    let claims = TestSession::new("user_1")
        .without_session_id()
        .with_issuer("https://clerk.example.com")
        .with_audience("aud-1")
        .with_authorized_party("https://app.example.com")
        .claims_at(0)
        .unwrap();
    assert_eq!(names(&claims), vec!["sub", "iat", "nbf", "exp", "iss", "aud", "azp"]);
    assert!(find(&claims, "sid").is_none());

    let custom = TestSession::new("user_1").with_session_id("sess_custom").claims_at(0).unwrap();
    assert!(matches!(find(&custom, "sid"), Some(ClaimValue::Text(s)) if s == "sess_custom"));
}

#[test]
fn expired_session_is_expired_well_beyond_clock_skew() {
    let claims = TestSession::new("user_1").with_issued_at(10_000).expired().to_claims().unwrap();
    assert_eq!(number(&claims, "iat"), 6_400);
    assert_eq!(number(&claims, "nbf"), 6_400);
    assert_eq!(number(&claims, "exp"), 6_460);

    let now_based = TestSession::new("user_1").expired().to_claims().unwrap();
    assert_eq!(number(&now_based, "exp"), number(&now_based, "iat") + 60);
}

#[test]
fn v2_organization_claims_pack_permissions() {
    let claims = TestSession::new("user_1")
        .with_organization("org_1")
        .with_organization_slug("acme")
        .with_organization_role("admin")
        .with_organization_permissions(&["org:dashboard:read", "org:dashboard:manage", "org:billing:read"])
        .claims_at(0)
        .unwrap();
    assert_eq!(names(&claims), vec!["sub", "iat", "nbf", "exp", "sid", "fea", "o"]);
    assert!(matches!(find(&claims, "fea"), Some(ClaimValue::Text(s)) if s == "o:dashboard,o:billing"));
    match find(&claims, "o") {
        Some(ClaimValue::TextObject(members)) => assert_eq!(
            members,
            &vec![
                ("id".to_string(), "org_1".to_string()),
                ("slg".to_string(), "acme".to_string()),
                ("rol".to_string(), "admin".to_string()),
                ("per".to_string(), "read,manage".to_string()),
                ("fpm".to_string(), "3,1".to_string()),
            ]
        ),
        other => panic!("unexpected o claim: {other:?}"),
    }

    let bare = TestSession::new("user_1").with_organization("org_1").claims_at(0).unwrap();
    assert_eq!(names(&bare), vec!["sub", "iat", "nbf", "exp", "sid", "o"]);
}

#[test]
fn v2_organization_claims_reject_malformed_permissions() {
    let result = TestSession::new("user_1")
        .with_organization("org_1")
        .with_organization_permissions(&["org:dashboard:read", "dashboard-read"])
        .claims_at(0);
    assert!(matches!(result, Err(TestIssuerError::OrganizationPermission(p)) if p == "dashboard-read"));

    // Without an organization the permissions are not emitted at all.
    let no_org = TestSession::new("user_1").with_organization_permissions(&["dashboard-read"]).claims_at(0);
    assert!(no_org.is_ok());
}

#[test]
fn v1_organization_claims_are_flat() {
    let claims = TestSession::new("user_1")
        .with_organization("org_1")
        .with_organization_role("org:admin")
        .with_organization_permissions(&["anything goes"])
        .with_v1_organization_claims()
        .claims_at(0)
        .unwrap();
    assert_eq!(names(&claims), vec!["sub", "iat", "nbf", "exp", "sid", "org_id", "org_role", "org_permissions"]);
    assert!(matches!(find(&claims, "org_id"), Some(c) if matches!(c, ClaimValue::Text(s) if s == "org_1")));
    match find(&claims, "org_permissions") {
        Some(ClaimValue::TextList(items)) => assert_eq!(items, &vec!["anything goes".to_string()]),
        other => panic!("unexpected org_permissions claim: {other:?}"),
    }
}

#[test]
fn with_claim_comes_last_and_overrides() {
    let claims = TestSession::new("user_1")
        .with_claim("sub", serde_json::Value::from(42))
        .with_claim("custom", serde_json::Value::from("x"))
        .claims_at(0)
        .unwrap();
    assert_eq!(names(&claims), vec!["sub", "iat", "nbf", "exp", "sid", "sub", "custom"]);
    assert!(matches!(find(&claims, "sub"), Some(ClaimValue::Json(v)) if *v == serde_json::Value::from(42)));
    assert!(matches!(claims.last(), Some((n, ClaimValue::Json(v))) if n == "custom" && *v == serde_json::Value::from("x")));
}

#[test]
fn cloned_session_builds_the_same_claims() {
    let session = TestSession::new("user_1").with_organization("org_1").with_claim("x", serde_json::Value::from(1));
    let copy = session.clone();
    assert_eq!(
        format!("{:?}", session.claims_at(7).unwrap()),
        format!("{:?}", copy.claims_at(7).unwrap())
    );
}
