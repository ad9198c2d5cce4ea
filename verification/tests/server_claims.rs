use dioxus_clerk::auth::VerificationOutcome;
use dioxus_clerk::testing::{PackedPermissions, TestIssuerError};
use dioxus_clerk::server::claims::{ClerkJwtClaims, ClerkV2OrganizationClaims, JwtClaims, VerifiedClerkClaims};

fn custom_claims() -> ClerkJwtClaims {
    ClerkJwtClaims {
        authorized_party: None,
        session_id: None,
        features: None,
        organization: None,
        org_id: None,
        org_slug: None,
        org_role: None,
        org_permissions: vec![],
    }
}

fn verified_claims(
    subject: Option<&str>,
    session_id: Option<&str>,
    exp: Option<u64>,
    nbf: Option<u64>,
    iat: Option<u64>,
) -> VerifiedClerkClaims {
    let mut custom = custom_claims();
    custom.session_id = session_id.map(String::from);
    VerifiedClerkClaims::new(JwtClaims {
        subject: subject.map(String::from),
        expires_at: exp,
        invalid_before: nbf,
        issued_at: iat,
        custom,
    })
}

fn organization(
    id: &str,
    slug: Option<&str>,
    role: Option<&str>,
    permissions: Option<&str>,
    masks: Option<&str>,
) -> ClerkV2OrganizationClaims {
    ClerkV2OrganizationClaims {
        id: id.into(),
        slug: slug.map(String::from),
        role: role.map(String::from),
        permissions: permissions.map(String::from),
        feature_permission_map: masks.map(String::from),
    }
}

#[test]
fn verified_claims_produce_auth_with_all_clerk_auth_fields() {
    let mut custom = custom_claims();
    custom.session_id = Some("sess_2def".into());
    custom.org_id = Some("org_2ghi".into());
    custom.org_slug = Some("acme".into());
    custom.org_role = Some("org:admin".into());
    custom.org_permissions = vec!["org:dashboard:read".into(), "org:teams:manage".into()];
    let claims = VerifiedClerkClaims::new(JwtClaims {
        subject: Some("user_2abc".into()),
        expires_at: Some(1_700_000_600),
        invalid_before: Some(1_700_000_000),
        issued_at: Some(1_699_999_900),
        custom,
    });

    let outcome = claims.into_outcome();

    match outcome {
        VerificationOutcome::Valid(auth) => {
            assert_eq!(auth.user_id, "user_2abc");
            assert_eq!(auth.session_id.as_deref(), Some("sess_2def"));
            assert_eq!(auth.org_id.as_deref(), Some("org_2ghi"));
            assert_eq!(auth.org_slug.as_deref(), Some("acme"));
            assert_eq!(auth.org_role.as_deref(), Some("org:admin"));
            assert_eq!(auth.org_permissions, vec!["org:dashboard:read", "org:teams:manage"]);
            assert_eq!(auth.exp, 1_700_000_600);
            assert_eq!(auth.nbf, 1_700_000_000);
            assert_eq!(auth.iat, 1_699_999_900);
        }
        _ => panic!("complete claims should be valid"),
    }
}

#[test]
fn verified_claims_missing_subject_produce_invalid_outcome() {
    let claims = verified_claims(
        None,
        Some("sess_2def"),
        Some(1_700_000_600),
        Some(1_700_000_000),
        Some(1_699_999_900),
    );

    let outcome = claims.into_outcome();

    assert!(matches!(outcome, VerificationOutcome::Invalid(_)));
}

#[test]
fn verified_claims_empty_subject_produce_invalid_outcome() {
    let claims = verified_claims(
        Some(""),
        Some("sess_2def"),
        Some(1_700_000_600),
        Some(1_700_000_000),
        Some(1_699_999_900),
    );

    let outcome = claims.into_outcome();

    assert!(matches!(outcome, VerificationOutcome::Invalid(_)));
}

#[test]
fn verified_claims_missing_exp_produce_invalid_outcome() {
    let claims = verified_claims(
        Some("user_2abc"),
        Some("sess_2def"),
        None,
        Some(1_700_000_000),
        Some(1_699_999_900),
    );

    let outcome = claims.into_outcome();

    assert!(matches!(outcome, VerificationOutcome::Invalid(_)));
}

#[test]
fn verified_claims_missing_nbf_iat_default_to_zero() {
    let claims = verified_claims(Some("user_2abc"), None, Some(1_700_000_600), None, None);

    match claims.into_outcome() {
        VerificationOutcome::Valid(auth) => {
            assert_eq!(auth.exp, 1_700_000_600);
            assert_eq!(auth.nbf, 0);
            assert_eq!(auth.iat, 0);
        }
        other => panic!("optional nbf/iat should not reject a valid token: {other:?}"),
    }
}

#[test]
fn expiry_beyond_i64_is_invalid() {
    let claims = verified_claims(Some("user_2abc"), None, Some(u64::MAX), None, None);
    assert!(matches!(claims.into_outcome(), VerificationOutcome::Invalid(_)));
}

#[test]
fn compact_permissions_decode_per_organization_feature() {
    let org = organization("org_1", None, None, Some("read,manage"), Some("1,3,2"));

    let permissions = org.decode_permissions(Some("o:dashboard,o:teams,u:profile"));

    assert_eq!(
        permissions,
        vec!["org:dashboard:read", "org:teams:read", "org:teams:manage"]
    );
}

#[test]
fn compact_permissions_need_all_three_claims() {
    let org = organization("org_1", None, None, Some("read"), Some("1"));
    assert!(org.decode_permissions(None).is_empty());
    let org = organization("org_1", None, None, None, Some("1"));
    assert!(org.decode_permissions(Some("o:dashboard")).is_empty());
    let org = organization("org_1", None, None, Some("read"), None);
    assert!(org.decode_permissions(Some("o:dashboard")).is_empty());
}

#[test]
fn compact_permissions_reject_malformed_layouts() {
    // A bare feature prefix.
    let org = organization("org_1", None, None, Some("read"), Some("1,1"));
    assert!(org.decode_permissions(Some("o:dashboard,o:")).is_empty());
    // An empty permission name.
    let org = organization("org_1", None, None, Some("read,"), Some("1"));
    assert!(org.decode_permissions(Some("o:dashboard")).is_empty());
    // A mask that does not parse.
    let org = organization("org_1", None, None, Some("read"), Some("x"));
    assert!(org.decode_permissions(Some("o:dashboard")).is_empty());
    // A mask per feature is required.
    let org = organization("org_1", None, None, Some("read"), Some("1,1"));
    assert!(org.decode_permissions(Some("o:dashboard")).is_empty());
    // A mask bit beyond the permission list.
    let org = organization("org_1", None, None, Some("read"), Some("2"));
    assert!(org.decode_permissions(Some("o:dashboard")).is_empty());
    // A mask above u128::MAX.
    let org = organization(
        "org_1",
        None,
        None,
        Some("read"),
        Some("340282366920938463463374607431768211456"),
    );
    assert!(org.decode_permissions(Some("o:dashboard")).is_empty());
}

#[test]
fn compact_permissions_accept_an_explicit_plus_sign_like_integer_parsing() {
    let org = organization("org_1", None, None, Some("read"), Some("+1"));
    assert_eq!(org.decode_permissions(Some("o:dashboard")), vec!["org:dashboard:read"]);
}

#[test]
fn compact_organization_claims_normalize_role_and_drop_empty_slug() {
    let org = organization("org_1", Some(""), Some("admin"), Some("read"), Some("1"));
    let claims = org.into_auth_claims(Some("o:dashboard"));

    assert_eq!(claims.id.as_deref(), Some("org_1"));
    assert_eq!(claims.slug, None);
    assert_eq!(claims.role.as_deref(), Some("org:admin"));
    assert_eq!(claims.permissions, vec!["org:dashboard:read"]);

    let org = organization("org_1", Some("acme"), Some("org:member"), None, None);
    let claims = org.into_auth_claims(None);
    assert_eq!(claims.slug.as_deref(), Some("acme"));
    assert_eq!(claims.role.as_deref(), Some("org:member"));
    assert!(claims.permissions.is_empty());
}

#[test]
fn compact_organization_claims_with_empty_id_carry_nothing() {
    let org = organization("", Some("acme"), Some("admin"), Some("read"), Some("1"));
    let claims = org.into_auth_claims(Some("o:dashboard"));

    assert!(claims.id.is_none());
    assert!(claims.slug.is_none());
    assert!(claims.role.is_none());
    assert!(claims.permissions.is_empty());
}

#[test]
fn compact_organization_claim_wins_over_v1_claims() {
    let mut custom = custom_claims();
    custom.features = Some("o:dashboard".into());
    custom.organization = Some(organization("org_v2", None, Some("admin"), Some("read"), Some("1")));
    custom.org_id = Some("org_v1".into());
    let claims = VerifiedClerkClaims::new(JwtClaims {
        subject: Some("user_2abc".into()),
        expires_at: Some(10),
        invalid_before: None,
        issued_at: None,
        custom,
    });

    let auth = claims.into_auth().expect("valid claims");
    assert_eq!(auth.org_id.as_deref(), Some("org_v2"));
    assert_eq!(auth.org_role.as_deref(), Some("org:admin"));
    assert_eq!(auth.org_permissions, vec!["org:dashboard:read"]);
}

#[test]
fn session_id_claim_treats_empty_as_absent() {
    let mut custom = custom_claims();
    assert_eq!(custom.session_id(), None);
    custom.session_id = Some(String::new());
    assert_eq!(custom.session_id(), None);
    custom.session_id = Some("sess_1".into());
    assert_eq!(custom.session_id(), Some("sess_1"));
    custom.authorized_party = Some("https://example.com".into());
    assert_eq!(custom.authorized_party(), Some("https://example.com"));
}

#[test]
fn test_permissions_encode_into_claims_the_decoder_reads_back() {
    let permissions = vec![
        "org:dashboard:read".to_string(),
        "org:teams:manage".to_string(),
        "org:dashboard:write".to_string(),
        "org:teams:read".to_string(),
    ];
    let packed = PackedPermissions::encode(&permissions).expect("well-formed permissions");
    assert_eq!(packed.features, "o:dashboard,o:teams");
    assert_eq!(packed.permissions, "read,manage,write");
    assert_eq!(packed.feature_permission_map, "5,3");

    let org = organization("org_1", None, None, Some(&packed.permissions), Some(&packed.feature_permission_map));
    let mut decoded = org.decode_permissions(Some(&packed.features));
    decoded.sort();
    let mut expected = permissions.clone();
    expected.sort();
    assert_eq!(decoded, expected);
}

#[test]
fn test_permissions_must_be_three_part() {
    let err = PackedPermissions::encode(&["org:ok:read".to_string(), "admin".to_string(), "org::x".to_string()])
        .unwrap_err();
    assert!(matches!(err, TestIssuerError::OrganizationPermission(p) if p == "admin"));
    let err = PackedPermissions::encode(&["org:feature:".to_string()]).unwrap_err();
    assert!(matches!(err, TestIssuerError::OrganizationPermission(p) if p == "org:feature:"));

    let many: Vec<String> = (0..129).map(|i| format!("org:f:v{i}")).collect();
    let err = PackedPermissions::encode(&many).unwrap_err();
    assert!(matches!(
        err,
        TestIssuerError::OrganizationPermission(m) if m == "129 distinct permissions exceeds the 128 the v2 claim encoding allows"
    ));
}

#[test]
fn repeated_permissions_decode_once_each() {
    let permissions = vec![
        "org:dashboard:read".to_string(),
        "org:dashboard:read".to_string(),
        "org:teams:read".to_string(),
        "org:dashboard:write".to_string(),
        "org:teams:read".to_string(),
    ];
    let packed = PackedPermissions::encode(&permissions).expect("well-formed permissions");
    assert_eq!(packed.features, "o:dashboard,o:teams");
    assert_eq!(packed.permissions, "read,write");
    assert_eq!(packed.feature_permission_map, "3,1");

    let org = organization("org_1", None, None, Some(&packed.permissions), Some(&packed.feature_permission_map));
    let decoded = org.decode_permissions(Some(&packed.features));
    assert_eq!(
        decoded,
        vec![
            "org:dashboard:read".to_string(),
            "org:dashboard:write".to_string(),
            "org:teams:read".to_string(),
        ]
    );
}
