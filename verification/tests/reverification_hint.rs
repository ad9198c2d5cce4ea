use dioxus_clerk::auth::{ClerkError, ReverificationLevel};
use serde_json::Value;

fn parse(text: &str) -> Value {
    serde_json::from_str::<Value>(text).expect("test JSON parses")
}

#[test]
fn reverification_hint_with_level_maps_to_needs_reverification() {
    let hint = parse(
        r#"{ "clerk_error": { "type": "forbidden", "reason": "reverification-error",
             "metadata": { "reverification": { "level": "second_factor" } } } }"#,
    );
    assert_eq!(
        ClerkError::from_reverification_hint(&hint),
        Some(ClerkError::NeedsReverification { level: Some(ReverificationLevel::SecondFactor) })
    );
}

#[test]
fn reverification_hint_without_level_carries_none() {
    let hint = parse(r#"{ "clerk_error": { "type": "forbidden", "reason": "reverification-error" } }"#);
    assert_eq!(
        ClerkError::from_reverification_hint(&hint),
        Some(ClerkError::NeedsReverification { level: None })
    );
    let numeric_level = parse(
        r#"{ "clerk_error": { "type": "forbidden", "reason": "reverification-error",
             "metadata": { "reverification": { "level": 2 } } } }"#,
    );
    assert_eq!(
        ClerkError::from_reverification_hint(&numeric_level),
        Some(ClerkError::NeedsReverification { level: None })
    );
}

#[test]
fn unknown_reverification_level_round_trips() {
    let hint = parse(
        r#"{ "clerk_error": { "type": "forbidden", "reason": "reverification-error",
             "metadata": { "reverification": { "level": "passkey" } } } }"#,
    );
    match ClerkError::from_reverification_hint(&hint) {
        Some(ClerkError::NeedsReverification { level: Some(ReverificationLevel::Other(other)) }) => {
            assert_eq!(other.as_str(), "passkey")
        }
        other => panic!("unexpected mapping: {other:?}"),
    }
}

#[test]
fn non_hints_map_to_nothing() {
    for text in [
        r#"{ "clerk_error": { "type": "forbidden", "reason": "other" } }"#,
        r#"{ "clerk_error": { "type": "unauthorized", "reason": "reverification-error" } }"#,
        r#"{ "clerk_error": { "reason": "reverification-error" } }"#,
        r#"{ "clerk_error": "forbidden" }"#,
        r#"{ "type": "forbidden", "reason": "reverification-error" }"#,
        r#"["clerk_error"]"#,
        r#""reverification-error""#,
    ] {
        assert_eq!(ClerkError::from_reverification_hint(&parse(text)), None, "{text}");
    }
}
