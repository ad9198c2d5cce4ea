use dioxus_clerk::publishable_key::{base64_decode, default_script_url, default_ui_url, frontend_api_host};

fn publishable_key(prefix: &str, host_marker: &str) -> String {
    format!("{prefix}{}", base64_encode(host_marker.as_bytes()))
}

/// Standard-base64 encoder used only to build test keys.
fn base64_encode(input: &[u8]) -> String {
    const TABLE: &[u8; 64] = b"ABCDEFGHIJKLMNOPQRSTUVWXYZabcdefghijklmnopqrstuvwxyz0123456789+/";

    let mut out = String::with_capacity(input.len().div_ceil(3) * 4);
    for chunk in input.chunks(3) {
        let b0 = chunk[0];
        out.push(TABLE[(b0 >> 2) as usize] as char);
        match chunk {
            [_, b1, b2] => {
                out.push(TABLE[(((b0 & 0b11) << 4) | (b1 >> 4)) as usize] as char);
                out.push(TABLE[(((b1 & 0b1111) << 2) | (b2 >> 6)) as usize] as char);
                out.push(TABLE[(b2 & 0b11_1111) as usize] as char);
            }
            [_, b1] => {
                out.push(TABLE[(((b0 & 0b11) << 4) | (b1 >> 4)) as usize] as char);
                out.push(TABLE[((b1 & 0b1111) << 2) as usize] as char);
                out.push('=');
            }
            _ => {
                out.push(TABLE[((b0 & 0b11) << 4) as usize] as char);
                out.push_str("==");
            }
        }
    }
    out
}

#[test]
fn decodes_frontend_api_host_from_test_key() {
    let key = publishable_key("pk_test_", "foo-bar-13.clerk.accounts.dev$");
    assert_eq!(frontend_api_host(&key).as_deref(), Some("foo-bar-13.clerk.accounts.dev"));
}

#[test]
fn decodes_frontend_api_host_from_live_key() {
    let key = publishable_key("pk_live_", "clerk.example.com$");
    assert_eq!(frontend_api_host(&key).as_deref(), Some("clerk.example.com"));
}

#[test]
fn tolerates_a_host_without_the_trailing_marker() {
    let key = publishable_key("pk_test_", "clerk.example.com");
    assert_eq!(frontend_api_host(&key).as_deref(), Some("clerk.example.com"));
}

#[test]
fn rejects_a_key_without_a_publishable_prefix() {
    assert!(frontend_api_host("sk_test_secret").is_none());
    assert!(frontend_api_host("not-a-key").is_none());
}

#[test]
fn rejects_a_key_whose_body_is_not_valid_base64() {
    assert!(frontend_api_host("pk_test_not*base64").is_none());
}

#[test]
fn rejects_a_key_that_decodes_to_an_empty_host() {
    let key = publishable_key("pk_test_", "$");
    assert!(frontend_api_host(&key).is_none());
}

#[test]
fn decodes_the_documented_example_key() {
    assert_eq!(
        frontend_api_host("pk_test_Zm9vLmNsZXJrLmFjY291bnRzLmRldiQ").as_deref(),
        Some("foo.clerk.accounts.dev")
    );
}

#[test]
fn base64_decoding_handles_every_group_length() {
    assert_eq!(base64_decode("aGk=").as_deref(), Some(b"hi".as_slice()));
    assert_eq!(base64_decode("aGk").as_deref(), Some(b"hi".as_slice()));
    assert_eq!(base64_decode("aGV5").as_deref(), Some(b"hey".as_slice()));
    assert_eq!(base64_decode("aA==").as_deref(), Some(b"h".as_slice()));
    assert_eq!(base64_decode("+/+/").as_deref(), Some([0xfb, 0xff, 0xbf].as_slice()));
    assert_eq!(base64_decode("").as_deref(), Some([].as_slice()));
    assert!(base64_decode("a-b_").is_none());
}

#[test]
fn script_urls_come_from_the_frontend_api_host_or_the_cdn() {
    let key = publishable_key("pk_live_", "clerk.example.com$");
    assert_eq!(
        default_script_url(&key),
        "https://clerk.example.com/npm/@clerk/clerk-js@6/dist/clerk.browser.js"
    );
    assert_eq!(default_ui_url(&key), "https://clerk.example.com/npm/@clerk/ui@1/dist/ui.browser.js");
    assert_eq!(
        default_script_url("nope"),
        "https://cdn.jsdelivr.net/npm/@clerk/clerk-js@6/dist/clerk.browser.js"
    );
    assert_eq!(default_ui_url("nope"), "https://cdn.jsdelivr.net/npm/@clerk/ui@1/dist/ui.browser.js");
}

#[test]
fn non_utf8_host_bytes_are_rejected() {
    // 0xff 0xfe is not UTF-8.
    assert!(frontend_api_host("pk_test_//4").is_none());
}
