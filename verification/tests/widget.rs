use dioxus_clerk::auth::ClerkError;
use dioxus_clerk::widget::{
    host_id, host_mount_timeout_error, needs_mount, shows_fallback, spread_id, HostAttribute, MountedState, Widget,
    HOST_MOUNT_DEADLINE_MS, HOST_MOUNT_RETRY_MS,
};

fn attribute(name: &str, text: &str) -> HostAttribute {
    HostAttribute { name: name.to_string(), text: Some(text.to_string()) }
}

#[test]
fn spread_id_reads_text_id_attribute() {
    let attributes = vec![attribute("id", "custom-host")];
    assert_eq!(spread_id(&attributes).as_deref(), Some("custom-host"));
}

#[test]
fn spread_id_is_none_without_an_id_attribute() {
    let attributes = vec![attribute("class", "mx-auto")];
    assert_eq!(spread_id(&attributes), None);
}

#[test]
fn spread_id_prefers_the_last_id_attribute() {
    let attributes = vec![attribute("id", "first"), attribute("id", "second")];
    assert_eq!(spread_id(&attributes).as_deref(), Some("second"));
}

#[test]
fn spread_id_skips_an_id_without_a_text_value() {
    let attributes = vec![attribute("id", "text-id"), HostAttribute { name: "id".to_string(), text: None }];
    assert_eq!(spread_id(&attributes).as_deref(), Some("text-id"));
    assert_eq!(spread_id(&[]), None);
}

#[test]
fn explicit_host_id_wins_over_the_spread() {
    let attributes = vec![attribute("id", "spread-sign-in-host")];
    assert_eq!(host_id(Some("sign-in-host".to_string()), &attributes).as_deref(), Some("sign-in-host"));
    assert_eq!(host_id(None, &attributes).as_deref(), Some("spread-sign-in-host"));
    assert_eq!(host_id(None, &[attribute("class", "x")]), None);
}

#[test]
fn task_setup_mfa_uses_v6_method_names() {
    assert_eq!(Widget::TaskSetupMfa.mount_method(), "mountTaskSetupMFA");
    assert_eq!(Widget::TaskSetupMfa.unmount_method(), "unmountTaskSetupMFA");
    assert_eq!(Widget::SignIn.mount_method(), "mountSignIn");
    assert_eq!(Widget::OrganizationSwitcher.unmount_method(), "unmountOrganizationSwitcher");
}

#[test]
fn mount_runs_until_the_current_widget_is_in_the_current_element() {
    assert!(needs_mount(false, None));
    assert!(needs_mount(false, Some(MountedState { same_options: true, same_element: true })));
    assert!(needs_mount(true, None));
    assert!(needs_mount(true, Some(MountedState { same_options: false, same_element: true })));
    assert!(needs_mount(true, Some(MountedState { same_options: true, same_element: false })));
    assert!(!needs_mount(true, Some(MountedState { same_options: true, same_element: true })));
    assert!(shows_fallback(false));
    assert!(!shows_fallback(true));
}

#[test]
fn host_mount_deadline_error_names_the_deadline() {
    assert_eq!(HOST_MOUNT_RETRY_MS, 16);
    assert_eq!(
        host_mount_timeout_error(),
        ClerkError::Js(format!(
            "clerk widget host element was not mounted within {HOST_MOUNT_DEADLINE_MS} ms; the widget cannot mount"
        ))
    );
}

#[test]
fn widget_without_caller_id_omits_the_host_id_attribute() {
    assert_eq!(host_id(None, &[]), None);
}

#[test]
fn widget_keeps_an_explicit_host_id() {
    assert_eq!(host_id(Some("sign-in-host".to_string()), &[]).as_deref(), Some("sign-in-host"));
}

#[test]
fn widget_keeps_a_spread_host_id() {
    assert_eq!(host_id(None, &[attribute("id", "spread-sign-in-host")]).as_deref(), Some("spread-sign-in-host"));
}
