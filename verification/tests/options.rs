use serde_json::Value;

use dioxus_clerk::options::{
    ClerkOptions, CreateOrganizationOptions, GetTokenOptions, JsonOptions, OrganizationListOptions,
    OrganizationProfileOptions, OrganizationSwitcherOptions, RedirectOptions, Routing, SignInOptions,
    SignOutOptions, SignUpOptions, TaskSetupMFAOptions, UserButtonOptions, UserProfileMode, UserProfileOptions,
    WaitlistOptions,
};

fn obj(members: Vec<(&str, Value)>) -> Value {
    let mut map = serde_json::Map::new();
    for (name, value) in members {
        map.insert(name.to_string(), value);
    }
    Value::Object(map)
}

fn text(value: &str) -> Value {
    Value::String(value.to_string())
}

fn texts(values: &[&str]) -> Value {
    Value::Array(values.iter().map(|v| text(v)).collect())
}

fn empty() -> Value {
    obj(vec![])
}

#[test]
fn clerk_options_emit_clerk_keys() {
    let value = ClerkOptions::new()
        .sign_in_url("/si")
        .sign_up_url("/su")
        .sign_in_fallback_redirect_url("/sifb")
        .sign_in_force_redirect_url("/sif")
        .sign_up_fallback_redirect_url("/sufb")
        .sign_up_force_redirect_url("/suf")
        .after_sign_out_url("/aso")
        .after_multi_session_single_sign_out_url("/amsso")
        .after_switch_session_url("/ass")
        .waitlist_url("/wl")
        .user_profile_url("/up")
        .organization_profile_url("/op")
        .create_organization_url("/co")
        .proxy_url("/proxy")
        .domain("clerk.example.com")
        .is_satellite(true)
        .satellite_auto_sync(false)
        .prefetch_ui(true)
        .allowed_redirect_origins(&["https://a.example"])
        .allowed_redirect_protocols(&["https"])
        .appearance(obj(vec![("variables", empty())]))
        .localization(obj(vec![("locale", text("en-US"))]))
        .into_value();

    assert_eq!(
        value,
        obj(vec![
            ("signInUrl", text("/si")),
            ("signUpUrl", text("/su")),
            ("signInFallbackRedirectUrl", text("/sifb")),
            ("signInForceRedirectUrl", text("/sif")),
            ("signUpFallbackRedirectUrl", text("/sufb")),
            ("signUpForceRedirectUrl", text("/suf")),
            ("afterSignOutUrl", text("/aso")),
            ("afterMultiSessionSingleSignOutUrl", text("/amsso")),
            ("afterSwitchSessionUrl", text("/ass")),
            ("waitlistUrl", text("/wl")),
            ("userProfileUrl", text("/up")),
            ("organizationProfileUrl", text("/op")),
            ("createOrganizationUrl", text("/co")),
            ("proxyUrl", text("/proxy")),
            ("domain", text("clerk.example.com")),
            ("isSatellite", Value::Bool(true)),
            ("satelliteAutoSync", Value::Bool(false)),
            ("prefetchUI", Value::Bool(true)),
            ("allowedRedirectOrigins", texts(&["https://a.example"])),
            ("allowedRedirectProtocols", texts(&["https"])),
            ("appearance", obj(vec![("variables", empty())])),
            ("localization", obj(vec![("locale", text("en-US"))])),
        ])
    );
}

#[test]
fn clerk_options_emit_session_task_urls() {
    // clerk-js v6 `taskUrls` maps session-task keys to the app URLs Clerk
    // navigates to when a session has a pending after-auth task.
    let value = ClerkOptions::new().task_urls(obj(vec![("setup-mfa", text("/onboarding/mfa"))])).into_value();

    assert_eq!(value, obj(vec![("taskUrls", obj(vec![("setup-mfa", text("/onboarding/mfa"))]))]));
}

#[test]
fn sign_in_options_emit_clerk_keys() {
    let value = SignInOptions::new()
        .routing(Routing::Path)
        .path("/sign-in")
        .sign_up_url("/su")
        .waitlist_url("/wl")
        .force_redirect_url("/f")
        .fallback_redirect_url("/fb")
        .sign_up_force_redirect_url("/suf")
        .sign_up_fallback_redirect_url("/sufb")
        .initial_values(obj(vec![("emailAddress", text("a@example.com"))]))
        .transferable(true)
        .appearance(obj(vec![("variables", empty())]))
        .into_value();

    assert_eq!(
        value,
        obj(vec![
            ("routing", text("path")),
            ("path", text("/sign-in")),
            ("signUpUrl", text("/su")),
            ("waitlistUrl", text("/wl")),
            ("forceRedirectUrl", text("/f")),
            ("fallbackRedirectUrl", text("/fb")),
            ("signUpForceRedirectUrl", text("/suf")),
            ("signUpFallbackRedirectUrl", text("/sufb")),
            ("initialValues", obj(vec![("emailAddress", text("a@example.com"))])),
            ("transferable", Value::Bool(true)),
            ("appearance", obj(vec![("variables", empty())])),
        ])
    );
}

#[test]
fn sign_up_options_emit_clerk_keys() {
    let value = SignUpOptions::new()
        .routing(Routing::Hash)
        .path("/sign-up")
        .sign_in_url("/si")
        .waitlist_url("/wl")
        .force_redirect_url("/f")
        .fallback_redirect_url("/fb")
        .sign_in_force_redirect_url("/sif")
        .sign_in_fallback_redirect_url("/sifb")
        .initial_values(obj(vec![("username", text("a"))]))
        .appearance(empty())
        .into_value();

    assert_eq!(
        value,
        obj(vec![
            ("routing", text("hash")),
            ("path", text("/sign-up")),
            ("signInUrl", text("/si")),
            ("waitlistUrl", text("/wl")),
            ("forceRedirectUrl", text("/f")),
            ("fallbackRedirectUrl", text("/fb")),
            ("signInForceRedirectUrl", text("/sif")),
            ("signInFallbackRedirectUrl", text("/sifb")),
            ("initialValues", obj(vec![("username", text("a"))])),
            ("appearance", empty()),
        ])
    );
}

#[test]
fn user_button_options_emit_clerk_keys() {
    let value = UserButtonOptions::new()
        .after_sign_out_url("/aso")
        .after_switch_session_url("/ass")
        .sign_in_url("/si")
        .show_name(true)
        .default_open(false)
        .user_profile_mode(UserProfileMode::Navigation)
        .user_profile_url("/up")
        .user_profile_props(obj(vec![("appearance", empty())]))
        .appearance(empty())
        .into_value();

    assert_eq!(
        value,
        obj(vec![
            ("afterSignOutUrl", text("/aso")),
            ("afterSwitchSessionUrl", text("/ass")),
            ("signInUrl", text("/si")),
            ("showName", Value::Bool(true)),
            ("defaultOpen", Value::Bool(false)),
            ("userProfileMode", text("navigation")),
            ("userProfileUrl", text("/up")),
            ("userProfileProps", obj(vec![("appearance", empty())])),
            ("appearance", empty()),
        ])
    );
}

#[test]
fn widget_options_emit_clerk_keys() {
    assert_eq!(
        UserProfileOptions::new().routing(Routing::Path).path("/profile").appearance(empty()).into_value(),
        obj(vec![("routing", text("path")), ("path", text("/profile")), ("appearance", empty())])
    );
    assert_eq!(
        CreateOrganizationOptions::new()
            .routing(Routing::Hash)
            .path("/create-org")
            .after_create_organization_url("/org")
            .appearance(empty())
            .into_value(),
        obj(vec![
            ("routing", text("hash")),
            ("path", text("/create-org")),
            ("afterCreateOrganizationUrl", text("/org")),
            ("appearance", empty()),
        ])
    );
    assert_eq!(
        OrganizationProfileOptions::new().routing(Routing::Path).path("/org-profile").appearance(empty()).into_value(),
        obj(vec![("routing", text("path")), ("path", text("/org-profile")), ("appearance", empty())])
    );
    assert_eq!(
        OrganizationSwitcherOptions::new()
            .create_organization_url("/co")
            .after_create_organization_url("/aco")
            .organization_profile_url("/op")
            .appearance(empty())
            .into_value(),
        obj(vec![
            ("createOrganizationUrl", text("/co")),
            ("afterCreateOrganizationUrl", text("/aco")),
            ("organizationProfileUrl", text("/op")),
            ("appearance", empty()),
        ])
    );
    assert_eq!(
        OrganizationListOptions::new()
            .after_create_organization_url("/aco")
            .after_select_organization_url("/aso")
            .appearance(empty())
            .into_value(),
        obj(vec![
            ("afterCreateOrganizationUrl", text("/aco")),
            ("afterSelectOrganizationUrl", text("/aso")),
            ("appearance", empty()),
        ])
    );
    assert_eq!(
        WaitlistOptions::new().after_join_waitlist_url("/ajw").appearance(empty()).into_value(),
        obj(vec![("afterJoinWaitlistUrl", text("/ajw")), ("appearance", empty())])
    );
}

#[test]
fn task_setup_mfa_options_emit_clerk_keys() {
    assert_eq!(
        TaskSetupMFAOptions::new().redirect_url_complete("/onboarding/done").appearance(empty()).into_value(),
        obj(vec![("redirectUrlComplete", text("/onboarding/done")), ("appearance", empty())])
    );
}

#[test]
fn action_options_emit_clerk_keys() {
    assert_eq!(
        RedirectOptions::new()
            .force_redirect_url("/f")
            .fallback_redirect_url("/fb")
            .sign_up_force_redirect_url("/suf")
            .sign_up_fallback_redirect_url("/sufb")
            .sign_in_force_redirect_url("/sif")
            .sign_in_fallback_redirect_url("/sifb")
            .into_value(),
        obj(vec![
            ("forceRedirectUrl", text("/f")),
            ("fallbackRedirectUrl", text("/fb")),
            ("signUpForceRedirectUrl", text("/suf")),
            ("signUpFallbackRedirectUrl", text("/sufb")),
            ("signInForceRedirectUrl", text("/sif")),
            ("signInFallbackRedirectUrl", text("/sifb")),
        ])
    );
    assert_eq!(
        SignOutOptions::new().redirect_url("/after").session_id("sess_1").into_value(),
        obj(vec![("redirectUrl", text("/after")), ("sessionId", text("sess_1"))])
    );
    assert_eq!(
        GetTokenOptions::new()
            .template("supabase")
            .organization_id("org_1")
            .leeway_in_seconds(10)
            .skip_cache(true)
            .into_value(),
        obj(vec![
            ("template", text("supabase")),
            ("organizationId", text("org_1")),
            ("leewayInSeconds", Value::from(10u64)),
            ("skipCache", Value::Bool(true)),
        ])
    );
}

#[test]
fn maybe_setters_with_none_leave_options_untouched() {
    let value = SignInOptions::new()
        .maybe_routing(None)
        .maybe_path(None)
        .maybe_sign_up_url(None)
        .maybe_initial_values(None)
        .maybe_transferable(None)
        .into_value();

    assert_eq!(value, empty());

    let untouched = SignInOptions::from_value(obj(vec![("signUpUrl", text("/kept"))])).maybe_sign_up_url(None).into_value();
    assert_eq!(untouched, obj(vec![("signUpUrl", text("/kept"))]));
}

#[test]
fn builders_accept_a_raw_value_via_from() {
    // A raw JSON escape hatch converts through `From<Value>`, exactly as
    // `from_value` does.
    let value = obj(vec![("signUpUrl", text("/kept")), ("path", text("/p"))]);
    assert_eq!(SignInOptions::from(value.clone()).into_value(), SignInOptions::from_value(value).into_value());
}

#[test]
fn explicit_props_win_over_raw_options() {
    let value = SignInOptions::from_value(obj(vec![("signUpUrl", text("/old")), ("path", text("/kept"))]))
        .sign_up_url("/new")
        .into_value();

    assert_eq!(value, obj(vec![("signUpUrl", text("/new")), ("path", text("/kept"))]));
}

#[test]
fn raw_null_options_stay_null_when_no_setter_runs() {
    assert_eq!(SignInOptions::from_value(Value::Null).maybe_sign_up_url(None).into_value(), Value::Null);
    assert_eq!(
        SignInOptions::from_value(Value::Null).sign_up_url("/su").into_value(),
        obj(vec![("signUpUrl", text("/su"))])
    );
}

#[test]
fn raw_non_objects_are_replaced_by_the_first_option() {
    let from_array = JsonOptions::from_value(texts(&["x"])).option("a", Value::from(1u64)).into_value();
    assert_eq!(from_array, obj(vec![("a", Value::from(1u64))]));
    let from_string = JsonOptions::from_value(text("raw")).into_value();
    assert_eq!(from_string, text("raw"));
    assert_eq!(JsonOptions::new().into_value(), empty());
    assert_eq!(JsonOptions::default().into_value(), empty());
}

#[test]
fn later_options_override_earlier_ones_and_conversions_agree() {
    let options = ClerkOptions::new().sign_in_url("/a").sign_in_url("/b").maybe_sign_in_url(Some("/c"));
    let by_ref: Value = Value::from(&options);
    let copy = options.clone();
    assert_eq!(by_ref, obj(vec![("signInUrl", text("/c"))]));
    assert_eq!(Value::from(options), by_ref);
    assert_eq!(copy.into_value(), by_ref);
    assert_eq!(Value::from(Routing::Hash), text("hash"));
    assert_eq!(Value::from(UserProfileMode::Modal), text("modal"));
}

#[test]
fn builders_compare_by_the_json_they_produce() {
    assert_eq!(ClerkOptions::new().sign_in_url("/a").sign_in_url("/b"), ClerkOptions::new().sign_in_url("/b"));
    assert_eq!(
        ClerkOptions::new().sign_in_url("/si").sign_up_url("/su"),
        ClerkOptions::new().sign_up_url("/su").sign_in_url("/si")
    );
    assert_eq!(
        SignInOptions::from_value(obj(vec![("path", text("/p"))])),
        SignInOptions::new().path("/p")
    );
    assert_ne!(SignInOptions::new().path("/p"), SignInOptions::new().path("/q"));
    assert_ne!(JsonOptions::from_value(Value::Null), JsonOptions::new());
}
