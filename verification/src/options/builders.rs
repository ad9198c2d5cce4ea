//! The typed option builders: one per clerk-js call or widget, each
//! setting only the option keys that call reads.
use vstd::prelude::*;

use super::{routing_text, user_profile_mode_text, JsonOptions, OptionsView, Routing, UserProfileMode};
use crate::json::{
    bool_value, json_bool_value, json_number_value, json_string_array, json_string_value, number_value,
    string_array_value, string_value,
};
use vstd::std_specs::convert::FromSpecImpl;

verus! {

/// Options forwarded to `Clerk.load(...)`.
#[derive(Debug, PartialEq, Eq)]
pub struct ClerkOptions {
    inner: JsonOptions,
}

impl View for ClerkOptions {
    type V = OptionsView;

    closed spec fn view(&self) -> OptionsView {
        self.inner@
    }
}

impl Default for ClerkOptions {
    fn default() -> (r: Self)
        ensures
            r@ == OptionsView::empty(),
    {
        ClerkOptions { inner: JsonOptions::new() }
    }
}

impl Clone for ClerkOptions {
    fn clone(&self) -> (r: Self)
        ensures
            r@ == self@,
    {
        ClerkOptions { inner: self.inner.clone() }
    }
}

impl ClerkOptions {
    /// Start with an empty Clerk options object.
    pub fn new() -> (r: Self)
        ensures
            r@ == OptionsView::empty(),
    {
        ClerkOptions { inner: JsonOptions::new() }
    }

    /// Wrap an already-built JSON value.
    pub fn from_value(value: serde_json::Value) -> (r: Self)
        ensures
            r@ == OptionsView::Raw(value),
    {
        ClerkOptions { inner: JsonOptions::from_value(value) }
    }

    /// Set a raw clerk-js option by its JavaScript key. If the wrapped
    /// value is not a JSON object, it is replaced with an empty object
    /// before the key is set.
    pub fn option(self, key: &str, value: serde_json::Value) -> (r: Self)
        ensures
            r@ == self@.set(key@, value),
    {
        ClerkOptions { inner: self.inner.option(key, value) }
    }

    /// Convert into the raw JSON value passed to clerk-js.
    pub fn into_value(self) -> (r: serde_json::Value)
        ensures
            r == self@.json(),
    {
        self.inner.into_value()
    }

    /// Set the application sign-in URL.
    pub fn sign_in_url(self, value: &str) -> (r: Self)
        ensures
            r@ == self@.set("signInUrl"@, json_string_value(value@)),
    {
        self.option("signInUrl", string_value(value))
    }

    /// As [`sign_in_url`](Self::sign_in_url) when a value is given; `None` leaves the
    /// options untouched.
    pub fn maybe_sign_in_url(self, value: Option<&str>) -> (r: Self)
        ensures
            match value {
                Some(v) => r@ == self@.set("signInUrl"@, json_string_value(v@)),
                None => r@ == self@,
            },
    {
        match value {
            Some(v) => self.sign_in_url(v),
            None => self,
        }
    }

    /// Set the application sign-up URL.
    pub fn sign_up_url(self, value: &str) -> (r: Self)
        ensures
            r@ == self@.set("signUpUrl"@, json_string_value(value@)),
    {
        self.option("signUpUrl", string_value(value))
    }

    /// As [`sign_up_url`](Self::sign_up_url) when a value is given; `None` leaves the
    /// options untouched.
    pub fn maybe_sign_up_url(self, value: Option<&str>) -> (r: Self)
        ensures
            match value {
                Some(v) => r@ == self@.set("signUpUrl"@, json_string_value(v@)),
                None => r@ == self@,
            },
    {
        match value {
            Some(v) => self.sign_up_url(v),
            None => self,
        }
    }

    /// Set the URL to redirect to after sign-in when no `redirect_url` is in play.
    pub fn sign_in_fallback_redirect_url(self, value: &str) -> (r: Self)
        ensures
            r@ == self@.set("signInFallbackRedirectUrl"@, json_string_value(value@)),
    {
        self.option("signInFallbackRedirectUrl", string_value(value))
    }

    /// As [`sign_in_fallback_redirect_url`](Self::sign_in_fallback_redirect_url) when a value is given; `None` leaves the
    /// options untouched.
    pub fn maybe_sign_in_fallback_redirect_url(self, value: Option<&str>) -> (r: Self)
        ensures
            match value {
                Some(v) => r@ == self@.set("signInFallbackRedirectUrl"@, json_string_value(v@)),
                None => r@ == self@,
            },
    {
        match value {
            Some(v) => self.sign_in_fallback_redirect_url(v),
            None => self,
        }
    }

    /// Set the URL to always redirect to after sign-in.
    pub fn sign_in_force_redirect_url(self, value: &str) -> (r: Self)
        ensures
            r@ == self@.set("signInForceRedirectUrl"@, json_string_value(value@)),
    {
        self.option("signInForceRedirectUrl", string_value(value))
    }

    /// As [`sign_in_force_redirect_url`](Self::sign_in_force_redirect_url) when a value is given; `None` leaves the
    /// options untouched.
    pub fn maybe_sign_in_force_redirect_url(self, value: Option<&str>) -> (r: Self)
        ensures
            match value {
                Some(v) => r@ == self@.set("signInForceRedirectUrl"@, json_string_value(v@)),
                None => r@ == self@,
            },
    {
        match value {
            Some(v) => self.sign_in_force_redirect_url(v),
            None => self,
        }
    }

    /// Set the URL to redirect to after sign-up when no `redirect_url` is in play.
    pub fn sign_up_fallback_redirect_url(self, value: &str) -> (r: Self)
        ensures
            r@ == self@.set("signUpFallbackRedirectUrl"@, json_string_value(value@)),
    {
        self.option("signUpFallbackRedirectUrl", string_value(value))
    }

    /// As [`sign_up_fallback_redirect_url`](Self::sign_up_fallback_redirect_url) when a value is given; `None` leaves the
    /// options untouched.
    pub fn maybe_sign_up_fallback_redirect_url(self, value: Option<&str>) -> (r: Self)
        ensures
            match value {
                Some(v) => r@ == self@.set("signUpFallbackRedirectUrl"@, json_string_value(v@)),
                None => r@ == self@,
            },
    {
        match value {
            Some(v) => self.sign_up_fallback_redirect_url(v),
            None => self,
        }
    }

    /// Set the URL to always redirect to after sign-up.
    pub fn sign_up_force_redirect_url(self, value: &str) -> (r: Self)
        ensures
            r@ == self@.set("signUpForceRedirectUrl"@, json_string_value(value@)),
    {
        self.option("signUpForceRedirectUrl", string_value(value))
    }

    /// As [`sign_up_force_redirect_url`](Self::sign_up_force_redirect_url) when a value is given; `None` leaves the
    /// options untouched.
    pub fn maybe_sign_up_force_redirect_url(self, value: Option<&str>) -> (r: Self)
        ensures
            match value {
                Some(v) => r@ == self@.set("signUpForceRedirectUrl"@, json_string_value(v@)),
                None => r@ == self@,
            },
    {
        match value {
            Some(v) => self.sign_up_force_redirect_url(v),
            None => self,
        }
    }

    /// Set the URL Clerk should use after sign-out.
    pub fn after_sign_out_url(self, value: &str) -> (r: Self)
        ensures
            r@ == self@.set("afterSignOutUrl"@, json_string_value(value@)),
    {
        self.option("afterSignOutUrl", string_value(value))
    }

    /// As [`after_sign_out_url`](Self::after_sign_out_url) when a value is given; `None` leaves the
    /// options untouched.
    pub fn maybe_after_sign_out_url(self, value: Option<&str>) -> (r: Self)
        ensures
            match value {
                Some(v) => r@ == self@.set("afterSignOutUrl"@, json_string_value(v@)),
                None => r@ == self@,
            },
    {
        match value {
            Some(v) => self.after_sign_out_url(v),
            None => self,
        }
    }

    /// Set the URL Clerk should use after signing out one account in multi-session apps.
    pub fn after_multi_session_single_sign_out_url(self, value: &str) -> (r: Self)
        ensures
            r@ == self@.set("afterMultiSessionSingleSignOutUrl"@, json_string_value(value@)),
    {
        self.option("afterMultiSessionSingleSignOutUrl", string_value(value))
    }

    /// As [`after_multi_session_single_sign_out_url`](Self::after_multi_session_single_sign_out_url) when a value is given; `None` leaves the
    /// options untouched.
    pub fn maybe_after_multi_session_single_sign_out_url(self, value: Option<&str>) -> (r: Self)
        ensures
            match value {
                Some(v) => r@ == self@.set("afterMultiSessionSingleSignOutUrl"@, json_string_value(v@)),
                None => r@ == self@,
            },
    {
        match value {
            Some(v) => self.after_multi_session_single_sign_out_url(v),
            None => self,
        }
    }

    /// Set the URL Clerk should use after switching sessions in multi-session apps.
    pub fn after_switch_session_url(self, value: &str) -> (r: Self)
        ensures
            r@ == self@.set("afterSwitchSessionUrl"@, json_string_value(value@)),
    {
        self.option("afterSwitchSessionUrl", string_value(value))
    }

    /// As [`after_switch_session_url`](Self::after_switch_session_url) when a value is given; `None` leaves the
    /// options untouched.
    pub fn maybe_after_switch_session_url(self, value: Option<&str>) -> (r: Self)
        ensures
            match value {
                Some(v) => r@ == self@.set("afterSwitchSessionUrl"@, json_string_value(v@)),
                None => r@ == self@,
            },
    {
        match value {
            Some(v) => self.after_switch_session_url(v),
            None => self,
        }
    }

    /// Set the application waitlist URL.
    pub fn waitlist_url(self, value: &str) -> (r: Self)
        ensures
            r@ == self@.set("waitlistUrl"@, json_string_value(value@)),
    {
        self.option("waitlistUrl", string_value(value))
    }

    /// As [`waitlist_url`](Self::waitlist_url) when a value is given; `None` leaves the
    /// options untouched.
    pub fn maybe_waitlist_url(self, value: Option<&str>) -> (r: Self)
        ensures
            match value {
                Some(v) => r@ == self@.set("waitlistUrl"@, json_string_value(v@)),
                None => r@ == self@,
            },
    {
        match value {
            Some(v) => self.waitlist_url(v),
            None => self,
        }
    }

    /// Set the application user profile URL.
    pub fn user_profile_url(self, value: &str) -> (r: Self)
        ensures
            r@ == self@.set("userProfileUrl"@, json_string_value(value@)),
    {
        self.option("userProfileUrl", string_value(value))
    }

    /// As [`user_profile_url`](Self::user_profile_url) when a value is given; `None` leaves the
    /// options untouched.
    pub fn maybe_user_profile_url(self, value: Option<&str>) -> (r: Self)
        ensures
            match value {
                Some(v) => r@ == self@.set("userProfileUrl"@, json_string_value(v@)),
                None => r@ == self@,
            },
    {
        match value {
            Some(v) => self.user_profile_url(v),
            None => self,
        }
    }

    /// Set the application organization profile URL.
    pub fn organization_profile_url(self, value: &str) -> (r: Self)
        ensures
            r@ == self@.set("organizationProfileUrl"@, json_string_value(value@)),
    {
        self.option("organizationProfileUrl", string_value(value))
    }

    /// As [`organization_profile_url`](Self::organization_profile_url) when a value is given; `None` leaves the
    /// options untouched.
    pub fn maybe_organization_profile_url(self, value: Option<&str>) -> (r: Self)
        ensures
            match value {
                Some(v) => r@ == self@.set("organizationProfileUrl"@, json_string_value(v@)),
                None => r@ == self@,
            },
    {
        match value {
            Some(v) => self.organization_profile_url(v),
            None => self,
        }
    }

    /// Set the application create-organization URL.
    pub fn create_organization_url(self, value: &str) -> (r: Self)
        ensures
            r@ == self@.set("createOrganizationUrl"@, json_string_value(value@)),
    {
        self.option("createOrganizationUrl", string_value(value))
    }

    /// As [`create_organization_url`](Self::create_organization_url) when a value is given; `None` leaves the
    /// options untouched.
    pub fn maybe_create_organization_url(self, value: Option<&str>) -> (r: Self)
        ensures
            match value {
                Some(v) => r@ == self@.set("createOrganizationUrl"@, json_string_value(v@)),
                None => r@ == self@,
            },
    {
        match value {
            Some(v) => self.create_organization_url(v),
            None => self,
        }
    }

    /// Set Clerk's reverse-proxy URL.
    pub fn proxy_url(self, value: &str) -> (r: Self)
        ensures
            r@ == self@.set("proxyUrl"@, json_string_value(value@)),
    {
        self.option("proxyUrl", string_value(value))
    }

    /// As [`proxy_url`](Self::proxy_url) when a value is given; `None` leaves the
    /// options untouched.
    pub fn maybe_proxy_url(self, value: Option<&str>) -> (r: Self)
        ensures
            match value {
                Some(v) => r@ == self@.set("proxyUrl"@, json_string_value(v@)),
                None => r@ == self@,
            },
    {
        match value {
            Some(v) => self.proxy_url(v),
            None => self,
        }
    }

    /// Set Clerk's satellite domain.
    pub fn domain(self, value: &str) -> (r: Self)
        ensures
            r@ == self@.set("domain"@, json_string_value(value@)),
    {
        self.option("domain", string_value(value))
    }

    /// As [`domain`](Self::domain) when a value is given; `None` leaves the
    /// options untouched.
    pub fn maybe_domain(self, value: Option<&str>) -> (r: Self)
        ensures
            match value {
                Some(v) => r@ == self@.set("domain"@, json_string_value(v@)),
                None => r@ == self@,
            },
    {
        match value {
            Some(v) => self.domain(v),
            None => self,
        }
    }

    /// Set whether Clerk should treat this app as a satellite application.
    pub fn is_satellite(self, value: bool) -> (r: Self)
        ensures
            r@ == self@.set("isSatellite"@, json_bool_value(value)),
    {
        self.option("isSatellite", bool_value(value))
    }

    /// As [`is_satellite`](Self::is_satellite) when a value is given; `None` leaves the
    /// options untouched.
    pub fn maybe_is_satellite(self, value: Option<bool>) -> (r: Self)
        ensures
            match value {
                Some(v) => r@ == self@.set("isSatellite"@, json_bool_value(v)),
                None => r@ == self@,
            },
    {
        match value {
            Some(v) => self.is_satellite(v),
            None => self,
        }
    }

    /// Set whether satellite apps should automatically sync on initial page load.
    pub fn satellite_auto_sync(self, value: bool) -> (r: Self)
        ensures
            r@ == self@.set("satelliteAutoSync"@, json_bool_value(value)),
    {
        self.option("satelliteAutoSync", bool_value(value))
    }

    /// As [`satellite_auto_sync`](Self::satellite_auto_sync) when a value is given; `None` leaves the
    /// options untouched.
    pub fn maybe_satellite_auto_sync(self, value: Option<bool>) -> (r: Self)
        ensures
            match value {
                Some(v) => r@ == self@.set("satelliteAutoSync"@, json_bool_value(v)),
                None => r@ == self@,
            },
    {
        match value {
            Some(v) => self.satellite_auto_sync(v),
            None => self,
        }
    }

    /// Set whether Clerk should prefetch its UI package when supported.
    pub fn prefetch_ui(self, value: bool) -> (r: Self)
        ensures
            r@ == self@.set("prefetchUI"@, json_bool_value(value)),
    {
        self.option("prefetchUI", bool_value(value))
    }

    /// As [`prefetch_ui`](Self::prefetch_ui) when a value is given; `None` leaves the
    /// options untouched.
    pub fn maybe_prefetch_ui(self, value: Option<bool>) -> (r: Self)
        ensures
            match value {
                Some(v) => r@ == self@.set("prefetchUI"@, json_bool_value(v)),
                None => r@ == self@,
            },
    {
        match value {
            Some(v) => self.prefetch_ui(v),
            None => self,
        }
    }

    /// Set Clerk's `allowedRedirectOrigins` list.
    pub fn allowed_redirect_origins(self, values: &[&str]) -> (r: Self)
        ensures
            r@ == self@.set("allowedRedirectOrigins"@, json_string_array(values@.map_values(|s: &str| s@))),
    {
        self.option("allowedRedirectOrigins", string_array_value(values))
    }

    /// As [`allowed_redirect_origins`](Self::allowed_redirect_origins) when a value is given; `None` leaves the
    /// options untouched.
    pub fn maybe_allowed_redirect_origins(self, values: Option<&[&str]>) -> (r: Self)
        ensures
            match values {
                Some(v) => r@ == self@.set("allowedRedirectOrigins"@, json_string_array(v@.map_values(|s: &str| s@))),
                None => r@ == self@,
            },
    {
        match values {
            Some(v) => self.allowed_redirect_origins(v),
            None => self,
        }
    }

    /// Set Clerk's `allowedRedirectProtocols` list.
    pub fn allowed_redirect_protocols(self, values: &[&str]) -> (r: Self)
        ensures
            r@ == self@.set("allowedRedirectProtocols"@, json_string_array(values@.map_values(|s: &str| s@))),
    {
        self.option("allowedRedirectProtocols", string_array_value(values))
    }

    /// As [`allowed_redirect_protocols`](Self::allowed_redirect_protocols) when a value is given; `None` leaves the
    /// options untouched.
    pub fn maybe_allowed_redirect_protocols(self, values: Option<&[&str]>) -> (r: Self)
        ensures
            match values {
                Some(v) => r@ == self@.set("allowedRedirectProtocols"@, json_string_array(v@.map_values(|s: &str| s@))),
                None => r@ == self@,
            },
    {
        match values {
            Some(v) => self.allowed_redirect_protocols(v),
            None => self,
        }
    }

    /// Forward Clerk's raw `appearance` object.
    pub fn appearance(self, value: serde_json::Value) -> (r: Self)
        ensures
            r@ == self@.set("appearance"@, value),
    {
        self.option("appearance", value)
    }

    /// As [`appearance`](Self::appearance) when a value is given; `None` leaves the
    /// options untouched.
    pub fn maybe_appearance(self, value: Option<serde_json::Value>) -> (r: Self)
        ensures
            match value {
                Some(v) => r@ == self@.set("appearance"@, v),
                None => r@ == self@,
            },
    {
        match value {
            Some(v) => self.appearance(v),
            None => self,
        }
    }

    /// Forward Clerk's raw `localization` object.
    pub fn localization(self, value: serde_json::Value) -> (r: Self)
        ensures
            r@ == self@.set("localization"@, value),
    {
        self.option("localization", value)
    }

    /// As [`localization`](Self::localization) when a value is given; `None` leaves the
    /// options untouched.
    pub fn maybe_localization(self, value: Option<serde_json::Value>) -> (r: Self)
        ensures
            match value {
                Some(v) => r@ == self@.set("localization"@, v),
                None => r@ == self@,
            },
    {
        match value {
            Some(v) => self.localization(v),
            None => self,
        }
    }

    /// Map clerk-js session-task keys to the app URLs Clerk navigates to when a
    /// session has a pending task (e.g. `{ "setup-mfa": "/onboarding/mfa" }`).
    pub fn task_urls(self, value: serde_json::Value) -> (r: Self)
        ensures
            r@ == self@.set("taskUrls"@, value),
    {
        self.option("taskUrls", value)
    }

    /// As [`task_urls`](Self::task_urls) when a value is given; `None` leaves the
    /// options untouched.
    pub fn maybe_task_urls(self, value: Option<serde_json::Value>) -> (r: Self)
        ensures
            match value {
                Some(v) => r@ == self@.set("taskUrls"@, v),
                None => r@ == self@,
            },
    {
        match value {
            Some(v) => self.task_urls(v),
            None => self,
        }
    }
}

impl From<ClerkOptions> for serde_json::Value {
    fn from(options: ClerkOptions) -> (r: serde_json::Value) {
        options.into_value()
    }
}

impl FromSpecImpl<ClerkOptions> for serde_json::Value {
    open spec fn obeys_from_spec() -> bool {
        true
    }

    open spec fn from_spec(options: ClerkOptions) -> serde_json::Value {
        options@.json()
    }
}

impl<'a> From<&'a ClerkOptions> for serde_json::Value {
    fn from(options: &'a ClerkOptions) -> (r: serde_json::Value) {
        options.inner.to_value()
    }
}

impl<'a> FromSpecImpl<&'a ClerkOptions> for serde_json::Value {
    open spec fn obeys_from_spec() -> bool {
        true
    }

    open spec fn from_spec(options: &'a ClerkOptions) -> serde_json::Value {
        options@.json()
    }
}

/// A raw JSON value is accepted for any builder, so the escape hatch for
/// options this crate has not named keeps working.
impl From<serde_json::Value> for ClerkOptions {
    fn from(value: serde_json::Value) -> (r: Self) {
        ClerkOptions { inner: JsonOptions::from_value(value) }
    }
}

impl FromSpecImpl<serde_json::Value> for ClerkOptions {
    open spec fn obeys_from_spec() -> bool {
        true
    }

    closed spec fn from_spec(value: serde_json::Value) -> ClerkOptions {
        ClerkOptions { inner: JsonOptions::from_value_spec(value) }
    }
}

/// Options for sign-in UI and modal flows.
#[derive(Debug, PartialEq, Eq)]
pub struct SignInOptions {
    inner: JsonOptions,
}

impl View for SignInOptions {
    type V = OptionsView;

    closed spec fn view(&self) -> OptionsView {
        self.inner@
    }
}

impl Default for SignInOptions {
    fn default() -> (r: Self)
        ensures
            r@ == OptionsView::empty(),
    {
        SignInOptions { inner: JsonOptions::new() }
    }
}

impl Clone for SignInOptions {
    fn clone(&self) -> (r: Self)
        ensures
            r@ == self@,
    {
        SignInOptions { inner: self.inner.clone() }
    }
}

impl SignInOptions {
    /// Start with an empty Clerk options object.
    pub fn new() -> (r: Self)
        ensures
            r@ == OptionsView::empty(),
    {
        SignInOptions { inner: JsonOptions::new() }
    }

    /// Wrap an already-built JSON value.
    pub fn from_value(value: serde_json::Value) -> (r: Self)
        ensures
            r@ == OptionsView::Raw(value),
    {
        SignInOptions { inner: JsonOptions::from_value(value) }
    }

    /// Set a raw clerk-js option by its JavaScript key. If the wrapped
    /// value is not a JSON object, it is replaced with an empty object
    /// before the key is set.
    pub fn option(self, key: &str, value: serde_json::Value) -> (r: Self)
        ensures
            r@ == self@.set(key@, value),
    {
        SignInOptions { inner: self.inner.option(key, value) }
    }

    /// Convert into the raw JSON value passed to clerk-js.
    pub fn into_value(self) -> (r: serde_json::Value)
        ensures
            r == self@.json(),
    {
        self.inner.into_value()
    }

    /// Set embedded routing mode, for example `"path"` or `"hash"`.
    pub fn routing(self, value: Routing) -> (r: Self)
        ensures
            r@ == self@.set("routing"@, json_string_value(routing_text(value))),
    {
        self.option("routing", string_value(value.as_str()))
    }

    /// As [`routing`](Self::routing) when a value is given; `None` leaves the
    /// options untouched.
    pub fn maybe_routing(self, value: Option<Routing>) -> (r: Self)
        ensures
            match value {
                Some(v) => r@ == self@.set("routing"@, json_string_value(routing_text(v))),
                None => r@ == self@,
            },
    {
        match value {
            Some(v) => self.routing(v),
            None => self,
        }
    }

    /// Set the path used by embedded routing.
    pub fn path(self, value: &str) -> (r: Self)
        ensures
            r@ == self@.set("path"@, json_string_value(value@)),
    {
        self.option("path", string_value(value))
    }

    /// As [`path`](Self::path) when a value is given; `None` leaves the
    /// options untouched.
    pub fn maybe_path(self, value: Option<&str>) -> (r: Self)
        ensures
            match value {
                Some(v) => r@ == self@.set("path"@, json_string_value(v@)),
                None => r@ == self@,
            },
    {
        match value {
            Some(v) => self.path(v),
            None => self,
        }
    }

    /// Set the sign-up URL linked from the sign-in flow.
    pub fn sign_up_url(self, value: &str) -> (r: Self)
        ensures
            r@ == self@.set("signUpUrl"@, json_string_value(value@)),
    {
        self.option("signUpUrl", string_value(value))
    }

    /// As [`sign_up_url`](Self::sign_up_url) when a value is given; `None` leaves the
    /// options untouched.
    pub fn maybe_sign_up_url(self, value: Option<&str>) -> (r: Self)
        ensures
            match value {
                Some(v) => r@ == self@.set("signUpUrl"@, json_string_value(v@)),
                None => r@ == self@,
            },
    {
        match value {
            Some(v) => self.sign_up_url(v),
            None => self,
        }
    }

    /// Set the waitlist URL linked from the sign-in flow.
    pub fn waitlist_url(self, value: &str) -> (r: Self)
        ensures
            r@ == self@.set("waitlistUrl"@, json_string_value(value@)),
    {
        self.option("waitlistUrl", string_value(value))
    }

    /// As [`waitlist_url`](Self::waitlist_url) when a value is given; `None` leaves the
    /// options untouched.
    pub fn maybe_waitlist_url(self, value: Option<&str>) -> (r: Self)
        ensures
            match value {
                Some(v) => r@ == self@.set("waitlistUrl"@, json_string_value(v@)),
                None => r@ == self@,
            },
    {
        match value {
            Some(v) => self.waitlist_url(v),
            None => self,
        }
    }

    /// Always redirect here after sign-in.
    pub fn force_redirect_url(self, value: &str) -> (r: Self)
        ensures
            r@ == self@.set("forceRedirectUrl"@, json_string_value(value@)),
    {
        self.option("forceRedirectUrl", string_value(value))
    }

    /// As [`force_redirect_url`](Self::force_redirect_url) when a value is given; `None` leaves the
    /// options untouched.
    pub fn maybe_force_redirect_url(self, value: Option<&str>) -> (r: Self)
        ensures
            match value {
                Some(v) => r@ == self@.set("forceRedirectUrl"@, json_string_value(v@)),
                None => r@ == self@,
            },
    {
        match value {
            Some(v) => self.force_redirect_url(v),
            None => self,
        }
    }

    /// Fallback redirect URL after sign-in.
    pub fn fallback_redirect_url(self, value: &str) -> (r: Self)
        ensures
            r@ == self@.set("fallbackRedirectUrl"@, json_string_value(value@)),
    {
        self.option("fallbackRedirectUrl", string_value(value))
    }

    /// As [`fallback_redirect_url`](Self::fallback_redirect_url) when a value is given; `None` leaves the
    /// options untouched.
    pub fn maybe_fallback_redirect_url(self, value: Option<&str>) -> (r: Self)
        ensures
            match value {
                Some(v) => r@ == self@.set("fallbackRedirectUrl"@, json_string_value(v@)),
                None => r@ == self@,
            },
    {
        match value {
            Some(v) => self.fallback_redirect_url(v),
            None => self,
        }
    }

    /// Always redirect here after sign-up from sign-in.
    pub fn sign_up_force_redirect_url(self, value: &str) -> (r: Self)
        ensures
            r@ == self@.set("signUpForceRedirectUrl"@, json_string_value(value@)),
    {
        self.option("signUpForceRedirectUrl", string_value(value))
    }

    /// As [`sign_up_force_redirect_url`](Self::sign_up_force_redirect_url) when a value is given; `None` leaves the
    /// options untouched.
    pub fn maybe_sign_up_force_redirect_url(self, value: Option<&str>) -> (r: Self)
        ensures
            match value {
                Some(v) => r@ == self@.set("signUpForceRedirectUrl"@, json_string_value(v@)),
                None => r@ == self@,
            },
    {
        match value {
            Some(v) => self.sign_up_force_redirect_url(v),
            None => self,
        }
    }

    /// Fallback redirect URL after sign-up from sign-in.
    pub fn sign_up_fallback_redirect_url(self, value: &str) -> (r: Self)
        ensures
            r@ == self@.set("signUpFallbackRedirectUrl"@, json_string_value(value@)),
    {
        self.option("signUpFallbackRedirectUrl", string_value(value))
    }

    /// As [`sign_up_fallback_redirect_url`](Self::sign_up_fallback_redirect_url) when a value is given; `None` leaves the
    /// options untouched.
    pub fn maybe_sign_up_fallback_redirect_url(self, value: Option<&str>) -> (r: Self)
        ensures
            match value {
                Some(v) => r@ == self@.set("signUpFallbackRedirectUrl"@, json_string_value(v@)),
                None => r@ == self@,
            },
    {
        match value {
            Some(v) => self.sign_up_fallback_redirect_url(v),
            None => self,
        }
    }

    /// Forward Clerk's raw `initialValues` object.
    pub fn initial_values(self, value: serde_json::Value) -> (r: Self)
        ensures
            r@ == self@.set("initialValues"@, value),
    {
        self.option("initialValues", value)
    }

    /// As [`initial_values`](Self::initial_values) when a value is given; `None` leaves the
    /// options untouched.
    pub fn maybe_initial_values(self, value: Option<serde_json::Value>) -> (r: Self)
        ensures
            match value {
                Some(v) => r@ == self@.set("initialValues"@, v),
                None => r@ == self@,
            },
    {
        match value {
            Some(v) => self.initial_values(v),
            None => self,
        }
    }

    /// Set whether sign-in attempts can transfer to sign-up when Clerk supports it.
    pub fn transferable(self, value: bool) -> (r: Self)
        ensures
            r@ == self@.set("transferable"@, json_bool_value(value)),
    {
        self.option("transferable", bool_value(value))
    }

    /// As [`transferable`](Self::transferable) when a value is given; `None` leaves the
    /// options untouched.
    pub fn maybe_transferable(self, value: Option<bool>) -> (r: Self)
        ensures
            match value {
                Some(v) => r@ == self@.set("transferable"@, json_bool_value(v)),
                None => r@ == self@,
            },
    {
        match value {
            Some(v) => self.transferable(v),
            None => self,
        }
    }

    /// Forward Clerk's raw `appearance` object.
    pub fn appearance(self, value: serde_json::Value) -> (r: Self)
        ensures
            r@ == self@.set("appearance"@, value),
    {
        self.option("appearance", value)
    }

    /// As [`appearance`](Self::appearance) when a value is given; `None` leaves the
    /// options untouched.
    pub fn maybe_appearance(self, value: Option<serde_json::Value>) -> (r: Self)
        ensures
            match value {
                Some(v) => r@ == self@.set("appearance"@, v),
                None => r@ == self@,
            },
    {
        match value {
            Some(v) => self.appearance(v),
            None => self,
        }
    }
}

impl From<SignInOptions> for serde_json::Value {
    fn from(options: SignInOptions) -> (r: serde_json::Value) {
        options.into_value()
    }
}

impl FromSpecImpl<SignInOptions> for serde_json::Value {
    open spec fn obeys_from_spec() -> bool {
        true
    }

    open spec fn from_spec(options: SignInOptions) -> serde_json::Value {
        options@.json()
    }
}

impl<'a> From<&'a SignInOptions> for serde_json::Value {
    fn from(options: &'a SignInOptions) -> (r: serde_json::Value) {
        options.inner.to_value()
    }
}

impl<'a> FromSpecImpl<&'a SignInOptions> for serde_json::Value {
    open spec fn obeys_from_spec() -> bool {
        true
    }

    open spec fn from_spec(options: &'a SignInOptions) -> serde_json::Value {
        options@.json()
    }
}

/// A raw JSON value is accepted for any builder, so the escape hatch for
/// options this crate has not named keeps working.
impl From<serde_json::Value> for SignInOptions {
    fn from(value: serde_json::Value) -> (r: Self) {
        SignInOptions { inner: JsonOptions::from_value(value) }
    }
}

impl FromSpecImpl<serde_json::Value> for SignInOptions {
    open spec fn obeys_from_spec() -> bool {
        true
    }

    closed spec fn from_spec(value: serde_json::Value) -> SignInOptions {
        SignInOptions { inner: JsonOptions::from_value_spec(value) }
    }
}

/// Options for sign-up UI and modal flows.
#[derive(Debug, PartialEq, Eq)]
pub struct SignUpOptions {
    inner: JsonOptions,
}

impl View for SignUpOptions {
    type V = OptionsView;

    closed spec fn view(&self) -> OptionsView {
        self.inner@
    }
}

impl Default for SignUpOptions {
    fn default() -> (r: Self)
        ensures
            r@ == OptionsView::empty(),
    {
        SignUpOptions { inner: JsonOptions::new() }
    }
}

impl Clone for SignUpOptions {
    fn clone(&self) -> (r: Self)
        ensures
            r@ == self@,
    {
        SignUpOptions { inner: self.inner.clone() }
    }
}

impl SignUpOptions {
    /// Start with an empty Clerk options object.
    pub fn new() -> (r: Self)
        ensures
            r@ == OptionsView::empty(),
    {
        SignUpOptions { inner: JsonOptions::new() }
    }

    /// Wrap an already-built JSON value.
    pub fn from_value(value: serde_json::Value) -> (r: Self)
        ensures
            r@ == OptionsView::Raw(value),
    {
        SignUpOptions { inner: JsonOptions::from_value(value) }
    }

    /// Set a raw clerk-js option by its JavaScript key. If the wrapped
    /// value is not a JSON object, it is replaced with an empty object
    /// before the key is set.
    pub fn option(self, key: &str, value: serde_json::Value) -> (r: Self)
        ensures
            r@ == self@.set(key@, value),
    {
        SignUpOptions { inner: self.inner.option(key, value) }
    }

    /// Convert into the raw JSON value passed to clerk-js.
    pub fn into_value(self) -> (r: serde_json::Value)
        ensures
            r == self@.json(),
    {
        self.inner.into_value()
    }

    /// Set embedded routing mode, for example `"path"` or `"hash"`.
    pub fn routing(self, value: Routing) -> (r: Self)
        ensures
            r@ == self@.set("routing"@, json_string_value(routing_text(value))),
    {
        self.option("routing", string_value(value.as_str()))
    }

    /// As [`routing`](Self::routing) when a value is given; `None` leaves the
    /// options untouched.
    pub fn maybe_routing(self, value: Option<Routing>) -> (r: Self)
        ensures
            match value {
                Some(v) => r@ == self@.set("routing"@, json_string_value(routing_text(v))),
                None => r@ == self@,
            },
    {
        match value {
            Some(v) => self.routing(v),
            None => self,
        }
    }

    /// Set the path used by embedded routing.
    pub fn path(self, value: &str) -> (r: Self)
        ensures
            r@ == self@.set("path"@, json_string_value(value@)),
    {
        self.option("path", string_value(value))
    }

    /// As [`path`](Self::path) when a value is given; `None` leaves the
    /// options untouched.
    pub fn maybe_path(self, value: Option<&str>) -> (r: Self)
        ensures
            match value {
                Some(v) => r@ == self@.set("path"@, json_string_value(v@)),
                None => r@ == self@,
            },
    {
        match value {
            Some(v) => self.path(v),
            None => self,
        }
    }

    /// Set the sign-in URL linked from the sign-up flow.
    pub fn sign_in_url(self, value: &str) -> (r: Self)
        ensures
            r@ == self@.set("signInUrl"@, json_string_value(value@)),
    {
        self.option("signInUrl", string_value(value))
    }

    /// As [`sign_in_url`](Self::sign_in_url) when a value is given; `None` leaves the
    /// options untouched.
    pub fn maybe_sign_in_url(self, value: Option<&str>) -> (r: Self)
        ensures
            match value {
                Some(v) => r@ == self@.set("signInUrl"@, json_string_value(v@)),
                None => r@ == self@,
            },
    {
        match value {
            Some(v) => self.sign_in_url(v),
            None => self,
        }
    }

    /// Set the waitlist URL linked from the sign-up flow.
    pub fn waitlist_url(self, value: &str) -> (r: Self)
        ensures
            r@ == self@.set("waitlistUrl"@, json_string_value(value@)),
    {
        self.option("waitlistUrl", string_value(value))
    }

    /// As [`waitlist_url`](Self::waitlist_url) when a value is given; `None` leaves the
    /// options untouched.
    pub fn maybe_waitlist_url(self, value: Option<&str>) -> (r: Self)
        ensures
            match value {
                Some(v) => r@ == self@.set("waitlistUrl"@, json_string_value(v@)),
                None => r@ == self@,
            },
    {
        match value {
            Some(v) => self.waitlist_url(v),
            None => self,
        }
    }

    /// Always redirect here after sign-up.
    pub fn force_redirect_url(self, value: &str) -> (r: Self)
        ensures
            r@ == self@.set("forceRedirectUrl"@, json_string_value(value@)),
    {
        self.option("forceRedirectUrl", string_value(value))
    }

    /// As [`force_redirect_url`](Self::force_redirect_url) when a value is given; `None` leaves the
    /// options untouched.
    pub fn maybe_force_redirect_url(self, value: Option<&str>) -> (r: Self)
        ensures
            match value {
                Some(v) => r@ == self@.set("forceRedirectUrl"@, json_string_value(v@)),
                None => r@ == self@,
            },
    {
        match value {
            Some(v) => self.force_redirect_url(v),
            None => self,
        }
    }

    /// Fallback redirect URL after sign-up.
    pub fn fallback_redirect_url(self, value: &str) -> (r: Self)
        ensures
            r@ == self@.set("fallbackRedirectUrl"@, json_string_value(value@)),
    {
        self.option("fallbackRedirectUrl", string_value(value))
    }

    /// As [`fallback_redirect_url`](Self::fallback_redirect_url) when a value is given; `None` leaves the
    /// options untouched.
    pub fn maybe_fallback_redirect_url(self, value: Option<&str>) -> (r: Self)
        ensures
            match value {
                Some(v) => r@ == self@.set("fallbackRedirectUrl"@, json_string_value(v@)),
                None => r@ == self@,
            },
    {
        match value {
            Some(v) => self.fallback_redirect_url(v),
            None => self,
        }
    }

    /// Always redirect here after sign-in from sign-up.
    pub fn sign_in_force_redirect_url(self, value: &str) -> (r: Self)
        ensures
            r@ == self@.set("signInForceRedirectUrl"@, json_string_value(value@)),
    {
        self.option("signInForceRedirectUrl", string_value(value))
    }

    /// As [`sign_in_force_redirect_url`](Self::sign_in_force_redirect_url) when a value is given; `None` leaves the
    /// options untouched.
    pub fn maybe_sign_in_force_redirect_url(self, value: Option<&str>) -> (r: Self)
        ensures
            match value {
                Some(v) => r@ == self@.set("signInForceRedirectUrl"@, json_string_value(v@)),
                None => r@ == self@,
            },
    {
        match value {
            Some(v) => self.sign_in_force_redirect_url(v),
            None => self,
        }
    }

    /// Fallback redirect URL after sign-in from sign-up.
    pub fn sign_in_fallback_redirect_url(self, value: &str) -> (r: Self)
        ensures
            r@ == self@.set("signInFallbackRedirectUrl"@, json_string_value(value@)),
    {
        self.option("signInFallbackRedirectUrl", string_value(value))
    }

    /// As [`sign_in_fallback_redirect_url`](Self::sign_in_fallback_redirect_url) when a value is given; `None` leaves the
    /// options untouched.
    pub fn maybe_sign_in_fallback_redirect_url(self, value: Option<&str>) -> (r: Self)
        ensures
            match value {
                Some(v) => r@ == self@.set("signInFallbackRedirectUrl"@, json_string_value(v@)),
                None => r@ == self@,
            },
    {
        match value {
            Some(v) => self.sign_in_fallback_redirect_url(v),
            None => self,
        }
    }

    /// Forward Clerk's raw `initialValues` object.
    pub fn initial_values(self, value: serde_json::Value) -> (r: Self)
        ensures
            r@ == self@.set("initialValues"@, value),
    {
        self.option("initialValues", value)
    }

    /// As [`initial_values`](Self::initial_values) when a value is given; `None` leaves the
    /// options untouched.
    pub fn maybe_initial_values(self, value: Option<serde_json::Value>) -> (r: Self)
        ensures
            match value {
                Some(v) => r@ == self@.set("initialValues"@, v),
                None => r@ == self@,
            },
    {
        match value {
            Some(v) => self.initial_values(v),
            None => self,
        }
    }

    /// Forward Clerk's raw `appearance` object.
    pub fn appearance(self, value: serde_json::Value) -> (r: Self)
        ensures
            r@ == self@.set("appearance"@, value),
    {
        self.option("appearance", value)
    }

    /// As [`appearance`](Self::appearance) when a value is given; `None` leaves the
    /// options untouched.
    pub fn maybe_appearance(self, value: Option<serde_json::Value>) -> (r: Self)
        ensures
            match value {
                Some(v) => r@ == self@.set("appearance"@, v),
                None => r@ == self@,
            },
    {
        match value {
            Some(v) => self.appearance(v),
            None => self,
        }
    }
}

impl From<SignUpOptions> for serde_json::Value {
    fn from(options: SignUpOptions) -> (r: serde_json::Value) {
        options.into_value()
    }
}

impl FromSpecImpl<SignUpOptions> for serde_json::Value {
    open spec fn obeys_from_spec() -> bool {
        true
    }

    open spec fn from_spec(options: SignUpOptions) -> serde_json::Value {
        options@.json()
    }
}

impl<'a> From<&'a SignUpOptions> for serde_json::Value {
    fn from(options: &'a SignUpOptions) -> (r: serde_json::Value) {
        options.inner.to_value()
    }
}

impl<'a> FromSpecImpl<&'a SignUpOptions> for serde_json::Value {
    open spec fn obeys_from_spec() -> bool {
        true
    }

    open spec fn from_spec(options: &'a SignUpOptions) -> serde_json::Value {
        options@.json()
    }
}

/// A raw JSON value is accepted for any builder, so the escape hatch for
/// options this crate has not named keeps working.
impl From<serde_json::Value> for SignUpOptions {
    fn from(value: serde_json::Value) -> (r: Self) {
        SignUpOptions { inner: JsonOptions::from_value(value) }
    }
}

impl FromSpecImpl<serde_json::Value> for SignUpOptions {
    open spec fn obeys_from_spec() -> bool {
        true
    }

    closed spec fn from_spec(value: serde_json::Value) -> SignUpOptions {
        SignUpOptions { inner: JsonOptions::from_value_spec(value) }
    }
}

/// Options for the Clerk user button.
#[derive(Debug, PartialEq, Eq)]
pub struct UserButtonOptions {
    inner: JsonOptions,
}

impl View for UserButtonOptions {
    type V = OptionsView;

    closed spec fn view(&self) -> OptionsView {
        self.inner@
    }
}

impl Default for UserButtonOptions {
    fn default() -> (r: Self)
        ensures
            r@ == OptionsView::empty(),
    {
        UserButtonOptions { inner: JsonOptions::new() }
    }
}

impl Clone for UserButtonOptions {
    fn clone(&self) -> (r: Self)
        ensures
            r@ == self@,
    {
        UserButtonOptions { inner: self.inner.clone() }
    }
}

impl UserButtonOptions {
    /// Start with an empty Clerk options object.
    pub fn new() -> (r: Self)
        ensures
            r@ == OptionsView::empty(),
    {
        UserButtonOptions { inner: JsonOptions::new() }
    }

    /// Wrap an already-built JSON value.
    pub fn from_value(value: serde_json::Value) -> (r: Self)
        ensures
            r@ == OptionsView::Raw(value),
    {
        UserButtonOptions { inner: JsonOptions::from_value(value) }
    }

    /// Set a raw clerk-js option by its JavaScript key. If the wrapped
    /// value is not a JSON object, it is replaced with an empty object
    /// before the key is set.
    pub fn option(self, key: &str, value: serde_json::Value) -> (r: Self)
        ensures
            r@ == self@.set(key@, value),
    {
        UserButtonOptions { inner: self.inner.option(key, value) }
    }

    /// Convert into the raw JSON value passed to clerk-js.
    pub fn into_value(self) -> (r: serde_json::Value)
        ensures
            r == self@.json(),
    {
        self.inner.into_value()
    }

    /// Set the URL Clerk should use after sign-out.
    pub fn after_sign_out_url(self, value: &str) -> (r: Self)
        ensures
            r@ == self@.set("afterSignOutUrl"@, json_string_value(value@)),
    {
        self.option("afterSignOutUrl", string_value(value))
    }

    /// As [`after_sign_out_url`](Self::after_sign_out_url) when a value is given; `None` leaves the
    /// options untouched.
    pub fn maybe_after_sign_out_url(self, value: Option<&str>) -> (r: Self)
        ensures
            match value {
                Some(v) => r@ == self@.set("afterSignOutUrl"@, json_string_value(v@)),
                None => r@ == self@,
            },
    {
        match value {
            Some(v) => self.after_sign_out_url(v),
            None => self,
        }
    }

    /// Set the URL Clerk should use after switching sessions in multi-session apps.
    pub fn after_switch_session_url(self, value: &str) -> (r: Self)
        ensures
            r@ == self@.set("afterSwitchSessionUrl"@, json_string_value(value@)),
    {
        self.option("afterSwitchSessionUrl", string_value(value))
    }

    /// As [`after_switch_session_url`](Self::after_switch_session_url) when a value is given; `None` leaves the
    /// options untouched.
    pub fn maybe_after_switch_session_url(self, value: Option<&str>) -> (r: Self)
        ensures
            match value {
                Some(v) => r@ == self@.set("afterSwitchSessionUrl"@, json_string_value(v@)),
                None => r@ == self@,
            },
    {
        match value {
            Some(v) => self.after_switch_session_url(v),
            None => self,
        }
    }

    /// Set the URL Clerk should use when adding another account.
    pub fn sign_in_url(self, value: &str) -> (r: Self)
        ensures
            r@ == self@.set("signInUrl"@, json_string_value(value@)),
    {
        self.option("signInUrl", string_value(value))
    }

    /// As [`sign_in_url`](Self::sign_in_url) when a value is given; `None` leaves the
    /// options untouched.
    pub fn maybe_sign_in_url(self, value: Option<&str>) -> (r: Self)
        ensures
            match value {
                Some(v) => r@ == self@.set("signInUrl"@, json_string_value(v@)),
                None => r@ == self@,
            },
    {
        match value {
            Some(v) => self.sign_in_url(v),
            None => self,
        }
    }

    /// Show the user's name next to the avatar when Clerk supports it.
    pub fn show_name(self, value: bool) -> (r: Self)
        ensures
            r@ == self@.set("showName"@, json_bool_value(value)),
    {
        self.option("showName", bool_value(value))
    }

    /// As [`show_name`](Self::show_name) when a value is given; `None` leaves the
    /// options untouched.
    pub fn maybe_show_name(self, value: Option<bool>) -> (r: Self)
        ensures
            match value {
                Some(v) => r@ == self@.set("showName"@, json_bool_value(v)),
                None => r@ == self@,
            },
    {
        match value {
            Some(v) => self.show_name(v),
            None => self,
        }
    }

    /// Open the user button menu by default on first render.
    pub fn default_open(self, value: bool) -> (r: Self)
        ensures
            r@ == self@.set("defaultOpen"@, json_bool_value(value)),
    {
        self.option("defaultOpen", bool_value(value))
    }

    /// As [`default_open`](Self::default_open) when a value is given; `None` leaves the
    /// options untouched.
    pub fn maybe_default_open(self, value: Option<bool>) -> (r: Self)
        ensures
            match value {
                Some(v) => r@ == self@.set("defaultOpen"@, json_bool_value(v)),
                None => r@ == self@,
            },
    {
        match value {
            Some(v) => self.default_open(v),
            None => self,
        }
    }

    /// Set the user profile mode, for example `"modal"` or `"navigation"`.
    pub fn user_profile_mode(self, value: UserProfileMode) -> (r: Self)
        ensures
            r@ == self@.set("userProfileMode"@, json_string_value(user_profile_mode_text(value))),
    {
        self.option("userProfileMode", string_value(value.as_str()))
    }

    /// As [`user_profile_mode`](Self::user_profile_mode) when a value is given; `None` leaves the
    /// options untouched.
    pub fn maybe_user_profile_mode(self, value: Option<UserProfileMode>) -> (r: Self)
        ensures
            match value {
                Some(v) => r@ == self@.set("userProfileMode"@, json_string_value(user_profile_mode_text(v))),
                None => r@ == self@,
            },
    {
        match value {
            Some(v) => self.user_profile_mode(v),
            None => self,
        }
    }

    /// Set the user profile URL for navigation mode.
    pub fn user_profile_url(self, value: &str) -> (r: Self)
        ensures
            r@ == self@.set("userProfileUrl"@, json_string_value(value@)),
    {
        self.option("userProfileUrl", string_value(value))
    }

    /// As [`user_profile_url`](Self::user_profile_url) when a value is given; `None` leaves the
    /// options untouched.
    pub fn maybe_user_profile_url(self, value: Option<&str>) -> (r: Self)
        ensures
            match value {
                Some(v) => r@ == self@.set("userProfileUrl"@, json_string_value(v@)),
                None => r@ == self@,
            },
    {
        match value {
            Some(v) => self.user_profile_url(v),
            None => self,
        }
    }

    /// Forward options to the underlying `UserProfile` component.
    pub fn user_profile_props(self, value: serde_json::Value) -> (r: Self)
        ensures
            r@ == self@.set("userProfileProps"@, value),
    {
        self.option("userProfileProps", value)
    }

    /// As [`user_profile_props`](Self::user_profile_props) when a value is given; `None` leaves the
    /// options untouched.
    pub fn maybe_user_profile_props(self, value: Option<serde_json::Value>) -> (r: Self)
        ensures
            match value {
                Some(v) => r@ == self@.set("userProfileProps"@, v),
                None => r@ == self@,
            },
    {
        match value {
            Some(v) => self.user_profile_props(v),
            None => self,
        }
    }

    /// Forward Clerk's raw `appearance` object.
    pub fn appearance(self, value: serde_json::Value) -> (r: Self)
        ensures
            r@ == self@.set("appearance"@, value),
    {
        self.option("appearance", value)
    }

    /// As [`appearance`](Self::appearance) when a value is given; `None` leaves the
    /// options untouched.
    pub fn maybe_appearance(self, value: Option<serde_json::Value>) -> (r: Self)
        ensures
            match value {
                Some(v) => r@ == self@.set("appearance"@, v),
                None => r@ == self@,
            },
    {
        match value {
            Some(v) => self.appearance(v),
            None => self,
        }
    }
}

impl From<UserButtonOptions> for serde_json::Value {
    fn from(options: UserButtonOptions) -> (r: serde_json::Value) {
        options.into_value()
    }
}

impl FromSpecImpl<UserButtonOptions> for serde_json::Value {
    open spec fn obeys_from_spec() -> bool {
        true
    }

    open spec fn from_spec(options: UserButtonOptions) -> serde_json::Value {
        options@.json()
    }
}

impl<'a> From<&'a UserButtonOptions> for serde_json::Value {
    fn from(options: &'a UserButtonOptions) -> (r: serde_json::Value) {
        options.inner.to_value()
    }
}

impl<'a> FromSpecImpl<&'a UserButtonOptions> for serde_json::Value {
    open spec fn obeys_from_spec() -> bool {
        true
    }

    open spec fn from_spec(options: &'a UserButtonOptions) -> serde_json::Value {
        options@.json()
    }
}

/// A raw JSON value is accepted for any builder, so the escape hatch for
/// options this crate has not named keeps working.
impl From<serde_json::Value> for UserButtonOptions {
    fn from(value: serde_json::Value) -> (r: Self) {
        UserButtonOptions { inner: JsonOptions::from_value(value) }
    }
}

impl FromSpecImpl<serde_json::Value> for UserButtonOptions {
    open spec fn obeys_from_spec() -> bool {
        true
    }

    closed spec fn from_spec(value: serde_json::Value) -> UserButtonOptions {
        UserButtonOptions { inner: JsonOptions::from_value_spec(value) }
    }
}

/// Options for the Clerk user profile UI.
#[derive(Debug, PartialEq, Eq)]
pub struct UserProfileOptions {
    inner: JsonOptions,
}

impl View for UserProfileOptions {
    type V = OptionsView;

    closed spec fn view(&self) -> OptionsView {
        self.inner@
    }
}

impl Default for UserProfileOptions {
    fn default() -> (r: Self)
        ensures
            r@ == OptionsView::empty(),
    {
        UserProfileOptions { inner: JsonOptions::new() }
    }
}

impl Clone for UserProfileOptions {
    fn clone(&self) -> (r: Self)
        ensures
            r@ == self@,
    {
        UserProfileOptions { inner: self.inner.clone() }
    }
}

impl UserProfileOptions {
    /// Start with an empty Clerk options object.
    pub fn new() -> (r: Self)
        ensures
            r@ == OptionsView::empty(),
    {
        UserProfileOptions { inner: JsonOptions::new() }
    }

    /// Wrap an already-built JSON value.
    pub fn from_value(value: serde_json::Value) -> (r: Self)
        ensures
            r@ == OptionsView::Raw(value),
    {
        UserProfileOptions { inner: JsonOptions::from_value(value) }
    }

    /// Set a raw clerk-js option by its JavaScript key. If the wrapped
    /// value is not a JSON object, it is replaced with an empty object
    /// before the key is set.
    pub fn option(self, key: &str, value: serde_json::Value) -> (r: Self)
        ensures
            r@ == self@.set(key@, value),
    {
        UserProfileOptions { inner: self.inner.option(key, value) }
    }

    /// Convert into the raw JSON value passed to clerk-js.
    pub fn into_value(self) -> (r: serde_json::Value)
        ensures
            r == self@.json(),
    {
        self.inner.into_value()
    }

    /// Set embedded routing mode, for example `"path"` or `"hash"`.
    pub fn routing(self, value: Routing) -> (r: Self)
        ensures
            r@ == self@.set("routing"@, json_string_value(routing_text(value))),
    {
        self.option("routing", string_value(value.as_str()))
    }

    /// As [`routing`](Self::routing) when a value is given; `None` leaves the
    /// options untouched.
    pub fn maybe_routing(self, value: Option<Routing>) -> (r: Self)
        ensures
            match value {
                Some(v) => r@ == self@.set("routing"@, json_string_value(routing_text(v))),
                None => r@ == self@,
            },
    {
        match value {
            Some(v) => self.routing(v),
            None => self,
        }
    }

    /// Set the path used by embedded routing.
    pub fn path(self, value: &str) -> (r: Self)
        ensures
            r@ == self@.set("path"@, json_string_value(value@)),
    {
        self.option("path", string_value(value))
    }

    /// As [`path`](Self::path) when a value is given; `None` leaves the
    /// options untouched.
    pub fn maybe_path(self, value: Option<&str>) -> (r: Self)
        ensures
            match value {
                Some(v) => r@ == self@.set("path"@, json_string_value(v@)),
                None => r@ == self@,
            },
    {
        match value {
            Some(v) => self.path(v),
            None => self,
        }
    }

    /// Forward Clerk's raw `appearance` object.
    pub fn appearance(self, value: serde_json::Value) -> (r: Self)
        ensures
            r@ == self@.set("appearance"@, value),
    {
        self.option("appearance", value)
    }

    /// As [`appearance`](Self::appearance) when a value is given; `None` leaves the
    /// options untouched.
    pub fn maybe_appearance(self, value: Option<serde_json::Value>) -> (r: Self)
        ensures
            match value {
                Some(v) => r@ == self@.set("appearance"@, v),
                None => r@ == self@,
            },
    {
        match value {
            Some(v) => self.appearance(v),
            None => self,
        }
    }
}

impl From<UserProfileOptions> for serde_json::Value {
    fn from(options: UserProfileOptions) -> (r: serde_json::Value) {
        options.into_value()
    }
}

impl FromSpecImpl<UserProfileOptions> for serde_json::Value {
    open spec fn obeys_from_spec() -> bool {
        true
    }

    open spec fn from_spec(options: UserProfileOptions) -> serde_json::Value {
        options@.json()
    }
}

impl<'a> From<&'a UserProfileOptions> for serde_json::Value {
    fn from(options: &'a UserProfileOptions) -> (r: serde_json::Value) {
        options.inner.to_value()
    }
}

impl<'a> FromSpecImpl<&'a UserProfileOptions> for serde_json::Value {
    open spec fn obeys_from_spec() -> bool {
        true
    }

    open spec fn from_spec(options: &'a UserProfileOptions) -> serde_json::Value {
        options@.json()
    }
}

/// A raw JSON value is accepted for any builder, so the escape hatch for
/// options this crate has not named keeps working.
impl From<serde_json::Value> for UserProfileOptions {
    fn from(value: serde_json::Value) -> (r: Self) {
        UserProfileOptions { inner: JsonOptions::from_value(value) }
    }
}

impl FromSpecImpl<serde_json::Value> for UserProfileOptions {
    open spec fn obeys_from_spec() -> bool {
        true
    }

    closed spec fn from_spec(value: serde_json::Value) -> UserProfileOptions {
        UserProfileOptions { inner: JsonOptions::from_value_spec(value) }
    }
}

/// Options for the Clerk create-organization UI.
#[derive(Debug, PartialEq, Eq)]
pub struct CreateOrganizationOptions {
    inner: JsonOptions,
}

impl View for CreateOrganizationOptions {
    type V = OptionsView;

    closed spec fn view(&self) -> OptionsView {
        self.inner@
    }
}

impl Default for CreateOrganizationOptions {
    fn default() -> (r: Self)
        ensures
            r@ == OptionsView::empty(),
    {
        CreateOrganizationOptions { inner: JsonOptions::new() }
    }
}

impl Clone for CreateOrganizationOptions {
    fn clone(&self) -> (r: Self)
        ensures
            r@ == self@,
    {
        CreateOrganizationOptions { inner: self.inner.clone() }
    }
}

impl CreateOrganizationOptions {
    /// Start with an empty Clerk options object.
    pub fn new() -> (r: Self)
        ensures
            r@ == OptionsView::empty(),
    {
        CreateOrganizationOptions { inner: JsonOptions::new() }
    }

    /// Wrap an already-built JSON value.
    pub fn from_value(value: serde_json::Value) -> (r: Self)
        ensures
            r@ == OptionsView::Raw(value),
    {
        CreateOrganizationOptions { inner: JsonOptions::from_value(value) }
    }

    /// Set a raw clerk-js option by its JavaScript key. If the wrapped
    /// value is not a JSON object, it is replaced with an empty object
    /// before the key is set.
    pub fn option(self, key: &str, value: serde_json::Value) -> (r: Self)
        ensures
            r@ == self@.set(key@, value),
    {
        CreateOrganizationOptions { inner: self.inner.option(key, value) }
    }

    /// Convert into the raw JSON value passed to clerk-js.
    pub fn into_value(self) -> (r: serde_json::Value)
        ensures
            r == self@.json(),
    {
        self.inner.into_value()
    }

    /// Set embedded routing mode.
    pub fn routing(self, value: Routing) -> (r: Self)
        ensures
            r@ == self@.set("routing"@, json_string_value(routing_text(value))),
    {
        self.option("routing", string_value(value.as_str()))
    }

    /// As [`routing`](Self::routing) when a value is given; `None` leaves the
    /// options untouched.
    pub fn maybe_routing(self, value: Option<Routing>) -> (r: Self)
        ensures
            match value {
                Some(v) => r@ == self@.set("routing"@, json_string_value(routing_text(v))),
                None => r@ == self@,
            },
    {
        match value {
            Some(v) => self.routing(v),
            None => self,
        }
    }

    /// Set the path used by embedded routing.
    pub fn path(self, value: &str) -> (r: Self)
        ensures
            r@ == self@.set("path"@, json_string_value(value@)),
    {
        self.option("path", string_value(value))
    }

    /// As [`path`](Self::path) when a value is given; `None` leaves the
    /// options untouched.
    pub fn maybe_path(self, value: Option<&str>) -> (r: Self)
        ensures
            match value {
                Some(v) => r@ == self@.set("path"@, json_string_value(v@)),
                None => r@ == self@,
            },
    {
        match value {
            Some(v) => self.path(v),
            None => self,
        }
    }

    /// Set where Clerk redirects after creating an organization.
    pub fn after_create_organization_url(self, value: &str) -> (r: Self)
        ensures
            r@ == self@.set("afterCreateOrganizationUrl"@, json_string_value(value@)),
    {
        self.option("afterCreateOrganizationUrl", string_value(value))
    }

    /// As [`after_create_organization_url`](Self::after_create_organization_url) when a value is given; `None` leaves the
    /// options untouched.
    pub fn maybe_after_create_organization_url(self, value: Option<&str>) -> (r: Self)
        ensures
            match value {
                Some(v) => r@ == self@.set("afterCreateOrganizationUrl"@, json_string_value(v@)),
                None => r@ == self@,
            },
    {
        match value {
            Some(v) => self.after_create_organization_url(v),
            None => self,
        }
    }

    /// Forward Clerk's raw `appearance` object.
    pub fn appearance(self, value: serde_json::Value) -> (r: Self)
        ensures
            r@ == self@.set("appearance"@, value),
    {
        self.option("appearance", value)
    }

    /// As [`appearance`](Self::appearance) when a value is given; `None` leaves the
    /// options untouched.
    pub fn maybe_appearance(self, value: Option<serde_json::Value>) -> (r: Self)
        ensures
            match value {
                Some(v) => r@ == self@.set("appearance"@, v),
                None => r@ == self@,
            },
    {
        match value {
            Some(v) => self.appearance(v),
            None => self,
        }
    }
}

impl From<CreateOrganizationOptions> for serde_json::Value {
    fn from(options: CreateOrganizationOptions) -> (r: serde_json::Value) {
        options.into_value()
    }
}

impl FromSpecImpl<CreateOrganizationOptions> for serde_json::Value {
    open spec fn obeys_from_spec() -> bool {
        true
    }

    open spec fn from_spec(options: CreateOrganizationOptions) -> serde_json::Value {
        options@.json()
    }
}

impl<'a> From<&'a CreateOrganizationOptions> for serde_json::Value {
    fn from(options: &'a CreateOrganizationOptions) -> (r: serde_json::Value) {
        options.inner.to_value()
    }
}

impl<'a> FromSpecImpl<&'a CreateOrganizationOptions> for serde_json::Value {
    open spec fn obeys_from_spec() -> bool {
        true
    }

    open spec fn from_spec(options: &'a CreateOrganizationOptions) -> serde_json::Value {
        options@.json()
    }
}

/// A raw JSON value is accepted for any builder, so the escape hatch for
/// options this crate has not named keeps working.
impl From<serde_json::Value> for CreateOrganizationOptions {
    fn from(value: serde_json::Value) -> (r: Self) {
        CreateOrganizationOptions { inner: JsonOptions::from_value(value) }
    }
}

impl FromSpecImpl<serde_json::Value> for CreateOrganizationOptions {
    open spec fn obeys_from_spec() -> bool {
        true
    }

    closed spec fn from_spec(value: serde_json::Value) -> CreateOrganizationOptions {
        CreateOrganizationOptions { inner: JsonOptions::from_value_spec(value) }
    }
}

/// Options for the Clerk organization profile UI.
#[derive(Debug, PartialEq, Eq)]
pub struct OrganizationProfileOptions {
    inner: JsonOptions,
}

impl View for OrganizationProfileOptions {
    type V = OptionsView;

    closed spec fn view(&self) -> OptionsView {
        self.inner@
    }
}

impl Default for OrganizationProfileOptions {
    fn default() -> (r: Self)
        ensures
            r@ == OptionsView::empty(),
    {
        OrganizationProfileOptions { inner: JsonOptions::new() }
    }
}

impl Clone for OrganizationProfileOptions {
    fn clone(&self) -> (r: Self)
        ensures
            r@ == self@,
    {
        OrganizationProfileOptions { inner: self.inner.clone() }
    }
}

impl OrganizationProfileOptions {
    /// Start with an empty Clerk options object.
    pub fn new() -> (r: Self)
        ensures
            r@ == OptionsView::empty(),
    {
        OrganizationProfileOptions { inner: JsonOptions::new() }
    }

    /// Wrap an already-built JSON value.
    pub fn from_value(value: serde_json::Value) -> (r: Self)
        ensures
            r@ == OptionsView::Raw(value),
    {
        OrganizationProfileOptions { inner: JsonOptions::from_value(value) }
    }

    /// Set a raw clerk-js option by its JavaScript key. If the wrapped
    /// value is not a JSON object, it is replaced with an empty object
    /// before the key is set.
    pub fn option(self, key: &str, value: serde_json::Value) -> (r: Self)
        ensures
            r@ == self@.set(key@, value),
    {
        OrganizationProfileOptions { inner: self.inner.option(key, value) }
    }

    /// Convert into the raw JSON value passed to clerk-js.
    pub fn into_value(self) -> (r: serde_json::Value)
        ensures
            r == self@.json(),
    {
        self.inner.into_value()
    }

    /// Set embedded routing mode.
    pub fn routing(self, value: Routing) -> (r: Self)
        ensures
            r@ == self@.set("routing"@, json_string_value(routing_text(value))),
    {
        self.option("routing", string_value(value.as_str()))
    }

    /// As [`routing`](Self::routing) when a value is given; `None` leaves the
    /// options untouched.
    pub fn maybe_routing(self, value: Option<Routing>) -> (r: Self)
        ensures
            match value {
                Some(v) => r@ == self@.set("routing"@, json_string_value(routing_text(v))),
                None => r@ == self@,
            },
    {
        match value {
            Some(v) => self.routing(v),
            None => self,
        }
    }

    /// Set the path used by embedded routing.
    pub fn path(self, value: &str) -> (r: Self)
        ensures
            r@ == self@.set("path"@, json_string_value(value@)),
    {
        self.option("path", string_value(value))
    }

    /// As [`path`](Self::path) when a value is given; `None` leaves the
    /// options untouched.
    pub fn maybe_path(self, value: Option<&str>) -> (r: Self)
        ensures
            match value {
                Some(v) => r@ == self@.set("path"@, json_string_value(v@)),
                None => r@ == self@,
            },
    {
        match value {
            Some(v) => self.path(v),
            None => self,
        }
    }

    /// Forward Clerk's raw `appearance` object.
    pub fn appearance(self, value: serde_json::Value) -> (r: Self)
        ensures
            r@ == self@.set("appearance"@, value),
    {
        self.option("appearance", value)
    }

    /// As [`appearance`](Self::appearance) when a value is given; `None` leaves the
    /// options untouched.
    pub fn maybe_appearance(self, value: Option<serde_json::Value>) -> (r: Self)
        ensures
            match value {
                Some(v) => r@ == self@.set("appearance"@, v),
                None => r@ == self@,
            },
    {
        match value {
            Some(v) => self.appearance(v),
            None => self,
        }
    }
}

impl From<OrganizationProfileOptions> for serde_json::Value {
    fn from(options: OrganizationProfileOptions) -> (r: serde_json::Value) {
        options.into_value()
    }
}

impl FromSpecImpl<OrganizationProfileOptions> for serde_json::Value {
    open spec fn obeys_from_spec() -> bool {
        true
    }

    open spec fn from_spec(options: OrganizationProfileOptions) -> serde_json::Value {
        options@.json()
    }
}

impl<'a> From<&'a OrganizationProfileOptions> for serde_json::Value {
    fn from(options: &'a OrganizationProfileOptions) -> (r: serde_json::Value) {
        options.inner.to_value()
    }
}

impl<'a> FromSpecImpl<&'a OrganizationProfileOptions> for serde_json::Value {
    open spec fn obeys_from_spec() -> bool {
        true
    }

    open spec fn from_spec(options: &'a OrganizationProfileOptions) -> serde_json::Value {
        options@.json()
    }
}

/// A raw JSON value is accepted for any builder, so the escape hatch for
/// options this crate has not named keeps working.
impl From<serde_json::Value> for OrganizationProfileOptions {
    fn from(value: serde_json::Value) -> (r: Self) {
        OrganizationProfileOptions { inner: JsonOptions::from_value(value) }
    }
}

impl FromSpecImpl<serde_json::Value> for OrganizationProfileOptions {
    open spec fn obeys_from_spec() -> bool {
        true
    }

    closed spec fn from_spec(value: serde_json::Value) -> OrganizationProfileOptions {
        OrganizationProfileOptions { inner: JsonOptions::from_value_spec(value) }
    }
}

/// Options for the Clerk organization switcher UI.
#[derive(Debug, PartialEq, Eq)]
pub struct OrganizationSwitcherOptions {
    inner: JsonOptions,
}

impl View for OrganizationSwitcherOptions {
    type V = OptionsView;

    closed spec fn view(&self) -> OptionsView {
        self.inner@
    }
}

impl Default for OrganizationSwitcherOptions {
    fn default() -> (r: Self)
        ensures
            r@ == OptionsView::empty(),
    {
        OrganizationSwitcherOptions { inner: JsonOptions::new() }
    }
}

impl Clone for OrganizationSwitcherOptions {
    fn clone(&self) -> (r: Self)
        ensures
            r@ == self@,
    {
        OrganizationSwitcherOptions { inner: self.inner.clone() }
    }
}

impl OrganizationSwitcherOptions {
    /// Start with an empty Clerk options object.
    pub fn new() -> (r: Self)
        ensures
            r@ == OptionsView::empty(),
    {
        OrganizationSwitcherOptions { inner: JsonOptions::new() }
    }

    /// Wrap an already-built JSON value.
    pub fn from_value(value: serde_json::Value) -> (r: Self)
        ensures
            r@ == OptionsView::Raw(value),
    {
        OrganizationSwitcherOptions { inner: JsonOptions::from_value(value) }
    }

    /// Set a raw clerk-js option by its JavaScript key. If the wrapped
    /// value is not a JSON object, it is replaced with an empty object
    /// before the key is set.
    pub fn option(self, key: &str, value: serde_json::Value) -> (r: Self)
        ensures
            r@ == self@.set(key@, value),
    {
        OrganizationSwitcherOptions { inner: self.inner.option(key, value) }
    }

    /// Convert into the raw JSON value passed to clerk-js.
    pub fn into_value(self) -> (r: serde_json::Value)
        ensures
            r == self@.json(),
    {
        self.inner.into_value()
    }

    /// Set where Clerk navigates to create an organization.
    pub fn create_organization_url(self, value: &str) -> (r: Self)
        ensures
            r@ == self@.set("createOrganizationUrl"@, json_string_value(value@)),
    {
        self.option("createOrganizationUrl", string_value(value))
    }

    /// As [`create_organization_url`](Self::create_organization_url) when a value is given; `None` leaves the
    /// options untouched.
    pub fn maybe_create_organization_url(self, value: Option<&str>) -> (r: Self)
        ensures
            match value {
                Some(v) => r@ == self@.set("createOrganizationUrl"@, json_string_value(v@)),
                None => r@ == self@,
            },
    {
        match value {
            Some(v) => self.create_organization_url(v),
            None => self,
        }
    }

    /// Set where Clerk redirects after creating an organization.
    pub fn after_create_organization_url(self, value: &str) -> (r: Self)
        ensures
            r@ == self@.set("afterCreateOrganizationUrl"@, json_string_value(value@)),
    {
        self.option("afterCreateOrganizationUrl", string_value(value))
    }

    /// As [`after_create_organization_url`](Self::after_create_organization_url) when a value is given; `None` leaves the
    /// options untouched.
    pub fn maybe_after_create_organization_url(self, value: Option<&str>) -> (r: Self)
        ensures
            match value {
                Some(v) => r@ == self@.set("afterCreateOrganizationUrl"@, json_string_value(v@)),
                None => r@ == self@,
            },
    {
        match value {
            Some(v) => self.after_create_organization_url(v),
            None => self,
        }
    }

    /// Set where Clerk navigates for organization profile management.
    pub fn organization_profile_url(self, value: &str) -> (r: Self)
        ensures
            r@ == self@.set("organizationProfileUrl"@, json_string_value(value@)),
    {
        self.option("organizationProfileUrl", string_value(value))
    }

    /// As [`organization_profile_url`](Self::organization_profile_url) when a value is given; `None` leaves the
    /// options untouched.
    pub fn maybe_organization_profile_url(self, value: Option<&str>) -> (r: Self)
        ensures
            match value {
                Some(v) => r@ == self@.set("organizationProfileUrl"@, json_string_value(v@)),
                None => r@ == self@,
            },
    {
        match value {
            Some(v) => self.organization_profile_url(v),
            None => self,
        }
    }

    /// Forward Clerk's raw `appearance` object.
    pub fn appearance(self, value: serde_json::Value) -> (r: Self)
        ensures
            r@ == self@.set("appearance"@, value),
    {
        self.option("appearance", value)
    }

    /// As [`appearance`](Self::appearance) when a value is given; `None` leaves the
    /// options untouched.
    pub fn maybe_appearance(self, value: Option<serde_json::Value>) -> (r: Self)
        ensures
            match value {
                Some(v) => r@ == self@.set("appearance"@, v),
                None => r@ == self@,
            },
    {
        match value {
            Some(v) => self.appearance(v),
            None => self,
        }
    }
}

impl From<OrganizationSwitcherOptions> for serde_json::Value {
    fn from(options: OrganizationSwitcherOptions) -> (r: serde_json::Value) {
        options.into_value()
    }
}

impl FromSpecImpl<OrganizationSwitcherOptions> for serde_json::Value {
    open spec fn obeys_from_spec() -> bool {
        true
    }

    open spec fn from_spec(options: OrganizationSwitcherOptions) -> serde_json::Value {
        options@.json()
    }
}

impl<'a> From<&'a OrganizationSwitcherOptions> for serde_json::Value {
    fn from(options: &'a OrganizationSwitcherOptions) -> (r: serde_json::Value) {
        options.inner.to_value()
    }
}

impl<'a> FromSpecImpl<&'a OrganizationSwitcherOptions> for serde_json::Value {
    open spec fn obeys_from_spec() -> bool {
        true
    }

    open spec fn from_spec(options: &'a OrganizationSwitcherOptions) -> serde_json::Value {
        options@.json()
    }
}

/// A raw JSON value is accepted for any builder, so the escape hatch for
/// options this crate has not named keeps working.
impl From<serde_json::Value> for OrganizationSwitcherOptions {
    fn from(value: serde_json::Value) -> (r: Self) {
        OrganizationSwitcherOptions { inner: JsonOptions::from_value(value) }
    }
}

impl FromSpecImpl<serde_json::Value> for OrganizationSwitcherOptions {
    open spec fn obeys_from_spec() -> bool {
        true
    }

    closed spec fn from_spec(value: serde_json::Value) -> OrganizationSwitcherOptions {
        OrganizationSwitcherOptions { inner: JsonOptions::from_value_spec(value) }
    }
}

/// Options for the Clerk organization list UI.
#[derive(Debug, PartialEq, Eq)]
pub struct OrganizationListOptions {
    inner: JsonOptions,
}

impl View for OrganizationListOptions {
    type V = OptionsView;

    closed spec fn view(&self) -> OptionsView {
        self.inner@
    }
}

impl Default for OrganizationListOptions {
    fn default() -> (r: Self)
        ensures
            r@ == OptionsView::empty(),
    {
        OrganizationListOptions { inner: JsonOptions::new() }
    }
}

impl Clone for OrganizationListOptions {
    fn clone(&self) -> (r: Self)
        ensures
            r@ == self@,
    {
        OrganizationListOptions { inner: self.inner.clone() }
    }
}

impl OrganizationListOptions {
    /// Start with an empty Clerk options object.
    pub fn new() -> (r: Self)
        ensures
            r@ == OptionsView::empty(),
    {
        OrganizationListOptions { inner: JsonOptions::new() }
    }

    /// Wrap an already-built JSON value.
    pub fn from_value(value: serde_json::Value) -> (r: Self)
        ensures
            r@ == OptionsView::Raw(value),
    {
        OrganizationListOptions { inner: JsonOptions::from_value(value) }
    }

    /// Set a raw clerk-js option by its JavaScript key. If the wrapped
    /// value is not a JSON object, it is replaced with an empty object
    /// before the key is set.
    pub fn option(self, key: &str, value: serde_json::Value) -> (r: Self)
        ensures
            r@ == self@.set(key@, value),
    {
        OrganizationListOptions { inner: self.inner.option(key, value) }
    }

    /// Convert into the raw JSON value passed to clerk-js.
    pub fn into_value(self) -> (r: serde_json::Value)
        ensures
            r == self@.json(),
    {
        self.inner.into_value()
    }

    /// Set where Clerk redirects after creating an organization.
    pub fn after_create_organization_url(self, value: &str) -> (r: Self)
        ensures
            r@ == self@.set("afterCreateOrganizationUrl"@, json_string_value(value@)),
    {
        self.option("afterCreateOrganizationUrl", string_value(value))
    }

    /// As [`after_create_organization_url`](Self::after_create_organization_url) when a value is given; `None` leaves the
    /// options untouched.
    pub fn maybe_after_create_organization_url(self, value: Option<&str>) -> (r: Self)
        ensures
            match value {
                Some(v) => r@ == self@.set("afterCreateOrganizationUrl"@, json_string_value(v@)),
                None => r@ == self@,
            },
    {
        match value {
            Some(v) => self.after_create_organization_url(v),
            None => self,
        }
    }

    /// Set where Clerk redirects after selecting an organization.
    pub fn after_select_organization_url(self, value: &str) -> (r: Self)
        ensures
            r@ == self@.set("afterSelectOrganizationUrl"@, json_string_value(value@)),
    {
        self.option("afterSelectOrganizationUrl", string_value(value))
    }

    /// As [`after_select_organization_url`](Self::after_select_organization_url) when a value is given; `None` leaves the
    /// options untouched.
    pub fn maybe_after_select_organization_url(self, value: Option<&str>) -> (r: Self)
        ensures
            match value {
                Some(v) => r@ == self@.set("afterSelectOrganizationUrl"@, json_string_value(v@)),
                None => r@ == self@,
            },
    {
        match value {
            Some(v) => self.after_select_organization_url(v),
            None => self,
        }
    }

    /// Forward Clerk's raw `appearance` object.
    pub fn appearance(self, value: serde_json::Value) -> (r: Self)
        ensures
            r@ == self@.set("appearance"@, value),
    {
        self.option("appearance", value)
    }

    /// As [`appearance`](Self::appearance) when a value is given; `None` leaves the
    /// options untouched.
    pub fn maybe_appearance(self, value: Option<serde_json::Value>) -> (r: Self)
        ensures
            match value {
                Some(v) => r@ == self@.set("appearance"@, v),
                None => r@ == self@,
            },
    {
        match value {
            Some(v) => self.appearance(v),
            None => self,
        }
    }
}

impl From<OrganizationListOptions> for serde_json::Value {
    fn from(options: OrganizationListOptions) -> (r: serde_json::Value) {
        options.into_value()
    }
}

impl FromSpecImpl<OrganizationListOptions> for serde_json::Value {
    open spec fn obeys_from_spec() -> bool {
        true
    }

    open spec fn from_spec(options: OrganizationListOptions) -> serde_json::Value {
        options@.json()
    }
}

impl<'a> From<&'a OrganizationListOptions> for serde_json::Value {
    fn from(options: &'a OrganizationListOptions) -> (r: serde_json::Value) {
        options.inner.to_value()
    }
}

impl<'a> FromSpecImpl<&'a OrganizationListOptions> for serde_json::Value {
    open spec fn obeys_from_spec() -> bool {
        true
    }

    open spec fn from_spec(options: &'a OrganizationListOptions) -> serde_json::Value {
        options@.json()
    }
}

/// A raw JSON value is accepted for any builder, so the escape hatch for
/// options this crate has not named keeps working.
impl From<serde_json::Value> for OrganizationListOptions {
    fn from(value: serde_json::Value) -> (r: Self) {
        OrganizationListOptions { inner: JsonOptions::from_value(value) }
    }
}

impl FromSpecImpl<serde_json::Value> for OrganizationListOptions {
    open spec fn obeys_from_spec() -> bool {
        true
    }

    closed spec fn from_spec(value: serde_json::Value) -> OrganizationListOptions {
        OrganizationListOptions { inner: JsonOptions::from_value_spec(value) }
    }
}

/// Options for the Clerk waitlist UI.
#[derive(Debug, PartialEq, Eq)]
pub struct WaitlistOptions {
    inner: JsonOptions,
}

impl View for WaitlistOptions {
    type V = OptionsView;

    closed spec fn view(&self) -> OptionsView {
        self.inner@
    }
}

impl Default for WaitlistOptions {
    fn default() -> (r: Self)
        ensures
            r@ == OptionsView::empty(),
    {
        WaitlistOptions { inner: JsonOptions::new() }
    }
}

impl Clone for WaitlistOptions {
    fn clone(&self) -> (r: Self)
        ensures
            r@ == self@,
    {
        WaitlistOptions { inner: self.inner.clone() }
    }
}

impl WaitlistOptions {
    /// Start with an empty Clerk options object.
    pub fn new() -> (r: Self)
        ensures
            r@ == OptionsView::empty(),
    {
        WaitlistOptions { inner: JsonOptions::new() }
    }

    /// Wrap an already-built JSON value.
    pub fn from_value(value: serde_json::Value) -> (r: Self)
        ensures
            r@ == OptionsView::Raw(value),
    {
        WaitlistOptions { inner: JsonOptions::from_value(value) }
    }

    /// Set a raw clerk-js option by its JavaScript key. If the wrapped
    /// value is not a JSON object, it is replaced with an empty object
    /// before the key is set.
    pub fn option(self, key: &str, value: serde_json::Value) -> (r: Self)
        ensures
            r@ == self@.set(key@, value),
    {
        WaitlistOptions { inner: self.inner.option(key, value) }
    }

    /// Convert into the raw JSON value passed to clerk-js.
    pub fn into_value(self) -> (r: serde_json::Value)
        ensures
            r == self@.json(),
    {
        self.inner.into_value()
    }

    /// Set where Clerk redirects after joining the waitlist.
    pub fn after_join_waitlist_url(self, value: &str) -> (r: Self)
        ensures
            r@ == self@.set("afterJoinWaitlistUrl"@, json_string_value(value@)),
    {
        self.option("afterJoinWaitlistUrl", string_value(value))
    }

    /// As [`after_join_waitlist_url`](Self::after_join_waitlist_url) when a value is given; `None` leaves the
    /// options untouched.
    pub fn maybe_after_join_waitlist_url(self, value: Option<&str>) -> (r: Self)
        ensures
            match value {
                Some(v) => r@ == self@.set("afterJoinWaitlistUrl"@, json_string_value(v@)),
                None => r@ == self@,
            },
    {
        match value {
            Some(v) => self.after_join_waitlist_url(v),
            None => self,
        }
    }

    /// Forward Clerk's raw `appearance` object.
    pub fn appearance(self, value: serde_json::Value) -> (r: Self)
        ensures
            r@ == self@.set("appearance"@, value),
    {
        self.option("appearance", value)
    }

    /// As [`appearance`](Self::appearance) when a value is given; `None` leaves the
    /// options untouched.
    pub fn maybe_appearance(self, value: Option<serde_json::Value>) -> (r: Self)
        ensures
            match value {
                Some(v) => r@ == self@.set("appearance"@, v),
                None => r@ == self@,
            },
    {
        match value {
            Some(v) => self.appearance(v),
            None => self,
        }
    }
}

impl From<WaitlistOptions> for serde_json::Value {
    fn from(options: WaitlistOptions) -> (r: serde_json::Value) {
        options.into_value()
    }
}

impl FromSpecImpl<WaitlistOptions> for serde_json::Value {
    open spec fn obeys_from_spec() -> bool {
        true
    }

    open spec fn from_spec(options: WaitlistOptions) -> serde_json::Value {
        options@.json()
    }
}

impl<'a> From<&'a WaitlistOptions> for serde_json::Value {
    fn from(options: &'a WaitlistOptions) -> (r: serde_json::Value) {
        options.inner.to_value()
    }
}

impl<'a> FromSpecImpl<&'a WaitlistOptions> for serde_json::Value {
    open spec fn obeys_from_spec() -> bool {
        true
    }

    open spec fn from_spec(options: &'a WaitlistOptions) -> serde_json::Value {
        options@.json()
    }
}

/// A raw JSON value is accepted for any builder, so the escape hatch for
/// options this crate has not named keeps working.
impl From<serde_json::Value> for WaitlistOptions {
    fn from(value: serde_json::Value) -> (r: Self) {
        WaitlistOptions { inner: JsonOptions::from_value(value) }
    }
}

impl FromSpecImpl<serde_json::Value> for WaitlistOptions {
    open spec fn obeys_from_spec() -> bool {
        true
    }

    closed spec fn from_spec(value: serde_json::Value) -> WaitlistOptions {
        WaitlistOptions { inner: JsonOptions::from_value_spec(value) }
    }
}

/// Options for the Clerk task setup-MFA UI.
#[derive(Debug, PartialEq, Eq)]
pub struct TaskSetupMFAOptions {
    inner: JsonOptions,
}

impl View for TaskSetupMFAOptions {
    type V = OptionsView;

    closed spec fn view(&self) -> OptionsView {
        self.inner@
    }
}

impl Default for TaskSetupMFAOptions {
    fn default() -> (r: Self)
        ensures
            r@ == OptionsView::empty(),
    {
        TaskSetupMFAOptions { inner: JsonOptions::new() }
    }
}

impl Clone for TaskSetupMFAOptions {
    fn clone(&self) -> (r: Self)
        ensures
            r@ == self@,
    {
        TaskSetupMFAOptions { inner: self.inner.clone() }
    }
}

impl TaskSetupMFAOptions {
    /// Start with an empty Clerk options object.
    pub fn new() -> (r: Self)
        ensures
            r@ == OptionsView::empty(),
    {
        TaskSetupMFAOptions { inner: JsonOptions::new() }
    }

    /// Wrap an already-built JSON value.
    pub fn from_value(value: serde_json::Value) -> (r: Self)
        ensures
            r@ == OptionsView::Raw(value),
    {
        TaskSetupMFAOptions { inner: JsonOptions::from_value(value) }
    }

    /// Set a raw clerk-js option by its JavaScript key. If the wrapped
    /// value is not a JSON object, it is replaced with an empty object
    /// before the key is set.
    pub fn option(self, key: &str, value: serde_json::Value) -> (r: Self)
        ensures
            r@ == self@.set(key@, value),
    {
        TaskSetupMFAOptions { inner: self.inner.option(key, value) }
    }

    /// Convert into the raw JSON value passed to clerk-js.
    pub fn into_value(self) -> (r: serde_json::Value)
        ensures
            r == self@.json(),
    {
        self.inner.into_value()
    }

    /// Set the URL Clerk navigates to after all pending session tasks resolve.
    pub fn redirect_url_complete(self, value: &str) -> (r: Self)
        ensures
            r@ == self@.set("redirectUrlComplete"@, json_string_value(value@)),
    {
        self.option("redirectUrlComplete", string_value(value))
    }

    /// As [`redirect_url_complete`](Self::redirect_url_complete) when a value is given; `None` leaves the
    /// options untouched.
    pub fn maybe_redirect_url_complete(self, value: Option<&str>) -> (r: Self)
        ensures
            match value {
                Some(v) => r@ == self@.set("redirectUrlComplete"@, json_string_value(v@)),
                None => r@ == self@,
            },
    {
        match value {
            Some(v) => self.redirect_url_complete(v),
            None => self,
        }
    }

    /// Forward Clerk's raw `appearance` object.
    pub fn appearance(self, value: serde_json::Value) -> (r: Self)
        ensures
            r@ == self@.set("appearance"@, value),
    {
        self.option("appearance", value)
    }

    /// As [`appearance`](Self::appearance) when a value is given; `None` leaves the
    /// options untouched.
    pub fn maybe_appearance(self, value: Option<serde_json::Value>) -> (r: Self)
        ensures
            match value {
                Some(v) => r@ == self@.set("appearance"@, v),
                None => r@ == self@,
            },
    {
        match value {
            Some(v) => self.appearance(v),
            None => self,
        }
    }
}

impl From<TaskSetupMFAOptions> for serde_json::Value {
    fn from(options: TaskSetupMFAOptions) -> (r: serde_json::Value) {
        options.into_value()
    }
}

impl FromSpecImpl<TaskSetupMFAOptions> for serde_json::Value {
    open spec fn obeys_from_spec() -> bool {
        true
    }

    open spec fn from_spec(options: TaskSetupMFAOptions) -> serde_json::Value {
        options@.json()
    }
}

impl<'a> From<&'a TaskSetupMFAOptions> for serde_json::Value {
    fn from(options: &'a TaskSetupMFAOptions) -> (r: serde_json::Value) {
        options.inner.to_value()
    }
}

impl<'a> FromSpecImpl<&'a TaskSetupMFAOptions> for serde_json::Value {
    open spec fn obeys_from_spec() -> bool {
        true
    }

    open spec fn from_spec(options: &'a TaskSetupMFAOptions) -> serde_json::Value {
        options@.json()
    }
}

/// A raw JSON value is accepted for any builder, so the escape hatch for
/// options this crate has not named keeps working.
impl From<serde_json::Value> for TaskSetupMFAOptions {
    fn from(value: serde_json::Value) -> (r: Self) {
        TaskSetupMFAOptions { inner: JsonOptions::from_value(value) }
    }
}

impl FromSpecImpl<serde_json::Value> for TaskSetupMFAOptions {
    open spec fn obeys_from_spec() -> bool {
        true
    }

    closed spec fn from_spec(value: serde_json::Value) -> TaskSetupMFAOptions {
        TaskSetupMFAOptions { inner: JsonOptions::from_value_spec(value) }
    }
}

/// Options for Clerk redirect helpers.
#[derive(Debug, PartialEq, Eq)]
pub struct RedirectOptions {
    inner: JsonOptions,
}

impl View for RedirectOptions {
    type V = OptionsView;

    closed spec fn view(&self) -> OptionsView {
        self.inner@
    }
}

impl Default for RedirectOptions {
    fn default() -> (r: Self)
        ensures
            r@ == OptionsView::empty(),
    {
        RedirectOptions { inner: JsonOptions::new() }
    }
}

impl Clone for RedirectOptions {
    fn clone(&self) -> (r: Self)
        ensures
            r@ == self@,
    {
        RedirectOptions { inner: self.inner.clone() }
    }
}

impl RedirectOptions {
    /// Start with an empty Clerk options object.
    pub fn new() -> (r: Self)
        ensures
            r@ == OptionsView::empty(),
    {
        RedirectOptions { inner: JsonOptions::new() }
    }

    /// Wrap an already-built JSON value.
    pub fn from_value(value: serde_json::Value) -> (r: Self)
        ensures
            r@ == OptionsView::Raw(value),
    {
        RedirectOptions { inner: JsonOptions::from_value(value) }
    }

    /// Set a raw clerk-js option by its JavaScript key. If the wrapped
    /// value is not a JSON object, it is replaced with an empty object
    /// before the key is set.
    pub fn option(self, key: &str, value: serde_json::Value) -> (r: Self)
        ensures
            r@ == self@.set(key@, value),
    {
        RedirectOptions { inner: self.inner.option(key, value) }
    }

    /// Convert into the raw JSON value passed to clerk-js.
    pub fn into_value(self) -> (r: serde_json::Value)
        ensures
            r == self@.json(),
    {
        self.inner.into_value()
    }

    /// Always redirect here after the target auth flow.
    pub fn force_redirect_url(self, value: &str) -> (r: Self)
        ensures
            r@ == self@.set("forceRedirectUrl"@, json_string_value(value@)),
    {
        self.option("forceRedirectUrl", string_value(value))
    }

    /// As [`force_redirect_url`](Self::force_redirect_url) when a value is given; `None` leaves the
    /// options untouched.
    pub fn maybe_force_redirect_url(self, value: Option<&str>) -> (r: Self)
        ensures
            match value {
                Some(v) => r@ == self@.set("forceRedirectUrl"@, json_string_value(v@)),
                None => r@ == self@,
            },
    {
        match value {
            Some(v) => self.force_redirect_url(v),
            None => self,
        }
    }

    /// Fallback redirect URL after the target auth flow.
    pub fn fallback_redirect_url(self, value: &str) -> (r: Self)
        ensures
            r@ == self@.set("fallbackRedirectUrl"@, json_string_value(value@)),
    {
        self.option("fallbackRedirectUrl", string_value(value))
    }

    /// As [`fallback_redirect_url`](Self::fallback_redirect_url) when a value is given; `None` leaves the
    /// options untouched.
    pub fn maybe_fallback_redirect_url(self, value: Option<&str>) -> (r: Self)
        ensures
            match value {
                Some(v) => r@ == self@.set("fallbackRedirectUrl"@, json_string_value(v@)),
                None => r@ == self@,
            },
    {
        match value {
            Some(v) => self.fallback_redirect_url(v),
            None => self,
        }
    }

    /// Always redirect here after sign-up from sign-in.
    pub fn sign_up_force_redirect_url(self, value: &str) -> (r: Self)
        ensures
            r@ == self@.set("signUpForceRedirectUrl"@, json_string_value(value@)),
    {
        self.option("signUpForceRedirectUrl", string_value(value))
    }

    /// As [`sign_up_force_redirect_url`](Self::sign_up_force_redirect_url) when a value is given; `None` leaves the
    /// options untouched.
    pub fn maybe_sign_up_force_redirect_url(self, value: Option<&str>) -> (r: Self)
        ensures
            match value {
                Some(v) => r@ == self@.set("signUpForceRedirectUrl"@, json_string_value(v@)),
                None => r@ == self@,
            },
    {
        match value {
            Some(v) => self.sign_up_force_redirect_url(v),
            None => self,
        }
    }

    /// Fallback redirect URL after sign-up from sign-in.
    pub fn sign_up_fallback_redirect_url(self, value: &str) -> (r: Self)
        ensures
            r@ == self@.set("signUpFallbackRedirectUrl"@, json_string_value(value@)),
    {
        self.option("signUpFallbackRedirectUrl", string_value(value))
    }

    /// As [`sign_up_fallback_redirect_url`](Self::sign_up_fallback_redirect_url) when a value is given; `None` leaves the
    /// options untouched.
    pub fn maybe_sign_up_fallback_redirect_url(self, value: Option<&str>) -> (r: Self)
        ensures
            match value {
                Some(v) => r@ == self@.set("signUpFallbackRedirectUrl"@, json_string_value(v@)),
                None => r@ == self@,
            },
    {
        match value {
            Some(v) => self.sign_up_fallback_redirect_url(v),
            None => self,
        }
    }

    /// Always redirect here after sign-in from sign-up.
    pub fn sign_in_force_redirect_url(self, value: &str) -> (r: Self)
        ensures
            r@ == self@.set("signInForceRedirectUrl"@, json_string_value(value@)),
    {
        self.option("signInForceRedirectUrl", string_value(value))
    }

    /// As [`sign_in_force_redirect_url`](Self::sign_in_force_redirect_url) when a value is given; `None` leaves the
    /// options untouched.
    pub fn maybe_sign_in_force_redirect_url(self, value: Option<&str>) -> (r: Self)
        ensures
            match value {
                Some(v) => r@ == self@.set("signInForceRedirectUrl"@, json_string_value(v@)),
                None => r@ == self@,
            },
    {
        match value {
            Some(v) => self.sign_in_force_redirect_url(v),
            None => self,
        }
    }

    /// Fallback redirect URL after sign-in from sign-up.
    pub fn sign_in_fallback_redirect_url(self, value: &str) -> (r: Self)
        ensures
            r@ == self@.set("signInFallbackRedirectUrl"@, json_string_value(value@)),
    {
        self.option("signInFallbackRedirectUrl", string_value(value))
    }

    /// As [`sign_in_fallback_redirect_url`](Self::sign_in_fallback_redirect_url) when a value is given; `None` leaves the
    /// options untouched.
    pub fn maybe_sign_in_fallback_redirect_url(self, value: Option<&str>) -> (r: Self)
        ensures
            match value {
                Some(v) => r@ == self@.set("signInFallbackRedirectUrl"@, json_string_value(v@)),
                None => r@ == self@,
            },
    {
        match value {
            Some(v) => self.sign_in_fallback_redirect_url(v),
            None => self,
        }
    }
}

impl From<RedirectOptions> for serde_json::Value {
    fn from(options: RedirectOptions) -> (r: serde_json::Value) {
        options.into_value()
    }
}

impl FromSpecImpl<RedirectOptions> for serde_json::Value {
    open spec fn obeys_from_spec() -> bool {
        true
    }

    open spec fn from_spec(options: RedirectOptions) -> serde_json::Value {
        options@.json()
    }
}

impl<'a> From<&'a RedirectOptions> for serde_json::Value {
    fn from(options: &'a RedirectOptions) -> (r: serde_json::Value) {
        options.inner.to_value()
    }
}

impl<'a> FromSpecImpl<&'a RedirectOptions> for serde_json::Value {
    open spec fn obeys_from_spec() -> bool {
        true
    }

    open spec fn from_spec(options: &'a RedirectOptions) -> serde_json::Value {
        options@.json()
    }
}

/// A raw JSON value is accepted for any builder, so the escape hatch for
/// options this crate has not named keeps working.
impl From<serde_json::Value> for RedirectOptions {
    fn from(value: serde_json::Value) -> (r: Self) {
        RedirectOptions { inner: JsonOptions::from_value(value) }
    }
}

impl FromSpecImpl<serde_json::Value> for RedirectOptions {
    open spec fn obeys_from_spec() -> bool {
        true
    }

    closed spec fn from_spec(value: serde_json::Value) -> RedirectOptions {
        RedirectOptions { inner: JsonOptions::from_value_spec(value) }
    }
}

/// Options for `Clerk.signOut(...)`.
#[derive(Debug, PartialEq, Eq)]
pub struct SignOutOptions {
    inner: JsonOptions,
}

impl View for SignOutOptions {
    type V = OptionsView;

    closed spec fn view(&self) -> OptionsView {
        self.inner@
    }
}

impl Default for SignOutOptions {
    fn default() -> (r: Self)
        ensures
            r@ == OptionsView::empty(),
    {
        SignOutOptions { inner: JsonOptions::new() }
    }
}

impl Clone for SignOutOptions {
    fn clone(&self) -> (r: Self)
        ensures
            r@ == self@,
    {
        SignOutOptions { inner: self.inner.clone() }
    }
}

impl SignOutOptions {
    /// Start with an empty Clerk options object.
    pub fn new() -> (r: Self)
        ensures
            r@ == OptionsView::empty(),
    {
        SignOutOptions { inner: JsonOptions::new() }
    }

    /// Wrap an already-built JSON value.
    pub fn from_value(value: serde_json::Value) -> (r: Self)
        ensures
            r@ == OptionsView::Raw(value),
    {
        SignOutOptions { inner: JsonOptions::from_value(value) }
    }

    /// Set a raw clerk-js option by its JavaScript key. If the wrapped
    /// value is not a JSON object, it is replaced with an empty object
    /// before the key is set.
    pub fn option(self, key: &str, value: serde_json::Value) -> (r: Self)
        ensures
            r@ == self@.set(key@, value),
    {
        SignOutOptions { inner: self.inner.option(key, value) }
    }

    /// Convert into the raw JSON value passed to clerk-js.
    pub fn into_value(self) -> (r: serde_json::Value)
        ensures
            r == self@.json(),
    {
        self.inner.into_value()
    }

    /// Full URL or path to navigate to after sign-out.
    pub fn redirect_url(self, value: &str) -> (r: Self)
        ensures
            r@ == self@.set("redirectUrl"@, json_string_value(value@)),
    {
        self.option("redirectUrl", string_value(value))
    }

    /// As [`redirect_url`](Self::redirect_url) when a value is given; `None` leaves the
    /// options untouched.
    pub fn maybe_redirect_url(self, value: Option<&str>) -> (r: Self)
        ensures
            match value {
                Some(v) => r@ == self@.set("redirectUrl"@, json_string_value(v@)),
                None => r@ == self@,
            },
    {
        match value {
            Some(v) => self.redirect_url(v),
            None => self,
        }
    }

    /// Sign out a specific session id in multi-session applications.
    pub fn session_id(self, value: &str) -> (r: Self)
        ensures
            r@ == self@.set("sessionId"@, json_string_value(value@)),
    {
        self.option("sessionId", string_value(value))
    }

    /// As [`session_id`](Self::session_id) when a value is given; `None` leaves the
    /// options untouched.
    pub fn maybe_session_id(self, value: Option<&str>) -> (r: Self)
        ensures
            match value {
                Some(v) => r@ == self@.set("sessionId"@, json_string_value(v@)),
                None => r@ == self@,
            },
    {
        match value {
            Some(v) => self.session_id(v),
            None => self,
        }
    }
}

impl From<SignOutOptions> for serde_json::Value {
    fn from(options: SignOutOptions) -> (r: serde_json::Value) {
        options.into_value()
    }
}

impl FromSpecImpl<SignOutOptions> for serde_json::Value {
    open spec fn obeys_from_spec() -> bool {
        true
    }

    open spec fn from_spec(options: SignOutOptions) -> serde_json::Value {
        options@.json()
    }
}

impl<'a> From<&'a SignOutOptions> for serde_json::Value {
    fn from(options: &'a SignOutOptions) -> (r: serde_json::Value) {
        options.inner.to_value()
    }
}

impl<'a> FromSpecImpl<&'a SignOutOptions> for serde_json::Value {
    open spec fn obeys_from_spec() -> bool {
        true
    }

    open spec fn from_spec(options: &'a SignOutOptions) -> serde_json::Value {
        options@.json()
    }
}

/// A raw JSON value is accepted for any builder, so the escape hatch for
/// options this crate has not named keeps working.
impl From<serde_json::Value> for SignOutOptions {
    fn from(value: serde_json::Value) -> (r: Self) {
        SignOutOptions { inner: JsonOptions::from_value(value) }
    }
}

impl FromSpecImpl<serde_json::Value> for SignOutOptions {
    open spec fn obeys_from_spec() -> bool {
        true
    }

    closed spec fn from_spec(value: serde_json::Value) -> SignOutOptions {
        SignOutOptions { inner: JsonOptions::from_value_spec(value) }
    }
}

/// Options for `session.getToken(...)`.
#[derive(Debug, PartialEq, Eq)]
pub struct GetTokenOptions {
    inner: JsonOptions,
}

impl View for GetTokenOptions {
    type V = OptionsView;

    closed spec fn view(&self) -> OptionsView {
        self.inner@
    }
}

impl Default for GetTokenOptions {
    fn default() -> (r: Self)
        ensures
            r@ == OptionsView::empty(),
    {
        GetTokenOptions { inner: JsonOptions::new() }
    }
}

impl Clone for GetTokenOptions {
    fn clone(&self) -> (r: Self)
        ensures
            r@ == self@,
    {
        GetTokenOptions { inner: self.inner.clone() }
    }
}

impl GetTokenOptions {
    /// Start with an empty Clerk options object.
    pub fn new() -> (r: Self)
        ensures
            r@ == OptionsView::empty(),
    {
        GetTokenOptions { inner: JsonOptions::new() }
    }

    /// Wrap an already-built JSON value.
    pub fn from_value(value: serde_json::Value) -> (r: Self)
        ensures
            r@ == OptionsView::Raw(value),
    {
        GetTokenOptions { inner: JsonOptions::from_value(value) }
    }

    /// Set a raw clerk-js option by its JavaScript key. If the wrapped
    /// value is not a JSON object, it is replaced with an empty object
    /// before the key is set.
    pub fn option(self, key: &str, value: serde_json::Value) -> (r: Self)
        ensures
            r@ == self@.set(key@, value),
    {
        GetTokenOptions { inner: self.inner.option(key, value) }
    }

    /// Convert into the raw JSON value passed to clerk-js.
    pub fn into_value(self) -> (r: serde_json::Value)
        ensures
            r == self@.json(),
    {
        self.inner.into_value()
    }

    /// Use a named Clerk JWT template.
    pub fn template(self, value: &str) -> (r: Self)
        ensures
            r@ == self@.set("template"@, json_string_value(value@)),
    {
        self.option("template", string_value(value))
    }

    /// As [`template`](Self::template) when a value is given; `None` leaves the
    /// options untouched.
    pub fn maybe_template(self, value: Option<&str>) -> (r: Self)
        ensures
            match value {
                Some(v) => r@ == self@.set("template"@, json_string_value(v@)),
                None => r@ == self@,
            },
    {
        match value {
            Some(v) => self.template(v),
            None => self,
        }
    }

    /// Request a token scoped to a specific organization without changing the
    /// active organization in clerk-js.
    pub fn organization_id(self, value: &str) -> (r: Self)
        ensures
            r@ == self@.set("organizationId"@, json_string_value(value@)),
    {
        self.option("organizationId", string_value(value))
    }

    /// As [`organization_id`](Self::organization_id) when a value is given; `None` leaves the
    /// options untouched.
    pub fn maybe_organization_id(self, value: Option<&str>) -> (r: Self)
        ensures
            match value {
                Some(v) => r@ == self@.set("organizationId"@, json_string_value(v@)),
                None => r@ == self@,
            },
    {
        match value {
            Some(v) => self.organization_id(v),
            None => self,
        }
    }

    /// Allow Clerk to reuse a cached token for this many extra seconds when supported.
    pub fn leeway_in_seconds(self, value: u64) -> (r: Self)
        ensures
            r@ == self@.set("leewayInSeconds"@, json_number_value(value)),
    {
        self.option("leewayInSeconds", number_value(value))
    }

    /// As [`leeway_in_seconds`](Self::leeway_in_seconds) when a value is given; `None` leaves the
    /// options untouched.
    pub fn maybe_leeway_in_seconds(self, value: Option<u64>) -> (r: Self)
        ensures
            match value {
                Some(v) => r@ == self@.set("leewayInSeconds"@, json_number_value(v)),
                None => r@ == self@,
            },
    {
        match value {
            Some(v) => self.leeway_in_seconds(v),
            None => self,
        }
    }

    /// Ask Clerk to bypass its token cache when supported.
    pub fn skip_cache(self, value: bool) -> (r: Self)
        ensures
            r@ == self@.set("skipCache"@, json_bool_value(value)),
    {
        self.option("skipCache", bool_value(value))
    }

    /// As [`skip_cache`](Self::skip_cache) when a value is given; `None` leaves the
    /// options untouched.
    pub fn maybe_skip_cache(self, value: Option<bool>) -> (r: Self)
        ensures
            match value {
                Some(v) => r@ == self@.set("skipCache"@, json_bool_value(v)),
                None => r@ == self@,
            },
    {
        match value {
            Some(v) => self.skip_cache(v),
            None => self,
        }
    }
}

impl From<GetTokenOptions> for serde_json::Value {
    fn from(options: GetTokenOptions) -> (r: serde_json::Value) {
        options.into_value()
    }
}

impl FromSpecImpl<GetTokenOptions> for serde_json::Value {
    open spec fn obeys_from_spec() -> bool {
        true
    }

    open spec fn from_spec(options: GetTokenOptions) -> serde_json::Value {
        options@.json()
    }
}

impl<'a> From<&'a GetTokenOptions> for serde_json::Value {
    fn from(options: &'a GetTokenOptions) -> (r: serde_json::Value) {
        options.inner.to_value()
    }
}

impl<'a> FromSpecImpl<&'a GetTokenOptions> for serde_json::Value {
    open spec fn obeys_from_spec() -> bool {
        true
    }

    open spec fn from_spec(options: &'a GetTokenOptions) -> serde_json::Value {
        options@.json()
    }
}

/// A raw JSON value is accepted for any builder, so the escape hatch for
/// options this crate has not named keeps working.
impl From<serde_json::Value> for GetTokenOptions {
    fn from(value: serde_json::Value) -> (r: Self) {
        GetTokenOptions { inner: JsonOptions::from_value(value) }
    }
}

impl FromSpecImpl<serde_json::Value> for GetTokenOptions {
    open spec fn obeys_from_spec() -> bool {
        true
    }

    closed spec fn from_spec(value: serde_json::Value) -> GetTokenOptions {
        GetTokenOptions { inner: JsonOptions::from_value_spec(value) }
    }
}

} // verus!
