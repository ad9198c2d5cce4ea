//! The decisions around mounting a Clerk widget into its host element: the
//! widget vocabulary and its clerk-js method names, which id the host gets,
//! when the widget is (re)mounted, and when the fallback shows.
use vstd::prelude::*;

use crate::auth::ClerkError;
use crate::text::{push_decimal, push_str, same_text};

verus! {

broadcast use vstd::string::group_string_axioms;

/// How often a widget whose host element is not there yet retries, in ms.
pub const HOST_MOUNT_RETRY_MS: u32 = 16;

/// How long to wait for the mounted host element before giving up, in ms,
/// instead of polling forever when a renderer never supplies it.
pub const HOST_MOUNT_DEADLINE_MS: u32 = 10_000;

/// A mountable Clerk widget.
#[derive(Debug, Clone, Copy, PartialEq, Eq, Structural)]
pub enum Widget {
    SignIn,
    SignUp,
    UserButton,
    UserProfile,
    CreateOrganization,
    OrganizationProfile,
    OrganizationSwitcher,
    OrganizationList,
    Waitlist,
    TaskSetupMfa,
}

/// The clerk-js method that mounts `widget`.
pub open spec fn mount_method_name(widget: Widget) -> Seq<char> {
    match widget {
        Widget::SignIn => "mountSignIn"@,
        Widget::SignUp => "mountSignUp"@,
        Widget::UserButton => "mountUserButton"@,
        Widget::UserProfile => "mountUserProfile"@,
        Widget::CreateOrganization => "mountCreateOrganization"@,
        Widget::OrganizationProfile => "mountOrganizationProfile"@,
        Widget::OrganizationSwitcher => "mountOrganizationSwitcher"@,
        Widget::OrganizationList => "mountOrganizationList"@,
        Widget::Waitlist => "mountWaitlist"@,
        Widget::TaskSetupMfa => "mountTaskSetupMFA"@,
    }
}

/// The clerk-js method that unmounts `widget`.
pub open spec fn unmount_method_name(widget: Widget) -> Seq<char> {
    match widget {
        Widget::SignIn => "unmountSignIn"@,
        Widget::SignUp => "unmountSignUp"@,
        Widget::UserButton => "unmountUserButton"@,
        Widget::UserProfile => "unmountUserProfile"@,
        Widget::CreateOrganization => "unmountCreateOrganization"@,
        Widget::OrganizationProfile => "unmountOrganizationProfile"@,
        Widget::OrganizationSwitcher => "unmountOrganizationSwitcher"@,
        Widget::OrganizationList => "unmountOrganizationList"@,
        Widget::Waitlist => "unmountWaitlist"@,
        Widget::TaskSetupMfa => "unmountTaskSetupMFA"@,
    }
}

impl Widget {
    /// The clerk-js method that mounts this widget (clerk-js 6 casing:
    /// `MFA`, not `Mfa`; a wrong case is a silent no-op mount).
    pub fn mount_method(self) -> (r: &'static str)
        ensures
            r@ == mount_method_name(self),
    {
        match self {
            Widget::SignIn => "mountSignIn",
            Widget::SignUp => "mountSignUp",
            Widget::UserButton => "mountUserButton",
            Widget::UserProfile => "mountUserProfile",
            Widget::CreateOrganization => "mountCreateOrganization",
            Widget::OrganizationProfile => "mountOrganizationProfile",
            Widget::OrganizationSwitcher => "mountOrganizationSwitcher",
            Widget::OrganizationList => "mountOrganizationList",
            Widget::Waitlist => "mountWaitlist",
            Widget::TaskSetupMfa => "mountTaskSetupMFA",
        }
    }

    /// The clerk-js method that unmounts this widget.
    pub fn unmount_method(self) -> (r: &'static str)
        ensures
            r@ == unmount_method_name(self),
    {
        match self {
            Widget::SignIn => "unmountSignIn",
            Widget::SignUp => "unmountSignUp",
            Widget::UserButton => "unmountUserButton",
            Widget::UserProfile => "unmountUserProfile",
            Widget::CreateOrganization => "unmountCreateOrganization",
            Widget::OrganizationProfile => "unmountOrganizationProfile",
            Widget::OrganizationSwitcher => "unmountOrganizationSwitcher",
            Widget::OrganizationList => "unmountOrganizationList",
            Widget::Waitlist => "unmountWaitlist",
            Widget::TaskSetupMfa => "unmountTaskSetupMFA",
        }
    }
}

/// An attribute spread onto a widget's host element, as far as the host id
/// depends on it: its name, and its value when that is text.
#[derive(Debug, Clone, PartialEq, Eq)]
pub struct HostAttribute {
    /// The attribute name.
    pub name: String,
    /// The attribute value, when it is text.
    pub text: Option<String>,
}

/// The attributes by name and text value.
pub open spec fn attribute_views(attributes: Seq<HostAttribute>) -> Seq<(Seq<char>, Option<Seq<char>>)> {
    attributes.map_values(|a: HostAttribute| (a.name@, a.text.deep_view()))
}

/// The text of the last `id` attribute that has a text value: later
/// attributes win, as the DOM resolves duplicates.
pub open spec fn last_text_id(attributes: Seq<(Seq<char>, Option<Seq<char>>)>) -> Option<Seq<char>>
    decreases attributes.len(),
{
    if attributes.len() == 0 {
        None
    } else if attributes.last().0 == "id"@ && attributes.last().1 is Some {
        attributes.last().1
    } else {
        last_text_id(attributes.drop_last())
    }
}

/// The `id` value carried by the attribute spread, if any, so a caller can
/// set the host id through the spread as well as the explicit `id` prop.
pub fn spread_id(attributes: &[HostAttribute]) -> (r: Option<String>)
    ensures
        r.deep_view() == last_text_id(attribute_views(attributes@)),
{
    let ghost all = attribute_views(attributes@);
    let mut i: usize = attributes.len();
    assert(all.take(attributes@.len() as int) =~= all);
    while i > 0
        invariant
            i <= attributes@.len(),
            all == attribute_views(attributes@),
            last_text_id(all) == last_text_id(all.take(i as int)),
        decreases i,
    {
        let attribute = &attributes[i - 1];
        let ghost prefix = all.take(i as int);
        assert(prefix.last() == all[i - 1]);
        assert(prefix.drop_last() =~= all.take(i - 1));
        if same_text(attribute.name.as_str(), "id") {
            if let Some(text) = &attribute.text {
                return Some(text.clone());
            }
        }
        i = i - 1;
    }
    None
}

/// The id the host element renders with: the explicit `id` prop, else the
/// spread's. Without either the host renders no id, which keeps server
/// output independent of client scope allocation.
pub fn host_id(explicit: Option<String>, attributes: &[HostAttribute]) -> (r: Option<String>)
    ensures
        r.deep_view() == match explicit {
            Some(id) => Some(id@),
            None => last_text_id(attribute_views(attributes@)),
        },
{
    match explicit {
        Some(id) => Some(id),
        None => spread_id(attributes),
    }
}

/// What is known of the widget clerk-js last mounted, compared with the
/// current render.
#[derive(Debug, Clone, Copy, PartialEq, Eq, Structural)]
pub struct MountedState {
    /// It was mounted with the options the widget renders with now.
    pub same_options: bool,
    /// It was mounted into the host element the widget renders now.
    pub same_element: bool,
}

/// Whether the mount action must run: while the host element is missing it
/// runs (to defer and retry); otherwise unless the widget is already mounted
/// into this very element with these very options.
pub fn needs_mount(host_present: bool, mounted: Option<MountedState>) -> (r: bool)
    ensures
        r == (!host_present || match mounted {
            Some(m) => !m.same_options || !m.same_element,
            None => true,
        }),
{
    if !host_present {
        return true;
    }
    match mounted {
        Some(m) => !m.same_options || !m.same_element,
        None => true,
    }
}

/// Whether the fallback renders: until the widget is mounted with the
/// options it renders with now.
pub fn shows_fallback(mounted_with_current_options: bool) -> (r: bool)
    ensures
        r == !mounted_with_current_options,
{
    !mounted_with_current_options
}

/// The error of a host element that never mounted within the deadline.
pub open spec fn host_mount_timeout_message() -> Seq<char> {
    "clerk widget host element was not mounted within "@ + crate::text::decimal_text(HOST_MOUNT_DEADLINE_MS as nat)
        + " ms; the widget cannot mount"@
}

/// The error of a widget whose host element was not mounted within
/// [`HOST_MOUNT_DEADLINE_MS`].
pub fn host_mount_timeout_error() -> (r: ClerkError)
    ensures
        r matches ClerkError::Js(m) && m@ == host_mount_timeout_message(),
{
    let mut message = String::new();
    push_str(&mut message, "clerk widget host element was not mounted within ");
    push_decimal(&mut message, HOST_MOUNT_DEADLINE_MS as u128);
    push_str(&mut message, " ms; the widget cannot mount");
    ClerkError::Js(message)
}

} // verus!
