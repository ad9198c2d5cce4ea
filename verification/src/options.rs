//! Clerk options: the typed builders that map Rust-side option names
//! onto clerk-js JSON option keys, the raw JSON builder they share, and the
//! option values that mirror clerk-js's fixed option sets.
use vstd::prelude::*;

use crate::json::{
    clone_value, json_object, json_string_value, members_map, object_members_of, object_pairs, object_value,
    pair_views, string_value, values_equal,
};
use vstd::std_specs::cmp::PartialEqSpecImpl;
use vstd::std_specs::convert::FromSpecImpl;

pub mod builders;

pub use builders::{
    ClerkOptions, CreateOrganizationOptions, GetTokenOptions, OrganizationListOptions, OrganizationProfileOptions,
    OrganizationSwitcherOptions, RedirectOptions, SignInOptions, SignOutOptions, SignUpOptions, TaskSetupMFAOptions,
    UserButtonOptions, UserProfileOptions, WaitlistOptions,
};

verus! {

/// Routing mode for Clerk's embedded UI components.
///
/// This mirrors clerk-js's fixed `hash`/`path` routing set.
#[derive(Debug, Clone, Copy, PartialEq, Eq, Hash, Structural)]
pub enum Routing {
    /// Clerk manages embedded routing through the URL hash.
    Hash,
    /// Clerk manages embedded routing through the current path.
    Path,
}

/// The raw clerk-js routing string.
pub open spec fn routing_text(routing: Routing) -> Seq<char> {
    match routing {
        Routing::Hash => "hash"@,
        Routing::Path => "path"@,
    }
}

impl Routing {
    /// The raw clerk-js routing string.
    pub fn as_str(self) -> (r: &'static str)
        ensures
            r@ == routing_text(self),
    {
        match self {
            Routing::Hash => "hash",
            Routing::Path => "path",
        }
    }
}

/// How the user button opens the user profile UI.
///
/// This mirrors clerk-js's fixed `modal`/`navigation` set.
#[derive(Debug, Clone, Copy, PartialEq, Eq, Hash, Structural)]
pub enum UserProfileMode {
    /// Open the profile as a modal.
    Modal,
    /// Navigate to `user_profile_url`.
    Navigation,
}

/// The raw clerk-js user profile mode string.
pub open spec fn user_profile_mode_text(mode: UserProfileMode) -> Seq<char> {
    match mode {
        UserProfileMode::Modal => "modal"@,
        UserProfileMode::Navigation => "navigation"@,
    }
}

impl UserProfileMode {
    /// The raw clerk-js user profile mode string.
    pub fn as_str(self) -> (r: &'static str)
        ensures
            r@ == user_profile_mode_text(self),
    {
        match self {
            UserProfileMode::Modal => "modal",
            UserProfileMode::Navigation => "navigation",
        }
    }
}

/// Behavior used by sign-in and sign-up buttons.
///
/// Unlike [`Routing`] and [`UserProfileMode`], which mirror clerk-js's fixed
/// option sets, this is a crate-owned concept that may gain variants. It is
/// therefore `#[non_exhaustive]`: match it with a wildcard arm.
#[derive(Debug, Clone, Copy, PartialEq, Eq, Structural)]
#[non_exhaustive]
pub enum AuthButtonMode {
    /// Open Clerk's modal flow on the current page.
    Modal,
    /// Redirect through Clerk's configured sign-in/sign-up URL.
    Redirect,
}

impl Default for AuthButtonMode {
    /// Buttons redirect by default.
    fn default() -> (r: Self)
        ensures
            r == AuthButtonMode::Redirect,
    {
        AuthButtonMode::Redirect
    }
}

impl From<Routing> for serde_json::Value {
    fn from(routing: Routing) -> (r: serde_json::Value) {
        string_value(routing.as_str())
    }
}

impl FromSpecImpl<Routing> for serde_json::Value {
    open spec fn obeys_from_spec() -> bool {
        true
    }

    open spec fn from_spec(routing: Routing) -> serde_json::Value {
        json_string_value(routing_text(routing))
    }
}

impl From<UserProfileMode> for serde_json::Value {
    fn from(mode: UserProfileMode) -> (r: serde_json::Value) {
        string_value(mode.as_str())
    }
}

impl FromSpecImpl<UserProfileMode> for serde_json::Value {
    open spec fn obeys_from_spec() -> bool {
        true
    }

    open spec fn from_spec(mode: UserProfileMode) -> serde_json::Value {
        json_string_value(user_profile_mode_text(mode))
    }
}

/// The mathematical content of an options builder.
pub enum OptionsView {
    /// A JSON value handed in, untouched by any setter.
    Raw(serde_json::Value),
    /// A JSON object with these members.
    Object(Map<Seq<char>, serde_json::Value>),
}

impl OptionsView {
    /// An empty JSON object.
    pub open spec fn empty() -> OptionsView {
        OptionsView::Object(Map::empty())
    }

    /// The JSON value passed to clerk-js.
    pub open spec fn json(self) -> serde_json::Value {
        match self {
            OptionsView::Raw(value) => value,
            OptionsView::Object(members) => json_object(members),
        }
    }

    /// The builder with option `key` set to `value`. A raw value that is not
    /// a JSON object (for example an array, a string or `null`) is replaced
    /// by an empty object before the key is set; a raw object keeps its
    /// other members.
    pub open spec fn set(self, key: Seq<char>, value: serde_json::Value) -> OptionsView {
        match self {
            OptionsView::Raw(raw) => match object_members_of(raw) {
                Some(members) => OptionsView::Object(members.insert(key, value)),
                None => OptionsView::Object(Map::empty().insert(key, value)),
            },
            OptionsView::Object(members) => OptionsView::Object(members.insert(key, value)),
        }
    }
}

/// The JSON an options builder holds.
#[derive(Debug)]
enum OptionsValue {
    /// A value handed in, untouched by any setter.
    Raw(serde_json::Value),
    /// Members set so far, in order: a later pair of a name replaces an
    /// earlier one.
    Pairs(Vec<(String, serde_json::Value)>),
}

/// Owned copies of name/value pairs.
fn clone_pairs(pairs: &Vec<(String, serde_json::Value)>) -> (r: Vec<(String, serde_json::Value)>)
    ensures
        pair_views(r@) == pair_views(pairs@),
{
    let mut out: Vec<(String, serde_json::Value)> = Vec::new();
    let mut i: usize = 0;
    while i < pairs.len()
        invariant
            i <= pairs@.len(),
            pair_views(out@) == pair_views(pairs@.take(i as int)),
        decreases pairs@.len() - i,
    {
        let (name, value) = &pairs[i];
        let ghost before = out@;
        out.push((name.clone(), clone_value(value)));
        assert(pair_views(out@) =~= pair_views(before).push((name@, *value)));
        assert(pair_views(pairs@.take(i + 1)) =~= pair_views(pairs@.take(i as int)).push((name@, *value)));
        i = i + 1;
    }
    assert(pairs@.take(pairs@.len() as int) =~= pairs@);
    out
}

/// The members after appending one pair: that name now maps to that value.
proof fn lemma_push_pair(pairs: Seq<(String, serde_json::Value)>, pair: (String, serde_json::Value))
    ensures
        members_map(pair_views(pairs.push(pair))) == members_map(pair_views(pairs)).insert(pair.0@, pair.1),
{
    assert(pair_views(pairs.push(pair)).drop_last() =~= pair_views(pairs));
}

/// Generic JSON option builder used as the escape hatch for unsupported
/// Clerk options.
#[derive(Debug)]
pub struct JsonOptions {
    value: OptionsValue,
}

/// Two builders are equal when they hand clerk-js equal JSON values.
impl PartialEq for JsonOptions {
    fn eq(&self, other: &Self) -> (r: bool) {
        let mine = self.to_value();
        let theirs = other.to_value();
        values_equal(&mine, &theirs)
    }
}

impl PartialEqSpecImpl for JsonOptions {
    open spec fn obeys_eq_spec() -> bool {
        false
    }

    open spec fn eq_spec(&self, other: &JsonOptions) -> bool {
        self@.json() == other@.json()
    }
}

impl Eq for JsonOptions {
}

impl View for JsonOptions {
    type V = OptionsView;

    closed spec fn view(&self) -> OptionsView {
        match self.value {
            OptionsValue::Raw(value) => OptionsView::Raw(value),
            OptionsValue::Pairs(pairs) => OptionsView::Object(members_map(pair_views(pairs@))),
        }
    }
}

impl Default for JsonOptions {
    fn default() -> (r: Self)
        ensures
            r@ == OptionsView::empty(),
    {
        JsonOptions::new()
    }
}

impl Clone for JsonOptions {
    fn clone(&self) -> (r: Self)
        ensures
            r@ == self@,
    {
        match &self.value {
            OptionsValue::Raw(value) => JsonOptions { value: OptionsValue::Raw(clone_value(value)) },
            OptionsValue::Pairs(pairs) => JsonOptions { value: OptionsValue::Pairs(clone_pairs(pairs)) },
        }
    }
}

impl JsonOptions {
    /// Start with an empty JSON object.
    pub fn new() -> (r: Self)
        ensures
            r@ == OptionsView::empty(),
    {
        let r = JsonOptions { value: OptionsValue::Pairs(Vec::new()) };
        assert(pair_views(Seq::<(String, serde_json::Value)>::empty()) =~= Seq::empty());
        r
    }

    /// The builder wrapping `value`, untouched.
    pub closed spec fn from_value_spec(value: serde_json::Value) -> JsonOptions {
        JsonOptions { value: OptionsValue::Raw(value) }
    }

    /// Wrap an already-built JSON value.
    pub fn from_value(value: serde_json::Value) -> (r: Self)
        ensures
            r@ == OptionsView::Raw(value),
            r == JsonOptions::from_value_spec(value),
    {
        JsonOptions { value: OptionsValue::Raw(value) }
    }

    /// Set a raw clerk-js option by its JavaScript key.
    ///
    /// If the wrapped value is not a JSON object (for example a
    /// [`JsonOptions::from_value`] array or string), it is replaced with an
    /// empty object before the key is set.
    pub fn option(self, key: &str, value: serde_json::Value) -> (r: Self)
        ensures
            r@ == self@.set(key@, value),
    {
        let pair = (key.to_owned(), value);
        match self.value {
            OptionsValue::Raw(raw) => {
                let ghost handed_in = raw;
                match object_pairs(raw) {
                    Ok(pairs) => {
                        proof {
                            let m = members_map(pair_views(pairs@));
                            assert(json_object(m) == handed_in);
                            assert(object_members_of(handed_in) == Some(m));
                            lemma_push_pair(pairs@, pair);
                        }
                        let mut pairs = pairs;
                        pairs.push(pair);
                        JsonOptions { value: OptionsValue::Pairs(pairs) }
                    },
                    Err(_) => {
                        let mut pairs: Vec<(String, serde_json::Value)> = Vec::new();
                        proof {
                            assert(object_members_of(handed_in) is None);
                            assert(pair_views(pairs@) =~= Seq::empty());
                            lemma_push_pair(pairs@, pair);
                        }
                        pairs.push(pair);
                        JsonOptions { value: OptionsValue::Pairs(pairs) }
                    },
                }
            },
            OptionsValue::Pairs(pairs) => {
                proof {
                    lemma_push_pair(pairs@, pair);
                }
                let mut pairs = pairs;
                pairs.push(pair);
                JsonOptions { value: OptionsValue::Pairs(pairs) }
            },
        }
    }

    /// Convert into the raw JSON value passed to clerk-js.
    pub fn into_value(self) -> (r: serde_json::Value)
        ensures
            r == self@.json(),
    {
        match self.value {
            OptionsValue::Raw(value) => value,
            OptionsValue::Pairs(pairs) => object_value(pairs),
        }
    }

    /// The raw JSON value passed to clerk-js, leaving the builder in place.
    pub(crate) fn to_value(&self) -> (r: serde_json::Value)
        ensures
            r == self@.json(),
    {
        match &self.value {
            OptionsValue::Raw(value) => clone_value(value),
            OptionsValue::Pairs(pairs) => {
                let copy = clone_pairs(pairs);
                object_value(copy)
            },
        }
    }
}

impl From<JsonOptions> for serde_json::Value {
    fn from(options: JsonOptions) -> (r: serde_json::Value) {
        options.into_value()
    }
}

impl FromSpecImpl<JsonOptions> for serde_json::Value {
    open spec fn obeys_from_spec() -> bool {
        true
    }

    open spec fn from_spec(options: JsonOptions) -> serde_json::Value {
        options@.json()
    }
}

impl<'a> From<&'a JsonOptions> for serde_json::Value {
    fn from(options: &'a JsonOptions) -> (r: serde_json::Value) {
        options.to_value()
    }
}

impl<'a> FromSpecImpl<&'a JsonOptions> for serde_json::Value {
    open spec fn obeys_from_spec() -> bool {
        true
    }

    open spec fn from_spec(options: &'a JsonOptions) -> serde_json::Value {
        options@.json()
    }
}

/// The members a builder's value already has: its own, those of a raw JSON
/// object, or none for any other raw value.
pub open spec fn base_members(options: OptionsView) -> Map<Seq<char>, serde_json::Value> {
    match options {
        OptionsView::Object(members) => members,
        OptionsView::Raw(raw) => match object_members_of(raw) {
            Some(members) => members,
            None => Map::empty(),
        },
    }
}

/// A setter that runs overrides whatever the value held for its key (the
/// raw options an app passes lose to explicit props) and keeps every other
/// member; a raw value no setter touched reaches clerk-js as it was handed
/// in, `null` included.
pub proof fn lemma_set_overrides(options: OptionsView, key: Seq<char>, value: serde_json::Value)
    ensures
        options.set(key, value) == OptionsView::Object(base_members(options).insert(key, value)),
        options.set(key, value).json() == json_object(base_members(options).insert(key, value)),
        options matches OptionsView::Raw(raw) ==> options.json() == raw,
{
}

} // verus!
