//! Shared SSR initial state schema and lifecycle helpers, used by both the
//! server and the client so producer, consumer, and interpretation semantics
//! stay in one place.
use vstd::prelude::*;

use crate::auth::claims::ClerkAuth;
use crate::auth::error::ClerkError;
use crate::auth::state::{runtime_from_snapshot, AuthRuntimeState};
use crate::auth::verification::VerificationOutcome;
use crate::text::{clone_opt_string, clone_strings, push_str, same_text};

verus! {

/// Server-side auth resolution carried by the SSR initial state.
///
/// Distinguishes "the server verified this request" (signed-in or signed-out)
/// from "verification never happened" (`Unverified`).
#[derive(Debug, Clone, Copy, PartialEq, Eq, Hash, Structural)]
#[non_exhaustive]
pub enum InitialAuthStatus {
    /// The server verified a signed-in session.
    SignedIn,
    /// The server verified the request and found no valid session.
    SignedOut,
    /// The server did not (or could not) verify the request. Also the reading
    /// of any status string this crate has not named yet.
    Unverified,
}

impl InitialAuthStatus {
    /// The wire string of a status.
    pub open spec fn spec_wire_name(self) -> Seq<char> {
        match self {
            InitialAuthStatus::SignedIn => "signed_in"@,
            InitialAuthStatus::SignedOut => "signed_out"@,
            InitialAuthStatus::Unverified => "unverified"@,
        }
    }

    /// The wire string of a status (`snake_case`).
    pub fn wire_name(self) -> (r: &'static str)
        ensures
            r@ == self.spec_wire_name(),
    {
        match self {
            InitialAuthStatus::SignedIn => "signed_in",
            InitialAuthStatus::SignedOut => "signed_out",
            InitialAuthStatus::Unverified => "unverified",
        }
    }

    /// Reads a wire status string; any string this crate has not named
    /// degrades to [`InitialAuthStatus::Unverified`].
    pub fn from_wire(text: &str) -> (r: Self)
        ensures
            text@ == "signed_in"@ ==> r == InitialAuthStatus::SignedIn,
            text@ == "signed_out"@ ==> r == InitialAuthStatus::SignedOut,
            text@ != "signed_in"@ && text@ != "signed_out"@ ==> r == InitialAuthStatus::Unverified,
    {
        proof {
            reveal_strlit("signed_in");
            reveal_strlit("signed_out");
            assert("signed_in"@[7] != "signed_out"@[7]);
        }
        if same_text(text, "signed_in") {
            InitialAuthStatus::SignedIn
        } else if same_text(text, "signed_out") {
            InitialAuthStatus::SignedOut
        } else {
            InitialAuthStatus::Unverified
        }
    }
}

/// Server-verified auth snapshot carried by the SSR initial state. It has no
/// browser loadedness field.
#[derive(Debug, PartialEq, Eq)]
#[non_exhaustive]
pub struct InitialAuthSnapshot {
    /// Server-side auth resolution for this render.
    pub status: InitialAuthStatus,
    /// Clerk user id, if signed in.
    pub user_id: Option<String>,
    /// Active session id, if signed in and available.
    pub session_id: Option<String>,
    /// Active organization id, if any.
    pub org_id: Option<String>,
    /// Active organization slug, if any.
    pub org_slug: Option<String>,
    /// Organization role from verified server auth, if any.
    pub org_role: Option<String>,
    /// Organization permissions from verified server auth.
    pub org_permissions: Vec<String>,
}

impl InitialAuthSnapshot {
    /// A snapshot of the given status with every optional field unset.
    pub open spec fn bare(self, status: InitialAuthStatus) -> bool {
        &&& self.status == status
        &&& self.user_id is None
        &&& self.session_id is None
        &&& self.org_id is None
        &&& self.org_slug is None
        &&& self.org_role is None
        &&& self.org_permissions@.len() == 0
    }

    /// The snapshot that server-verified claims produce.
    pub open spec fn from_auth_spec(self, auth: ClerkAuth) -> bool {
        if auth.user_id@.len() == 0 {
            self.bare(InitialAuthStatus::SignedOut)
        } else {
            &&& self.status == InitialAuthStatus::SignedIn
            &&& self.user_id.deep_view() == Some(auth.user_id@)
            &&& self.session_id.deep_view() == auth.session_id.deep_view()
            &&& self.org_id.deep_view() == auth.org_id.deep_view()
            &&& self.org_slug.deep_view() == auth.org_slug.deep_view()
            &&& self.org_role.deep_view() == auth.org_role.deep_view()
            &&& self.org_permissions.deep_view() == auth.org_permissions.deep_view()
        }
    }

    /// The snapshot is signed in as the claims' user and holds each of the
    /// claims' organization fields, every permission at its own position.
    pub open spec fn carries_claims_of(self, auth: ClerkAuth) -> bool {
        &&& self.status == InitialAuthStatus::SignedIn
        &&& self.user_id matches Some(u) && u@ == auth.user_id@
        &&& (self.session_id matches Some(x) ==> auth.session_id matches Some(y) && x@ == y@)
        &&& (auth.session_id matches Some(y) ==> self.session_id matches Some(x) && x@ == y@)
        &&& (self.org_id matches Some(x) ==> auth.org_id matches Some(y) && x@ == y@)
        &&& (auth.org_id matches Some(y) ==> self.org_id matches Some(x) && x@ == y@)
        &&& (self.org_slug matches Some(x) ==> auth.org_slug matches Some(y) && x@ == y@)
        &&& (auth.org_slug matches Some(y) ==> self.org_slug matches Some(x) && x@ == y@)
        &&& (self.org_role matches Some(x) ==> auth.org_role matches Some(y) && x@ == y@)
        &&& (auth.org_role matches Some(y) ==> self.org_role matches Some(x) && x@ == y@)
        &&& self.org_permissions@.len() == auth.org_permissions@.len()
        &&& forall|i: int|
            0 <= i < auth.org_permissions@.len() ==> #[trigger] self.org_permissions@[i]@
                == auth.org_permissions@[i]@
    }

    /// Two snapshots with the same content.
    pub open spec fn same_as(self, other: InitialAuthSnapshot) -> bool {
        &&& self.status == other.status
        &&& self.user_id.deep_view() == other.user_id.deep_view()
        &&& self.session_id.deep_view() == other.session_id.deep_view()
        &&& self.org_id.deep_view() == other.org_id.deep_view()
        &&& self.org_slug.deep_view() == other.org_slug.deep_view()
        &&& self.org_role.deep_view() == other.org_role.deep_view()
        &&& self.org_permissions.deep_view() == other.org_permissions.deep_view()
    }

    /// Initial auth snapshot for a server-verified anonymous render.
    pub fn signed_out() -> (r: Self)
        ensures
            r.bare(InitialAuthStatus::SignedOut),
    {
        InitialAuthSnapshot {
            status: InitialAuthStatus::SignedOut,
            user_id: None,
            session_id: None,
            org_id: None,
            org_slug: None,
            org_role: None,
            org_permissions: Vec::new(),
        }
    }

    /// Initial auth snapshot for a render where the server did not verify
    /// the request. Seeds a loading state on the client, not signed-out.
    pub fn unverified() -> (r: Self)
        ensures
            r.bare(InitialAuthStatus::Unverified),
    {
        InitialAuthSnapshot {
            status: InitialAuthStatus::Unverified,
            user_id: None,
            session_id: None,
            org_id: None,
            org_slug: None,
            org_role: None,
            org_permissions: Vec::new(),
        }
    }

    /// Initial auth snapshot for a server-verified signed-in session. An
    /// empty user id produces [`InitialAuthSnapshot::signed_out`].
    pub fn signed_in(user_id: &str) -> (r: Self)
        ensures
            user_id@.len() == 0 ==> r.bare(InitialAuthStatus::SignedOut),
            user_id@.len() > 0 ==> {
                &&& r.status == InitialAuthStatus::SignedIn
                &&& r.user_id.deep_view() == Some(user_id@)
                &&& r.session_id is None
                &&& r.org_id is None
                &&& r.org_slug is None
                &&& r.org_role is None
                &&& r.org_permissions@.len() == 0
            },
    {
        if user_id.is_empty() {
            return InitialAuthSnapshot::signed_out();
        }
        InitialAuthSnapshot {
            status: InitialAuthStatus::SignedIn,
            user_id: Some(user_id.to_owned()),
            session_id: None,
            org_id: None,
            org_slug: None,
            org_role: None,
            org_permissions: Vec::new(),
        }
    }

    /// Whether the server verified a signed-in session.
    pub fn is_signed_in(&self) -> (r: bool)
        ensures
            r == (self.status == InitialAuthStatus::SignedIn),
    {
        matches!(self.status, InitialAuthStatus::SignedIn)
    }

    /// The snapshot of server-verified claims; an empty user id produces the
    /// signed-out snapshot.
    pub fn from_auth(auth: &ClerkAuth) -> (r: Self)
        ensures
            r.from_auth_spec(*auth),
            auth.user_id@.len() > 0 ==> r.carries_claims_of(*auth),
    {
        if auth.user_id.as_str().is_empty() {
            return InitialAuthSnapshot::signed_out();
        }
        let r = InitialAuthSnapshot {
            status: InitialAuthStatus::SignedIn,
            user_id: Some(auth.user_id.clone()),
            session_id: clone_opt_string(&auth.session_id),
            org_id: clone_opt_string(&auth.org_id),
            org_slug: clone_opt_string(&auth.org_slug),
            org_role: clone_opt_string(&auth.org_role),
            org_permissions: clone_strings(&auth.org_permissions),
        };
        proof {
            lemma_snapshot_carries_claims(r, *auth);
        }
        r
    }
}

impl Clone for InitialAuthSnapshot {
    fn clone(&self) -> (r: Self)
        ensures
            r.same_as(*self),
    {
        InitialAuthSnapshot {
            status: self.status,
            user_id: clone_opt_string(&self.user_id),
            session_id: clone_opt_string(&self.session_id),
            org_id: clone_opt_string(&self.org_id),
            org_slug: clone_opt_string(&self.org_slug),
            org_role: clone_opt_string(&self.org_role),
            org_permissions: clone_strings(&self.org_permissions),
        }
    }
}

/// Stable id of the `<script>` element carrying the SSR initial state.
pub const INITIAL_STATE_SCRIPT_ID: &'static str = "__clerk_initial_state";

/// Canonical shape of the SSR initial state: the verified auth snapshot and
/// the publishable key the server rendered with.
#[derive(Debug, PartialEq, Eq)]
#[non_exhaustive]
pub struct InitialState {
    /// Verified auth snapshot at the moment of server render.
    pub auth: InitialAuthSnapshot,
    /// Publishable key forwarded from the server-side provider, if any.
    pub publishable_key: Option<String>,
}

/// The lowercase hexadecimal digit of `n`, for `n` below 16.
pub open spec fn hex_digit(n: int) -> char {
    if n < 10 {
        (('0' as int) + n) as char
    } else {
        (('a' as int) + n - 10) as char
    }
}

/// How one character is written inside a JSON string: `"` and `\` behind a
/// backslash, the control characters below U+0020 as `\b`, `\t`, `\n`,
/// `\f`, `\r` or `\u00XX` (lowercase hex), every other character as itself.
pub open spec fn json_escaped_char(c: char) -> Seq<char> {
    if c == '"' {
        seq!['\\', '"']
    } else if c == '\\' {
        seq!['\\', '\\']
    } else if c == '\u{8}' {
        seq!['\\', 'b']
    } else if c == '\t' {
        seq!['\\', 't']
    } else if c == '\n' {
        seq!['\\', 'n']
    } else if c == '\u{c}' {
        seq!['\\', 'f']
    } else if c == '\r' {
        seq!['\\', 'r']
    } else if (c as int) < 0x20 {
        seq!['\\', 'u', '0', '0', hex_digit((c as int) / 16), hex_digit((c as int) % 16)]
    } else {
        seq![c]
    }
}

/// The characters of `text`, each written as inside a JSON string.
pub open spec fn json_escaped(text: Seq<char>) -> Seq<char>
    decreases text.len(),
{
    if text.len() == 0 {
        Seq::empty()
    } else {
        json_escaped(text.drop_last()) + json_escaped_char(text.last())
    }
}

/// The JSON string literal holding `text`: its escaped characters between
/// double quotes.
pub open spec fn json_string_literal(text: Seq<char>) -> Seq<char> {
    seq!['"'] + json_escaped(text) + seq!['"']
}

/// `serde_json::to_string` on a string slice: the JSON string literal of
/// the text, quoted and escaped as [`json_string_literal`] states.
/// Serializing a `str` cannot fail (it holds no map keys and its `Serialize`
/// impl never errors).
#[verifier::external_body]
fn json_string(text: &str) -> (r: String)
    ensures
        r@ == json_string_literal(text@),
{
    serde_json::to_string(text).unwrap_or_default()
}

/// JSON for an optional string: the string literal, or `null`.
pub open spec fn json_opt_string(o: Option<Seq<char>>) -> Seq<char> {
    match o {
        Some(s) => json_string_literal(s),
        None => "null"@,
    }
}

/// The comma-separated JSON string literals of `items`.
pub open spec fn json_list_body(items: Seq<Seq<char>>) -> Seq<char>
    decreases items.len(),
{
    if items.len() == 0 {
        Seq::empty()
    } else if items.len() == 1 {
        json_string_literal(items[0])
    } else {
        json_list_body(items.drop_last()) + ","@ + json_string_literal(items.last())
    }
}

/// The JSON text of an initial state, in field order.
pub open spec fn initial_state_json_text(state: InitialState) -> Seq<char> {
    "{\"auth\":{\"status\":"@ + json_string_literal(state.auth.status.spec_wire_name())
        + ",\"user_id\":"@ + json_opt_string(state.auth.user_id.deep_view())
        + ",\"session_id\":"@ + json_opt_string(state.auth.session_id.deep_view())
        + ",\"org_id\":"@ + json_opt_string(state.auth.org_id.deep_view())
        + ",\"org_slug\":"@ + json_opt_string(state.auth.org_slug.deep_view())
        + ",\"org_role\":"@ + json_opt_string(state.auth.org_role.deep_view())
        + ",\"org_permissions\":["@ + json_list_body(state.auth.org_permissions.deep_view())
        + "]},\"publishable_key\":"@ + json_opt_string(state.publishable_key.deep_view()) + "}"@
}

/// The characters `\u003c`: the JSON escape of `<`.
pub open spec fn escaped_lt() -> Seq<char> {
    "\\u003c"@
}

/// `text` with every `<` replaced by its JSON escape `\u003c`.
pub open spec fn escape_lt(text: Seq<char>) -> Seq<char>
    decreases text.len(),
{
    if text.len() == 0 {
        Seq::empty()
    } else {
        escape_lt(text.drop_last()) + if text.last() == '<' {
            escaped_lt()
        } else {
            seq![text.last()]
        }
    }
}

/// The opening tag of the initial state script element.
pub open spec fn script_open_tag() -> Seq<char> {
    "<script id=\"__clerk_initial_state\" type=\"application/json\">"@
}

/// The escaped body of an initial state script never holds a `<`, so an
/// untrusted string can neither close the script element nor open a comment.
/// The snapshot that verified claims of a user seed carries exactly those
/// claims: signed in as their user, with their session and organization
/// fields, and every one of their permissions, in order, and no other.
pub proof fn lemma_snapshot_carries_claims(s: InitialAuthSnapshot, auth: ClerkAuth)
    requires
        s.from_auth_spec(auth),
        auth.user_id@.len() > 0,
    ensures
        s.carries_claims_of(auth),
{
    assert(s.org_permissions.deep_view().len() == s.org_permissions@.len());
    assert(auth.org_permissions.deep_view().len() == auth.org_permissions@.len());
    assert forall|i: int| 0 <= i < auth.org_permissions@.len() implies #[trigger] s.org_permissions@[i]@
        == auth.org_permissions@[i]@ by {
        assert(s.org_permissions.deep_view()[i] == s.org_permissions@[i]@);
        assert(auth.org_permissions.deep_view()[i] == auth.org_permissions@[i]@);
    }
}

pub proof fn lemma_escape_lt_has_no_lt(text: Seq<char>)
    ensures
        !escape_lt(text).contains('<'),
    decreases text.len(),
{
    reveal_strlit("\\u003c");
    if text.len() > 0 {
        lemma_escape_lt_has_no_lt(text.drop_last());
        let rest = escape_lt(text.drop_last());
        let tail = if text.last() == '<' {
            escaped_lt()
        } else {
            seq![text.last()]
        };
        assert(escape_lt(text) == rest + tail);
        assert forall|i: int| 0 <= i < escape_lt(text).len() implies escape_lt(text)[i] != '<' by {
            if i < rest.len() {
                assert(escape_lt(text)[i] == rest[i]);
            } else {
                assert(escape_lt(text)[i] == tail[i - rest.len()]);
            }
        }
    }
}

/// Appends `text` to `out` with every `<` escaped.
fn push_escaped(out: &mut String, text: &str)
    ensures
        final(out)@ == old(out)@ + escape_lt(text@),
{
    let chars = crate::text::chars_of(text);
    let mut i: usize = 0;
    while i < chars.len()
        invariant
            chars@ == text@,
            i <= chars@.len(),
            out@ == old(out)@ + escape_lt(chars@.take(i as int)),
        decreases chars@.len() - i,
    {
        let c = chars[i];
        assert(chars@.take(i + 1).drop_last() == chars@.take(i as int));
        if c == '<' {
            push_str(out, "\\u003c");
        } else {
            let one = [c];
            crate::text::push_chars(out, &one);
            assert(one@ == seq![c]);
        }
        i = i + 1;
    }
    assert(chars@.take(chars@.len() as int) == chars@);
}

fn push_json_opt(out: &mut String, o: &Option<String>)
    ensures
        final(out)@ == old(out)@ + json_opt_string(o.deep_view()),
{
    match o {
        Some(s) => {
            let lit = json_string(s.as_str());
            push_str(out, lit.as_str());
        },
        None => push_str(out, "null"),
    }
}

fn push_json_list_body(out: &mut String, items: &Vec<String>)
    ensures
        final(out)@ == old(out)@ + json_list_body(items.deep_view()),
{
    let mut i: usize = 0;
    while i < items.len()
        invariant
            i <= items@.len(),
            out@ == old(out)@ + json_list_body(items.deep_view().take(i as int)),
        decreases items@.len() - i,
    {
        let ghost before = out@;
        if i > 0 {
            push_str(out, ",");
        }
        let lit = json_string(items[i].as_str());
        push_str(out, lit.as_str());
        proof {
            let t = items.deep_view().take(i + 1);
            assert(t.drop_last() =~= items.deep_view().take(i as int));
            assert(t.last() == items[i as int]@);
            if i == 0 {
                assert(items.deep_view().take(0) =~= Seq::<Seq<char>>::empty());
            }
        }
        i = i + 1;
    }
    assert(items.deep_view().take(items@.len() as int) =~= items.deep_view());
}

impl InitialState {
    /// Two initial states with the same content.
    pub open spec fn same_as(self, other: InitialState) -> bool {
        &&& self.auth.same_as(other.auth)
        &&& self.publishable_key.deep_view() == other.publishable_key.deep_view()
    }

    /// Build SSR initial state from an auth snapshot and an optional publishable key.
    pub fn new(auth: InitialAuthSnapshot, publishable_key: Option<&str>) -> (r: Self)
        ensures
            r.auth == auth,
            r.publishable_key.deep_view() == crate::text::opt_text(publishable_key),
    {
        let publishable_key = match publishable_key {
            Some(key) => Some(key.to_owned()),
            None => None,
        };
        InitialState { auth, publishable_key }
    }

    /// Build SSR initial state from server-verified auth (signed out when
    /// there is none) and an optional publishable key.
    pub fn from_verified_auth(auth: Option<&ClerkAuth>, publishable_key: Option<&str>) -> (r: Self)
        ensures
            match auth {
                Some(a) => r.auth.from_auth_spec(*a) && (a.user_id@.len() > 0 ==> r.auth.carries_claims_of(*a)),
                None => r.auth.bare(InitialAuthStatus::SignedOut),
            },
            r.publishable_key.deep_view() == crate::text::opt_text(publishable_key),
    {
        let snapshot = match auth {
            Some(a) => InitialAuthSnapshot::from_auth(a),
            None => InitialAuthSnapshot::signed_out(),
        };
        InitialState::new(snapshot, publishable_key)
    }

    /// Build SSR initial state from a server verification outcome: a valid
    /// outcome contributes signed-in auth, a verified non-session (missing or
    /// invalid credentials) seeds signed-out, and no outcome or an
    /// unavailable verifier seeds an unverified snapshot.
    pub fn from_outcome(outcome: Option<&VerificationOutcome>, publishable_key: Option<&str>) -> (r: Self)
        ensures
            match outcome {
                Some(VerificationOutcome::Valid(a)) => r.auth.from_auth_spec(*a) && (a.user_id@.len() > 0
                    ==> r.auth.carries_claims_of(*a)),
                Some(VerificationOutcome::Missing) => r.auth.bare(InitialAuthStatus::SignedOut),
                Some(VerificationOutcome::Invalid(_)) => r.auth.bare(InitialAuthStatus::SignedOut),
                _ => r.auth.bare(InitialAuthStatus::Unverified),
            },
            r.publishable_key.deep_view() == crate::text::opt_text(publishable_key),
    {
        let snapshot = match outcome {
            Some(VerificationOutcome::Valid(a)) => InitialAuthSnapshot::from_auth(a),
            Some(VerificationOutcome::Missing) => InitialAuthSnapshot::signed_out(),
            Some(VerificationOutcome::Invalid(_)) => InitialAuthSnapshot::signed_out(),
            _ => InitialAuthSnapshot::unverified(),
        };
        InitialState::new(snapshot, publishable_key)
    }

    /// The JSON body of the initial state script, with every `<` escaped as
    /// `\u003c` so it is safe to embed inside a `<script>` element.
    pub fn script_json(&self) -> (r: String)
        ensures
            r@ == escape_lt(initial_state_json_text(*self)),
    {
        let mut json = String::new();
        push_str(&mut json, "{\"auth\":{\"status\":");
        let status = json_string(self.auth.status.wire_name());
        push_str(&mut json, status.as_str());
        push_str(&mut json, ",\"user_id\":");
        push_json_opt(&mut json, &self.auth.user_id);
        push_str(&mut json, ",\"session_id\":");
        push_json_opt(&mut json, &self.auth.session_id);
        push_str(&mut json, ",\"org_id\":");
        push_json_opt(&mut json, &self.auth.org_id);
        push_str(&mut json, ",\"org_slug\":");
        push_json_opt(&mut json, &self.auth.org_slug);
        push_str(&mut json, ",\"org_role\":");
        push_json_opt(&mut json, &self.auth.org_role);
        push_str(&mut json, ",\"org_permissions\":[");
        push_json_list_body(&mut json, &self.auth.org_permissions);
        push_str(&mut json, "]},\"publishable_key\":");
        push_json_opt(&mut json, &self.publishable_key);
        push_str(&mut json, "}");
        assert(json@ =~= initial_state_json_text(*self));
        let mut out = String::new();
        push_escaped(&mut out, json.as_str());
        assert(out@ =~= escape_lt(initial_state_json_text(*self)));
        out
    }

    /// The safe `<script id="__clerk_initial_state">` HTML fragment for this
    /// SSR initial state.
    pub fn script_html(&self) -> (r: String)
        ensures
            r@ == script_open_tag() + escape_lt(initial_state_json_text(*self)) + "</script>"@,
    {
        let mut out = String::new();
        push_str(&mut out, "<script id=\"__clerk_initial_state\" type=\"application/json\">");
        let json = self.script_json();
        push_str(&mut out, json.as_str());
        push_str(&mut out, "</script>");
        assert(out@ =~= script_open_tag() + escape_lt(initial_state_json_text(*self)) + "</script>"@);
        out
    }
}

impl Clone for InitialState {
    fn clone(&self) -> (r: Self)
        ensures
            r.same_as(*self),
    {
        InitialState {
            auth: self.auth.clone(),
            publishable_key: clone_opt_string(&self.publishable_key),
        }
    }
}

/// Result of reading the SSR seed, before interpretation.
#[derive(Debug)]
pub enum InitialStateRead {
    /// No SSR initial state script exists. This is normal for web-only apps.
    Missing,
    /// An initial state script existed and parsed successfully.
    Present(InitialState),
    /// An initial state script existed but could not be parsed.
    Malformed(String),
}

/// Provider-ready facts derived from SSR initial state discovery and
/// explicit provider config.
#[derive(Debug)]
pub struct ProviderStartup {
    /// Initial provider runtime auth state.
    pub auth: AuthRuntimeState,
    /// Effective publishable key for clerk-js initialization.
    pub publishable_key: Option<String>,
    /// Non-fatal configuration warning, if any.
    pub warning: Option<ClerkError>,
    /// Escaped initial-state JSON for the provider to re-emit, if any.
    pub initial_state_json: Option<String>,
}

/// Interpret an SSR seed read into provider-ready startup facts.
///
/// A `Missing` or `Malformed` seed stays loading, not signed-out, because
/// nothing was verified. For a `Present` seed the explicit provider key wins
/// over the seed's key (a differing seed key is reported as a warning), and
/// the seed JSON is re-emitted.
pub fn provider_startup_from_read(read: InitialStateRead, prop_publishable_key: Option<String>) -> (r: ProviderStartup)
    ensures
        match read {
            InitialStateRead::Missing => {
                &&& r.auth@ == runtime_from_snapshot_missing()
                &&& r.publishable_key == prop_publishable_key
                &&& r.warning is None
                &&& r.initial_state_json is None
            },
            InitialStateRead::Malformed(message) => {
                &&& r.auth@ == runtime_from_snapshot_missing()
                &&& r.publishable_key == prop_publishable_key
                &&& r.warning matches Some(ClerkError::InvalidConfig(m)) && m@ == "malformed SSR initial state: "@ + message@
                &&& r.initial_state_json is None
            },
            InitialStateRead::Present(state) => {
                &&& r.auth@ == runtime_from_snapshot(state.auth)
                &&& r.publishable_key.deep_view() == match prop_publishable_key {
                    Some(k) => Some(k@),
                    None => state.publishable_key.deep_view(),
                }
                &&& match (prop_publishable_key, state.publishable_key) {
                    (Some(p), Some(k)) => if p@ != k@ {
                        r.warning matches Some(ClerkError::InvalidConfig(m)) && m@ == key_mismatch_message()
                    } else {
                        r.warning is None
                    },
                    _ => r.warning is None,
                }
                &&& r.initial_state_json matches Some(json) && json@ == escape_lt(initial_state_json_text(state))
            },
        },
{
    match read {
        InitialStateRead::Missing => ProviderStartup {
            auth: AuthRuntimeState::loading(),
            publishable_key: prop_publishable_key,
            warning: None,
            initial_state_json: None,
        },
        InitialStateRead::Malformed(message) => {
            let mut text = String::new();
            push_str(&mut text, "malformed SSR initial state: ");
            push_str(&mut text, message.as_str());
            ProviderStartup {
                auth: AuthRuntimeState::loading(),
                publishable_key: prop_publishable_key,
                warning: Some(ClerkError::InvalidConfig(text)),
                initial_state_json: None,
            }
        },
        InitialStateRead::Present(initial_state) => {
            let auth = AuthRuntimeState::from_initial_auth_snapshot(&initial_state.auth);
            let warning = match (&prop_publishable_key, &initial_state.publishable_key) {
                (Some(prop), Some(state)) => if !same_text(prop.as_str(), state.as_str()) {
                    let mut text = String::new();
                    push_str(
                        &mut text,
                        "SSR initial state publishable key mismatch; using ClerkProvider publishable_key prop",
                    );
                    Some(ClerkError::InvalidConfig(text))
                } else {
                    None
                },
                _ => None,
            };
            let publishable_key = match prop_publishable_key {
                Some(key) => Some(key),
                None => clone_opt_string(&initial_state.publishable_key),
            };
            let json = initial_state.script_json();
            ProviderStartup { auth, publishable_key, warning, initial_state_json: Some(json) }
        },
    }
}

/// The runtime state a missing or unreadable seed leaves the provider in:
/// loading, not loaded.
pub open spec fn runtime_from_snapshot_missing() -> crate::auth::state::AuthRuntimeView {
    crate::auth::state::AuthRuntimeView { kind: crate::auth::state::RuntimeKind::Loading, is_loaded: false }
}

/// The warning text for a seed key that differs from the provider's key.
pub open spec fn key_mismatch_message() -> Seq<char> {
    "SSR initial state publishable key mismatch; using ClerkProvider publishable_key prop"@
}

} // verus!
