//! Typed mirrors of the clerk-js `User` and `Session` shapes this crate reads.
use vstd::prelude::*;

use crate::text::{clone_opt_string, same_text};

verus! {

/// Whether `s` is one of the session status strings with a named variant.
pub open spec fn is_known_status(s: Seq<char>) -> bool {
    ||| s == "active"@
    ||| s == "abandoned"@
    ||| s == "ended"@
    ||| s == "expired"@
    ||| s == "pending"@
    ||| s == "removed"@
    ||| s == "replaced"@
    ||| s == "revoked"@
}

/// The raw clerk-js string of a session status.
pub open spec fn status_text(status: SessionStatus) -> Seq<char> {
    match status {
        SessionStatus::Active => "active"@,
        SessionStatus::Abandoned => "abandoned"@,
        SessionStatus::Ended => "ended"@,
        SessionStatus::Expired => "expired"@,
        SessionStatus::Pending => "pending"@,
        SessionStatus::Removed => "removed"@,
        SessionStatus::Replaced => "replaced"@,
        SessionStatus::Revoked => "revoked"@,
        SessionStatus::Other(other) => other@,
    }
}

/// Session status as reported by clerk-js. Statuses this crate has not named
/// yet round-trip through [`SessionStatus::Other`].
#[derive(Debug, PartialEq, Eq, Hash)]
#[non_exhaustive]
pub enum SessionStatus {
    /// The session is valid and the user is signed in.
    Active,
    /// The user abandoned the auth flow before the session became active.
    Abandoned,
    /// The session ended, for example by signing out of it.
    Ended,
    /// The session expired.
    Expired,
    /// The session requires additional steps (for example MFA) before it is active.
    Pending,
    /// The session was removed.
    Removed,
    /// The session was replaced by a newer session.
    Replaced,
    /// The session was revoked.
    Revoked,
    /// A status string this crate has not named yet.
    Other(OtherStatus),
}

/// A clerk-js session status string with no named [`SessionStatus`] variant.
/// It has no public constructor, so it never holds a value a named variant
/// would represent.
#[derive(Debug, PartialEq, Eq, Hash)]
pub struct OtherStatus(String);

impl View for OtherStatus {
    type V = Seq<char>;

    closed spec fn view(&self) -> Seq<char> {
        self.0@
    }
}

impl OtherStatus {
    #[verifier::type_invariant]
    spec fn inv(self) -> bool {
        !is_known_status(self.0@)
    }

    /// The raw clerk-js status string; never one a named variant represents.
    pub fn as_str(&self) -> (r: &str)
        ensures
            r@ == self@,
            !is_known_status(self@),
    {
        proof {
            use_type_invariant(self);
        }
        self.0.as_str()
    }
}

impl Clone for OtherStatus {
    fn clone(&self) -> (r: Self)
        ensures
            r == *self,
    {
        proof {
            use_type_invariant(self);
        }
        OtherStatus(self.0.clone())
    }
}

impl SessionStatus {
    /// The raw clerk-js status string.
    pub fn as_str(&self) -> (r: &str)
        ensures
            r@ == status_text(*self),
    {
        match self {
            SessionStatus::Active => "active",
            SessionStatus::Abandoned => "abandoned",
            SessionStatus::Ended => "ended",
            SessionStatus::Expired => "expired",
            SessionStatus::Pending => "pending",
            SessionStatus::Removed => "removed",
            SessionStatus::Replaced => "replaced",
            SessionStatus::Revoked => "revoked",
            SessionStatus::Other(status) => status.as_str(),
        }
    }

    /// The named variant for a known status string.
    pub fn from_known(status: &str) -> (r: Option<Self>)
        ensures
            (r is Some) == is_known_status(status@),
            r matches Some(s) ==> status_text(s) == status@ && !(s is Other),
    {
        if same_text(status, "active") {
            Some(SessionStatus::Active)
        } else if same_text(status, "abandoned") {
            Some(SessionStatus::Abandoned)
        } else if same_text(status, "ended") {
            Some(SessionStatus::Ended)
        } else if same_text(status, "expired") {
            Some(SessionStatus::Expired)
        } else if same_text(status, "pending") {
            Some(SessionStatus::Pending)
        } else if same_text(status, "removed") {
            Some(SessionStatus::Removed)
        } else if same_text(status, "replaced") {
            Some(SessionStatus::Replaced)
        } else if same_text(status, "revoked") {
            Some(SessionStatus::Revoked)
        } else {
            None
        }
    }

    /// Canonicalizes a status string: known strings map to their named
    /// variant, anything else to [`SessionStatus::Other`].
    pub fn from_text(status: &str) -> (r: Self)
        ensures
            status_text(r) == status@,
            (r is Other) == !is_known_status(status@),
    {
        match SessionStatus::from_known(status) {
            Some(s) => s,
            None => SessionStatus::Other(OtherStatus(status.to_owned())),
        }
    }
}

impl Clone for SessionStatus {
    fn clone(&self) -> (r: Self)
        ensures
            r == *self,
    {
        match self {
            SessionStatus::Active => SessionStatus::Active,
            SessionStatus::Abandoned => SessionStatus::Abandoned,
            SessionStatus::Ended => SessionStatus::Ended,
            SessionStatus::Expired => SessionStatus::Expired,
            SessionStatus::Pending => SessionStatus::Pending,
            SessionStatus::Removed => SessionStatus::Removed,
            SessionStatus::Replaced => SessionStatus::Replaced,
            SessionStatus::Revoked => SessionStatus::Revoked,
            SessionStatus::Other(status) => SessionStatus::Other(status.clone()),
        }
    }
}

/// Canonicalizing a status's string gives back the same status: a status
/// whose string equals that of `status`, and which is `Other` exactly when the
/// string is not a known one (what [`SessionStatus::from_text`] returns for
/// `status.as_str()`), is `status` itself whenever `status` is a named variant.
pub proof fn lemma_status_round_trip(status: SessionStatus, back: SessionStatus)
    requires
        status_text(back) == status_text(status),
        (back is Other) == !is_known_status(status_text(status)),
    ensures
        !(status is Other) ==> back == status,
{
    reveal_strlit("active");
    reveal_strlit("abandoned");
    reveal_strlit("ended");
    reveal_strlit("expired");
    reveal_strlit("pending");
    reveal_strlit("removed");
    reveal_strlit("replaced");
    reveal_strlit("revoked");
    assert("active"@[1] != "abandoned"@[1]);
    assert("ended"@[1] != "expired"@[1]);
    assert("removed"@[2] != "replaced"@[2]);
    assert("removed"@[2] != "revoked"@[2]);
    assert("replaced"@[2] != "revoked"@[2]);
}

/// Whether `s` is one of the task-key strings with a named variant.
pub open spec fn is_known_task_key(s: Seq<char>) -> bool {
    s == "choose-organization"@ || s == "reset-password"@ || s == "setup-mfa"@
}

/// The raw clerk-js string of a session task key.
pub open spec fn task_key_text(key: SessionTaskKey) -> Seq<char> {
    match key {
        SessionTaskKey::ChooseOrganization => "choose-organization"@,
        SessionTaskKey::ResetPassword => "reset-password"@,
        SessionTaskKey::SetupMfa => "setup-mfa"@,
        SessionTaskKey::Other(other) => other@,
    }
}

/// A clerk-js v6 session task key. Keys this crate has not named yet
/// round-trip through [`SessionTaskKey::Other`].
#[derive(Debug, PartialEq, Eq, Hash)]
#[non_exhaustive]
pub enum SessionTaskKey {
    /// The user must choose or create an organization.
    ChooseOrganization,
    /// The user must reset their password.
    ResetPassword,
    /// The user must enroll in multi-factor authentication.
    SetupMfa,
    /// A task-key string this crate has not named yet.
    Other(OtherTaskKey),
}

/// A clerk-js session task-key string with no named [`SessionTaskKey`]
/// variant. It has no public constructor.
#[derive(Debug, PartialEq, Eq, Hash)]
pub struct OtherTaskKey(String);

impl View for OtherTaskKey {
    type V = Seq<char>;

    closed spec fn view(&self) -> Seq<char> {
        self.0@
    }
}

impl OtherTaskKey {
    #[verifier::type_invariant]
    spec fn inv(self) -> bool {
        !is_known_task_key(self.0@)
    }

    /// The raw clerk-js task-key string; never one a named variant represents.
    pub fn as_str(&self) -> (r: &str)
        ensures
            r@ == self@,
            !is_known_task_key(self@),
    {
        proof {
            use_type_invariant(self);
        }
        self.0.as_str()
    }
}

impl Clone for OtherTaskKey {
    fn clone(&self) -> (r: Self)
        ensures
            r == *self,
    {
        proof {
            use_type_invariant(self);
        }
        OtherTaskKey(self.0.clone())
    }
}

impl SessionTaskKey {
    /// The raw clerk-js task-key string.
    pub fn as_str(&self) -> (r: &str)
        ensures
            r@ == task_key_text(*self),
    {
        match self {
            SessionTaskKey::ChooseOrganization => "choose-organization",
            SessionTaskKey::ResetPassword => "reset-password",
            SessionTaskKey::SetupMfa => "setup-mfa",
            SessionTaskKey::Other(key) => key.as_str(),
        }
    }

    /// The named variant for a known task-key string.
    pub fn from_known(key: &str) -> (r: Option<Self>)
        ensures
            (r is Some) == is_known_task_key(key@),
            r matches Some(k) ==> task_key_text(k) == key@ && !(k is Other),
    {
        if same_text(key, "choose-organization") {
            Some(SessionTaskKey::ChooseOrganization)
        } else if same_text(key, "reset-password") {
            Some(SessionTaskKey::ResetPassword)
        } else if same_text(key, "setup-mfa") {
            Some(SessionTaskKey::SetupMfa)
        } else {
            None
        }
    }

    /// Canonicalizes a task-key string: known strings map to their named
    /// variant, anything else to [`SessionTaskKey::Other`].
    pub fn from_text(key: &str) -> (r: Self)
        ensures
            task_key_text(r) == key@,
            (r is Other) == !is_known_task_key(key@),
    {
        match SessionTaskKey::from_known(key) {
            Some(k) => k,
            None => SessionTaskKey::Other(OtherTaskKey(key.to_owned())),
        }
    }
}

impl Clone for SessionTaskKey {
    fn clone(&self) -> (r: Self)
        ensures
            r == *self,
    {
        match self {
            SessionTaskKey::ChooseOrganization => SessionTaskKey::ChooseOrganization,
            SessionTaskKey::ResetPassword => SessionTaskKey::ResetPassword,
            SessionTaskKey::SetupMfa => SessionTaskKey::SetupMfa,
            SessionTaskKey::Other(key) => SessionTaskKey::Other(key.clone()),
        }
    }
}

/// Canonicalizing a task key's string gives back the same key whenever the
/// key is a named variant (see [`lemma_status_round_trip`]).
pub proof fn lemma_task_key_round_trip(key: SessionTaskKey, back: SessionTaskKey)
    requires
        task_key_text(back) == task_key_text(key),
        (back is Other) == !is_known_task_key(task_key_text(key)),
    ensures
        !(key is Other) ==> back == key,
{
    reveal_strlit("choose-organization");
    reveal_strlit("reset-password");
    reveal_strlit("setup-mfa");
    assert("choose-organization"@[0] != "reset-password"@[0]);
    assert("choose-organization"@[0] != "setup-mfa"@[0]);
    assert("reset-password"@[0] != "setup-mfa"@[0]);
}

/// A clerk-js v6 post-authentication session task the user must complete
/// before the session becomes fully active.
#[derive(Debug, PartialEq, Eq, Hash)]
#[non_exhaustive]
pub struct SessionTask {
    /// The task identifier, as reported by clerk-js.
    pub key: SessionTaskKey,
}

impl SessionTask {
    /// Creates a session task for the given key.
    pub fn new(key: SessionTaskKey) -> (r: Self)
        ensures
            r.key == key,
    {
        SessionTask { key }
    }
}

impl Clone for SessionTask {
    fn clone(&self) -> (r: Self)
        ensures
            r == *self,
    {
        SessionTask { key: self.key.clone() }
    }
}

/// The mathematical content of a [`User`].
pub struct UserView {
    pub id: Seq<char>,
    pub first_name: Option<Seq<char>>,
    pub last_name: Option<Seq<char>>,
    pub primary_email_address: Option<Seq<char>>,
    pub image_url: Option<Seq<char>>,
}

/// Typed mirror of the fields this crate reads from a Clerk JS `User`.
#[derive(Debug, PartialEq, Eq)]
#[non_exhaustive]
pub struct User {
    /// Clerk user id, e.g. `user_2abc`.
    pub id: String,
    /// First name.
    pub first_name: Option<String>,
    /// Last name.
    pub last_name: Option<String>,
    /// Primary email address.
    pub primary_email_address: Option<String>,
    /// Avatar URL.
    pub image_url: Option<String>,
}

impl View for User {
    type V = UserView;

    open spec fn view(&self) -> UserView {
        UserView {
            id: self.id@,
            first_name: self.first_name.deep_view(),
            last_name: self.last_name.deep_view(),
            primary_email_address: self.primary_email_address.deep_view(),
            image_url: self.image_url.deep_view(),
        }
    }
}

impl User {
    /// Creates a user with the given Clerk user id and all optional fields unset.
    pub fn new(id: &str) -> (r: Self)
        ensures
            r@ == (UserView {
                id: id@,
                first_name: None,
                last_name: None,
                primary_email_address: None,
                image_url: None,
            }),
    {
        User {
            id: id.to_owned(),
            first_name: None,
            last_name: None,
            primary_email_address: None,
            image_url: None,
        }
    }
}

impl Clone for User {
    fn clone(&self) -> (r: Self)
        ensures
            r@ == self@,
    {
        User {
            id: self.id.clone(),
            first_name: clone_opt_string(&self.first_name),
            last_name: clone_opt_string(&self.last_name),
            primary_email_address: clone_opt_string(&self.primary_email_address),
            image_url: clone_opt_string(&self.image_url),
        }
    }
}

/// The mathematical content of a [`Session`]; statuses and task keys are
/// taken by their strings, which determine them.
pub struct SessionView {
    pub id: Seq<char>,
    pub status: Seq<char>,
    pub last_active_organization_id: Option<Seq<char>>,
    pub last_active_at: Option<i64>,
    pub expire_at: Option<i64>,
    pub current_task: Option<Seq<char>>,
    pub tasks: Seq<Seq<char>>,
}

/// Typed mirror of the fields this crate reads from a Clerk JS `Session`.
#[derive(Debug, PartialEq, Eq)]
#[non_exhaustive]
pub struct Session {
    /// Session id, e.g. `sess_2def`.
    pub id: String,
    /// Session status, as reported by clerk-js.
    pub status: SessionStatus,
    /// Active organization id for this session, as reported by clerk-js.
    pub last_active_organization_id: Option<String>,
    /// Last activity (unix ms).
    pub last_active_at: Option<i64>,
    /// Expiry (unix ms).
    pub expire_at: Option<i64>,
    /// The current pending session task, if the session is not yet fully active.
    pub current_task: Option<SessionTask>,
    /// All pending session tasks, in clerk-js order.
    pub tasks: Vec<SessionTask>,
}

impl View for Session {
    type V = SessionView;

    open spec fn view(&self) -> SessionView {
        SessionView {
            id: self.id@,
            status: status_text(self.status),
            last_active_organization_id: self.last_active_organization_id.deep_view(),
            last_active_at: self.last_active_at,
            expire_at: self.expire_at,
            current_task: match self.current_task {
                Some(task) => Some(task_key_text(task.key)),
                None => None,
            },
            tasks: Seq::new(self.tasks@.len(), |i: int| task_key_text(self.tasks@[i].key)),
        }
    }
}

impl Session {
    /// Creates a session with the given id and status and all optional fields unset.
    pub fn new(id: &str, status: SessionStatus) -> (r: Self)
        ensures
            r.id@ == id@,
            r.status == status,
            r.last_active_organization_id is None,
            r.last_active_at is None,
            r.expire_at is None,
            r.current_task is None,
            r.tasks@.len() == 0,
    {
        Session {
            id: id.to_owned(),
            status,
            last_active_organization_id: None,
            last_active_at: None,
            expire_at: None,
            current_task: None,
            tasks: Vec::new(),
        }
    }

    /// True when clerk-js reports the session as active.
    pub fn is_active(&self) -> (r: bool)
        ensures
            r == (self.status == SessionStatus::Active),
    {
        matches!(self.status, SessionStatus::Active)
    }
}

impl Clone for Session {
    fn clone(&self) -> (r: Self)
        ensures
            r@ == self@,
            r.status == self.status,
    {
        let mut tasks: Vec<SessionTask> = Vec::new();
        let mut i: usize = 0;
        while i < self.tasks.len()
            invariant
                i <= self.tasks@.len(),
                tasks@ == self.tasks@.take(i as int),
            decreases self.tasks@.len() - i,
        {
            tasks.push(self.tasks[i].clone());
            assert(self.tasks@.take(i + 1) == self.tasks@.take(i as int).push(self.tasks@[i as int]));
            i = i + 1;
        }
        assert(self.tasks@.take(self.tasks@.len() as int) == self.tasks@);
        let current_task = match &self.current_task {
            Some(task) => Some(task.clone()),
            None => None,
        };
        let r = Session {
            id: self.id.clone(),
            status: self.status.clone(),
            last_active_organization_id: clone_opt_string(&self.last_active_organization_id),
            last_active_at: self.last_active_at,
            expire_at: self.expire_at,
            current_task,
            tasks,
        };
        assert(r@.tasks =~= self@.tasks);
        r
    }
}

} // verus!
