//! The decisions of the browser-side Clerk lifecycle: where clerk-js comes
//! from, how long to wait for it, when an awaited action may proceed, and
//! how deferred actions are retried. The browser client performs the waits
//! and reads the page; these functions decide.
use vstd::prelude::*;

use crate::auth::ClerkError;
use crate::client::{missing_publishable_key_error, timeout_error, timeout_message, ClerkScriptSource};
use crate::text::{decimal_text, push_decimal, push_str};

verus! {

broadcast use vstd::string::group_string_axioms;

/// How long to wait for clerk-js (and `@clerk/ui`) to appear, in ms.
pub const DEFAULT_TIMEOUT_MS: u32 = 10_000;

/// How often the page is polled while waiting, in ms.
pub const POLL_INTERVAL_MS: u32 = 50;

/// Upper bound on `Clerk.load()` settling, in ms. Without it a
/// never-settling load leaves no load error and every awaited action waits
/// forever.
pub const LOAD_SETTLE_TIMEOUT_MS: u32 = 60_000;

/// Upper bound on awaited actions waiting for lifecycle loadedness, in ms: a
/// safety net over the script-appear timeout plus the load-settle timeout.
pub const ACTION_WAIT_DEADLINE_MS: u32 = DEFAULT_TIMEOUT_MS + LOAD_SETTLE_TIMEOUT_MS + 5_000;

/// Where clerk-js comes from, given whether a publishable key is known and
/// whether this crate loads clerk-js: a missing key is an error only when
/// the crate must inject the script itself.
pub fn script_source(has_publishable_key: bool, load_clerk_js: bool) -> (r: Result<ClerkScriptSource, ClerkError>)
    ensures
        load_clerk_js && has_publishable_key ==> r == Ok::<ClerkScriptSource, ClerkError>(
            ClerkScriptSource::PublishableKeyAvailable,
        ),
        load_clerk_js && !has_publishable_key ==> (r matches Err(ClerkError::InvalidConfig(m)) && m@
            == crate::client::missing_publishable_key_message()),
        !load_clerk_js ==> r == Ok::<ClerkScriptSource, ClerkError>(ClerkScriptSource::ExternalOnly),
{
    match (has_publishable_key, load_clerk_js) {
        (true, true) => Ok(ClerkScriptSource::PublishableKeyAvailable),
        (false, true) => Err(missing_publishable_key_error()),
        (_, false) => Ok(ClerkScriptSource::ExternalOnly),
    }
}

/// What the wait for clerk-js does after one look at the page.
#[derive(Debug, PartialEq, Eq)]
pub enum ScriptWait {
    /// clerk-js (and `@clerk/ui`, where this crate injected it) is there.
    Ready,
    /// Give up with this error.
    Fail(ClerkError),
    /// Look again after [`POLL_INTERVAL_MS`], having waited this long.
    Wait(u32),
}

/// One look at the page while waiting for clerk-js: ready once `window.Clerk`
/// is there (and the `@clerk/ui` constructor, when this crate injected that
/// bundle); a recorded script-load error fails at once; after `timeout_ms`
/// the wait times out; otherwise it waits one more poll interval. The wait
/// starts at 0 and grows by one poll interval per look.
pub fn script_wait_step(
    clerk_present: bool,
    need_ui: bool,
    ui_ctor_present: bool,
    script_error: Option<String>,
    waited_ms: u32,
    timeout_ms: u32,
    source: ClerkScriptSource,
) -> (r: ScriptWait)
    requires
        waited_ms % POLL_INTERVAL_MS == 0,
        timeout_ms <= u32::MAX - 45,
    ensures
        clerk_present && (!need_ui || ui_ctor_present) ==> r == ScriptWait::Ready,
        !(clerk_present && (!need_ui || ui_ctor_present)) ==> match script_error {
            Some(m) => r == ScriptWait::Fail(ClerkError::ScriptLoad(m)),
            None => if waited_ms >= timeout_ms {
                r matches ScriptWait::Fail(ClerkError::ScriptLoad(m)) && m@ == timeout_message(source, timeout_ms)
            } else {
                r == ScriptWait::Wait((waited_ms + POLL_INTERVAL_MS) as u32)
            },
        },
{
    if clerk_present && (!need_ui || ui_ctor_present) {
        return ScriptWait::Ready;
    }
    if let Some(message) = script_error {
        return ScriptWait::Fail(ClerkError::ScriptLoad(message));
    }
    if waited_ms >= timeout_ms {
        return ScriptWait::Fail(timeout_error(source, timeout_ms));
    }
    assert(waited_ms + POLL_INTERVAL_MS <= u32::MAX) by {
        assert(waited_ms < u32::MAX - 45);
        assert(waited_ms % 50 == 0);
        assert(u32::MAX - 45 == 50 * 85899345);
    }
    ScriptWait::Wait(waited_ms + POLL_INTERVAL_MS)
}

/// What starting `Clerk.load()` does once clerk-js is on the page.
#[derive(Debug, Clone, Copy, PartialEq, Eq, Structural)]
pub enum LoadStart {
    /// Clerk is already loaded (a remount, or clerk-js driven externally);
    /// a second `Clerk.load()` is unsupported.
    AlreadyLoaded,
    /// A load started by a previous provider is still in flight: wait for
    /// it instead of issuing a second one.
    AttachToInFlight,
    /// Check for a recorded failure, then load.
    Load,
}

/// How to start loading once clerk-js is present.
pub fn load_start(is_loaded: bool, load_in_flight: bool) -> (r: LoadStart)
    ensures
        is_loaded ==> r == LoadStart::AlreadyLoaded,
        !is_loaded && load_in_flight ==> r == LoadStart::AttachToInFlight,
        !is_loaded && !load_in_flight ==> r == LoadStart::Load,
{
    if is_loaded {
        LoadStart::AlreadyLoaded
    } else if load_in_flight {
        LoadStart::AttachToInFlight
    } else {
        LoadStart::Load
    }
}

/// The message of a previous `Clerk.load()` that did not settle in time.
pub open spec fn previous_load_unsettled_message() -> Seq<char> {
    "a previous Clerk.load() did not settle within "@ + decimal_text(LOAD_SETTLE_TIMEOUT_MS as nat) + " ms"@
}

/// The message of a `Clerk.load()` that did not settle in time.
pub open spec fn load_unsettled_message() -> Seq<char> {
    "Clerk.load() did not settle within "@ + decimal_text(LOAD_SETTLE_TIMEOUT_MS as nat) + " ms"@
}

/// What the wait for a previous provider's load ends in.
#[derive(Debug, PartialEq, Eq)]
pub enum AttachedLoad {
    /// That load finished: Clerk is loaded.
    Loaded,
    /// That load settled without loading Clerk: go on to the failure check.
    Settled,
    /// That load is still pending after the settle timeout; the error is
    /// recorded as terminal so later remounts fail fast.
    TimedOut(ClerkError),
}

/// The result of waiting for a previous provider's load.
pub fn after_attached_load(is_loaded: bool, still_in_flight: bool) -> (r: AttachedLoad)
    ensures
        is_loaded ==> r == AttachedLoad::Loaded,
        !is_loaded && !still_in_flight ==> r == AttachedLoad::Settled,
        !is_loaded && still_in_flight ==> (r matches AttachedLoad::TimedOut(ClerkError::ScriptLoad(m)) && m@
            == previous_load_unsettled_message()),
{
    if is_loaded {
        return AttachedLoad::Loaded;
    }
    if still_in_flight {
        let mut message = String::new();
        push_str(&mut message, "a previous Clerk.load() did not settle within ");
        push_decimal(&mut message, LOAD_SETTLE_TIMEOUT_MS as u128);
        push_str(&mut message, " ms");
        return AttachedLoad::TimedOut(ClerkError::ScriptLoad(message));
    }
    AttachedLoad::Settled
}

/// The error of a `Clerk.load()` that did not settle in time (recorded as
/// terminal so remounts short-circuit).
pub fn load_timeout_error() -> (r: ClerkError)
    ensures
        r matches ClerkError::ScriptLoad(m) && m@ == load_unsettled_message(),
{
    let mut message = String::new();
    push_str(&mut message, "Clerk.load() did not settle within ");
    push_decimal(&mut message, LOAD_SETTLE_TIMEOUT_MS as u128);
    push_str(&mut message, " ms");
    ClerkError::ScriptLoad(message)
}

/// A previous `Clerk.load()` on the same live clerk-js that was rejected
/// cannot be retried: its recorded failure is the load's error.
pub fn recorded_load_failure(load_failure: Option<String>) -> (r: Option<ClerkError>)
    ensures
        match load_failure {
            Some(m) => r == Some(ClerkError::ScriptLoad(m)),
            None => r is None,
        },
{
    match load_failure {
        Some(message) => Some(ClerkError::ScriptLoad(message)),
        None => None,
    }
}

/// Whether an awaited action may proceed: a load error fails it, loadedness
/// lets it run, otherwise it keeps waiting (`None`).
pub fn loadedness_poll(load_error: Option<ClerkError>, is_loaded: bool) -> (r: Option<Result<(), ClerkError>>)
    ensures
        match load_error {
            Some(e) => r == Some(Err::<(), ClerkError>(e)),
            None => if is_loaded {
                r == Some(Ok::<(), ClerkError>(()))
            } else {
                r is None
            },
        },
{
    match load_error {
        Some(error) => Some(Err(error)),
        None => if is_loaded {
            Some(Ok(()))
        } else {
            None
        },
    }
}

/// The message of an awaited action that outwaited the lifecycle.
pub open spec fn action_wait_timeout_message() -> Seq<char> {
    "browser Clerk lifecycle did not finish loading within "@ + decimal_text(ACTION_WAIT_DEADLINE_MS as nat)
        + " ms"@
}

/// The error of an awaited action whose wait for loadedness passed
/// [`ACTION_WAIT_DEADLINE_MS`].
pub fn action_wait_timeout() -> (r: ClerkError)
    ensures
        r matches ClerkError::Timeout(m) && m@ == action_wait_timeout_message(),
{
    let mut message = String::new();
    push_str(&mut message, "browser Clerk lifecycle did not finish loading within ");
    push_decimal(&mut message, ACTION_WAIT_DEADLINE_MS as u128);
    push_str(&mut message, " ms");
    ClerkError::Timeout(message)
}

/// What a clerk-js action scheduled after loadedness reported.
#[derive(Debug, Clone, Copy, PartialEq, Eq, Structural)]
pub enum ActionReport {
    /// The lifecycle has not loaded yet; nothing ran.
    Waiting,
    /// clerk-js could not do it yet (for example a mount target missing).
    Deferred,
    /// The action finished.
    Done,
    /// The action failed; its error went to the provider's error channel.
    Failed,
}

/// What the scheduler does next with a deferred-retry action.
#[derive(Debug, Clone, Copy, PartialEq, Eq, Structural)]
pub enum DeferredNext {
    /// Nothing more to do.
    Idle,
    /// Retry after the retry interval.
    Retry,
    /// The deferral deadline passed: surface the deadline error.
    GiveUp,
}

/// The scheduler's next step and deferred time after an action report.
///
/// A finished or failed action resets the deferred time; a deferral past
/// the deadline gives up and resets it too, so a later deferral cycle gets a
/// fresh deadline; any other deferral retries after `retry_ms` more
/// (saturating); waiting changes nothing.
pub open spec fn deferred_next(report: ActionReport, deferred_ms: u32, retry_ms: u32, deadline_ms: u32) -> (
    DeferredNext,
    u32,
) {
    match report {
        ActionReport::Done | ActionReport::Failed => (DeferredNext::Idle, 0u32),
        ActionReport::Waiting => (DeferredNext::Idle, deferred_ms),
        ActionReport::Deferred => if deferred_ms >= deadline_ms {
            (DeferredNext::GiveUp, 0u32)
        } else if deferred_ms + retry_ms <= u32::MAX {
            (DeferredNext::Retry, (deferred_ms + retry_ms) as u32)
        } else {
            (DeferredNext::Retry, u32::MAX)
        },
    }
}

/// The scheduler's next step and deferred time after an action report.
pub fn deferred_step(report: ActionReport, deferred_ms: u32, retry_ms: u32, deadline_ms: u32) -> (r: (DeferredNext, u32))
    ensures
        r == deferred_next(report, deferred_ms, retry_ms, deadline_ms),
{
    match report {
        ActionReport::Done | ActionReport::Failed => (DeferredNext::Idle, 0),
        ActionReport::Waiting => (DeferredNext::Idle, deferred_ms),
        ActionReport::Deferred => {
            if deferred_ms >= deadline_ms {
                (DeferredNext::GiveUp, 0)
            } else {
                (DeferredNext::Retry, deferred_ms.saturating_add(retry_ms))
            }
        },
    }
}

/// Deferrals never retry past the deadline: a retry happens only while the
/// deferred time is below it, each retry moves the deferred time forward
/// (strictly, for a positive retry interval), and giving up resets it.
pub proof fn lemma_deferral_bounded(report: ActionReport, deferred_ms: u32, retry_ms: u32, deadline_ms: u32)
    ensures
        ({
            let next = deferred_next(report, deferred_ms, retry_ms, deadline_ms);
            &&& next.0 == DeferredNext::Retry ==> deferred_ms < deadline_ms && next.1 >= deferred_ms
            &&& next.0 == DeferredNext::GiveUp ==> deferred_ms >= deadline_ms && next.1 == 0
            &&& next.0 == DeferredNext::Retry && retry_ms > 0 ==> next.1 > deferred_ms
            &&& report != ActionReport::Deferred ==> next.0 == DeferredNext::Idle
        }),
{
}

/// What the provider's action scheduler does with its queue of
/// fire-and-forget operations.
#[derive(Debug, Clone, Copy, PartialEq, Eq, Structural)]
pub enum QueueStep {
    /// Leave the queue as it is.
    Idle,
    /// The load failed: the queued operations can never run, so drop them
    /// (the load error is already surfaced).
    DropQueued,
    /// Start the single drain task, which runs the queued operations in
    /// request order.
    Drain,
}

/// The scheduler's step for a queue state.
pub open spec fn queue_next(queue_empty: bool, load_failed: bool, is_loaded: bool, draining: bool) -> QueueStep {
    if queue_empty {
        QueueStep::Idle
    } else if load_failed {
        QueueStep::DropQueued
    } else if !is_loaded || draining {
        QueueStep::Idle
    } else {
        QueueStep::Drain
    }
}

/// What the scheduler does when its queue, the load error, loadedness or
/// the drain flag change: an empty queue is left alone; a failed load drops
/// the queue; before loadedness, or while a drain task runs (it re-checks
/// the queue after every batch), nothing happens; otherwise a drain starts.
pub fn queue_step(queue_empty: bool, load_failed: bool, is_loaded: bool, draining: bool) -> (r: QueueStep)
    ensures
        r == queue_next(queue_empty, load_failed, is_loaded, draining),
{
    if queue_empty {
        QueueStep::Idle
    } else if load_failed {
        QueueStep::DropQueued
    } else if !is_loaded || draining {
        QueueStep::Idle
    } else {
        QueueStep::Drain
    }
}

/// A queued operation never touches clerk-js before the lifecycle reports
/// loaded, never after the load failed, and never beside a running drain;
/// a failed load drops whatever is queued.
pub proof fn lemma_queue_waits_for_load(queue_empty: bool, load_failed: bool, is_loaded: bool, draining: bool)
    ensures
        queue_next(queue_empty, load_failed, is_loaded, draining) == QueueStep::Drain ==> {
            &&& is_loaded
            &&& !load_failed
            &&& !draining
            &&& !queue_empty
        },
        !queue_empty && load_failed ==> queue_next(queue_empty, load_failed, is_loaded, draining)
            == QueueStep::DropQueued,
{
}

/// The recoverable error after one drained operation ran: its failure
/// replaces the previous one; a success leaves it as it was.
pub fn action_error_after(previous: Option<ClerkError>, result: Result<(), ClerkError>) -> (r: Option<ClerkError>)
    ensures
        match result {
            Ok(()) => r == previous,
            Err(e) => r == Some(e),
        },
{
    match result {
        Ok(()) => previous,
        Err(error) => Some(error),
    }
}

} // verus!
