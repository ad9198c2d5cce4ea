use dioxus_clerk::auth::ClerkError;
use dioxus_clerk::client::ClerkScriptSource;
use dioxus_clerk::lifecycle::{
    action_error_after, action_wait_timeout, after_attached_load, deferred_step, load_start, load_timeout_error,
    loadedness_poll, queue_step, recorded_load_failure, script_source, script_wait_step, ActionReport, AttachedLoad,
    DeferredNext, LoadStart, QueueStep, ScriptWait, ACTION_WAIT_DEADLINE_MS, DEFAULT_TIMEOUT_MS, POLL_INTERVAL_MS,
};

#[test]
fn script_source_needs_a_key_only_when_injecting() {
    assert_eq!(script_source(true, true), Ok(ClerkScriptSource::PublishableKeyAvailable));
    assert!(matches!(script_source(false, true), Err(ClerkError::InvalidConfig(_))));
    assert_eq!(script_source(false, false), Ok(ClerkScriptSource::ExternalOnly));
    assert_eq!(script_source(true, false), Ok(ClerkScriptSource::ExternalOnly));
}

#[test]
fn script_wait_polls_until_ready_error_or_timeout() {
    let source = ClerkScriptSource::PublishableKeyAvailable;
    assert_eq!(script_wait_step(true, false, false, None, 0, DEFAULT_TIMEOUT_MS, source), ScriptWait::Ready);
    assert_eq!(script_wait_step(true, true, true, None, 0, DEFAULT_TIMEOUT_MS, source), ScriptWait::Ready);
    assert_eq!(
        script_wait_step(true, true, false, None, 0, DEFAULT_TIMEOUT_MS, source),
        ScriptWait::Wait(POLL_INTERVAL_MS)
    );
    assert_eq!(
        script_wait_step(false, false, false, Some("boom".into()), 0, DEFAULT_TIMEOUT_MS, source),
        ScriptWait::Fail(ClerkError::ScriptLoad("boom".into()))
    );
    assert!(matches!(
        script_wait_step(false, false, false, None, DEFAULT_TIMEOUT_MS, DEFAULT_TIMEOUT_MS, source),
        ScriptWait::Fail(ClerkError::ScriptLoad(m)) if m.contains("within 10000 ms")
    ));

    // From zero, the wait gives up after at most timeout / interval + 1 looks.
    let mut waited = 0;
    let mut looks = 0;
    loop {
        looks += 1;
        match script_wait_step(false, false, false, None, waited, DEFAULT_TIMEOUT_MS, source) {
            ScriptWait::Wait(next) => waited = next,
            ScriptWait::Fail(_) => break,
            ScriptWait::Ready => unreachable!(),
        }
    }
    assert_eq!(looks, DEFAULT_TIMEOUT_MS / POLL_INTERVAL_MS + 1);
}

#[test]
fn load_start_never_loads_twice() {
    assert_eq!(load_start(true, true), LoadStart::AlreadyLoaded);
    assert_eq!(load_start(false, true), LoadStart::AttachToInFlight);
    assert_eq!(load_start(false, false), LoadStart::Load);
    assert_eq!(after_attached_load(true, false), AttachedLoad::Loaded);
    assert_eq!(after_attached_load(false, false), AttachedLoad::Settled);
    assert_eq!(
        after_attached_load(false, true),
        AttachedLoad::TimedOut(ClerkError::ScriptLoad("a previous Clerk.load() did not settle within 60000 ms".into()))
    );
    assert_eq!(
        load_timeout_error(),
        ClerkError::ScriptLoad("Clerk.load() did not settle within 60000 ms".into())
    );
    assert_eq!(recorded_load_failure(Some("x".into())), Some(ClerkError::ScriptLoad("x".into())));
    assert_eq!(recorded_load_failure(None), None);
}

#[test]
fn awaited_actions_wait_for_loadedness_or_fail() {
    assert_eq!(loadedness_poll(Some(ClerkError::NotLoaded), true), Some(Err(ClerkError::NotLoaded)));
    assert_eq!(loadedness_poll(None, true), Some(Ok(())));
    assert_eq!(loadedness_poll(None, false), None);
    assert_eq!(ACTION_WAIT_DEADLINE_MS, 75_000);
    assert_eq!(
        action_wait_timeout(),
        ClerkError::Timeout("browser Clerk lifecycle did not finish loading within 75000 ms".into())
    );
}

#[test]
fn deferred_actions_retry_until_the_deadline() {
    assert_eq!(deferred_step(ActionReport::Done, 300, 100, 1_000), (DeferredNext::Idle, 0));
    assert_eq!(deferred_step(ActionReport::Failed, 300, 100, 1_000), (DeferredNext::Idle, 0));
    assert_eq!(deferred_step(ActionReport::Waiting, 300, 100, 1_000), (DeferredNext::Idle, 300));
    assert_eq!(deferred_step(ActionReport::Deferred, 300, 100, 1_000), (DeferredNext::Retry, 400));
    assert_eq!(deferred_step(ActionReport::Deferred, 1_000, 100, 1_000), (DeferredNext::GiveUp, 0));
    assert_eq!(deferred_step(ActionReport::Deferred, u32::MAX - 1, 100, u32::MAX), (DeferredNext::Retry, u32::MAX));
}

#[test]
fn queued_operations_wait_for_loadedness_and_drop_on_load_failure() {
    // Nothing queued: nothing to do, whatever else holds.
    assert_eq!(queue_step(true, true, true, false), QueueStep::Idle);
    assert_eq!(queue_step(true, false, true, false), QueueStep::Idle);
    // A failed load drops the queue even before loadedness.
    assert_eq!(queue_step(false, true, false, false), QueueStep::DropQueued);
    assert_eq!(queue_step(false, true, true, true), QueueStep::DropQueued);
    // Not loaded yet, or a drain already running: wait.
    assert_eq!(queue_step(false, false, false, false), QueueStep::Idle);
    assert_eq!(queue_step(false, false, true, true), QueueStep::Idle);
    // Loaded, idle scheduler, work queued: drain.
    assert_eq!(queue_step(false, false, true, false), QueueStep::Drain);
}

#[test]
fn each_failed_operation_becomes_the_latest_action_error() {
    let first = ClerkError::Js("first".into());
    let second = ClerkError::Js("second".into());
    let after_first = action_error_after(None, Err(first.clone()));
    assert_eq!(after_first, Some(first.clone()));
    assert_eq!(action_error_after(after_first.clone(), Ok(())), Some(first));
    assert_eq!(action_error_after(after_first, Err(second.clone())), Some(second));
    assert_eq!(action_error_after(None, Ok(())), None);
}

#[test]
fn script_wait_reaches_the_largest_timeout_without_overflow() {
    let source = ClerkScriptSource::PublishableKeyAvailable;
    let timeout = u32::MAX - 45;
    assert_eq!(
        script_wait_step(false, false, false, None, timeout - 50, timeout, source),
        ScriptWait::Wait(timeout)
    );
    assert!(matches!(
        script_wait_step(false, false, false, None, timeout, timeout, source),
        ScriptWait::Fail(ClerkError::ScriptLoad(_))
    ));
}
