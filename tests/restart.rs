use nightshift_daemon::marker::{marker_pid, Reclaim, ReclaimAction, ReclaimEvent};
use nightshift_daemon::restart::{exec_target, Restart, RestartAction, RestartEvent};
use nightshift_daemon::supervisor::{
    generation_start, readiness_next, settle, Ending, GenerationStart, RaceWinner, Readiness,
    ReadinessPolicy,
};

#[test]
fn restart_stops_a_live_backend_then_replaces_the_image() {
    let mut r = Restart::new(Some(4242), 300);
    assert_eq!(r.step(RestartEvent::Done), RestartAction::RaiseFlag);
    assert_eq!(r.step(RestartEvent::Done), RestartAction::SendStop(4242));
    assert_eq!(r.step(RestartEvent::Done), RestartAction::Wait(300));
    assert_eq!(r.step(RestartEvent::Done), RestartAction::ProbeAlive(4242));
    assert_eq!(r.step(RestartEvent::Alive(true)), RestartAction::ForceKill(4242));
    assert_eq!(r.step(RestartEvent::Done), RestartAction::ReplaceImage);
}

#[test]
fn restart_skips_the_kill_of_a_backend_that_stopped() {
    let mut r = Restart::new(Some(7), 300);
    r.step(RestartEvent::Done);
    r.step(RestartEvent::Done);
    r.step(RestartEvent::Done);
    assert_eq!(r.step(RestartEvent::Done), RestartAction::ProbeAlive(7));
    assert_eq!(r.step(RestartEvent::Alive(false)), RestartAction::ReplaceImage);
}

#[test]
fn restart_without_backend_replaces_at_once() {
    let mut r = Restart::new(None, 300);
    assert_eq!(r.step(RestartEvent::Done), RestartAction::RaiseFlag);
    assert_eq!(r.step(RestartEvent::Done), RestartAction::ReplaceImage);
}

#[test]
fn failed_replacement_exits_with_status_one() {
    let mut r = Restart::new(None, 300);
    r.step(RestartEvent::Done);
    assert_eq!(r.step(RestartEvent::Done), RestartAction::ReplaceImage);
    assert_eq!(r.step(RestartEvent::ReplaceFailed), RestartAction::Exit(1));
    assert_eq!(r.step(RestartEvent::Done), RestartAction::Exit(1));
}

#[test]
fn marker_pid_reads_trimmed_decimal() {
    assert_eq!(marker_pid("4242\n"), Some(4242));
    assert_eq!(marker_pid("  +17 \t"), Some(17));
    assert_eq!(marker_pid("2147483647"), Some(i32::MAX));
}

#[test]
fn marker_pid_rejects_invalid_text() {
    assert_eq!(marker_pid(""), None);
    assert_eq!(marker_pid("   "), None);
    assert_eq!(marker_pid("abc"), None);
    assert_eq!(marker_pid("12a"), None);
    assert_eq!(marker_pid("-"), None);
    assert_eq!(marker_pid("0"), None);
    assert_eq!(marker_pid("-5"), None);
    assert_eq!(marker_pid("2147483648"), None);
    assert_eq!(marker_pid("99999999999999999999"), None);
}

#[test]
fn stale_marker_with_dead_pid_is_removed() {
    let text = i32::MAX.to_string();
    let mut r = Reclaim::new(Some(&text), 500);
    assert_eq!(r.step(ReclaimEvent::Done), ReclaimAction::SendStop(i32::MAX));
    assert_eq!(r.step(ReclaimEvent::Done), ReclaimAction::Wait(500));
    assert_eq!(r.step(ReclaimEvent::Done), ReclaimAction::ProbeAlive(i32::MAX));
    assert_eq!(r.step(ReclaimEvent::Alive(false)), ReclaimAction::RemoveMarker);
    assert_eq!(r.step(ReclaimEvent::Done), ReclaimAction::Finish);
}

#[test]
fn stale_marker_with_live_pid_kills_then_removes() {
    let mut r = Reclaim::new(Some("31337"), 500);
    r.step(ReclaimEvent::Done);
    r.step(ReclaimEvent::Done);
    r.step(ReclaimEvent::Done);
    assert_eq!(r.step(ReclaimEvent::Alive(true)), ReclaimAction::ForceKill(31337));
    assert_eq!(r.step(ReclaimEvent::Done), ReclaimAction::RemoveMarker);
    assert_eq!(r.step(ReclaimEvent::Done), ReclaimAction::Finish);
}

#[test]
fn unparsable_marker_is_removed_without_signal() {
    let mut r = Reclaim::new(Some("garbage"), 500);
    assert_eq!(r.step(ReclaimEvent::Done), ReclaimAction::RemoveMarker);
    assert_eq!(r.step(ReclaimEvent::Done), ReclaimAction::Finish);
}

#[test]
fn absent_marker_needs_nothing() {
    let mut r = Reclaim::new(None, 500);
    assert_eq!(r.step(ReclaimEvent::Done), ReclaimAction::Finish);
}

#[test]
fn restarted_generation_exits_cleanly() {
    assert_eq!(generation_start(true), GenerationStart::ExitCleanly);
    assert_eq!(generation_start(false), GenerationStart::Run);
}

#[test]
fn readiness_poll_retries_until_deadline() {
    let p = ReadinessPolicy { timeout_ms: 8000, retry_ms: 200 };
    assert_eq!(readiness_next(true, 9000, p), Readiness::Ready);
    assert_eq!(readiness_next(false, 100, p), Readiness::RetryAfter(200));
    assert_eq!(readiness_next(false, 8000, p), Readiness::TimedOut);
}

#[test]
fn race_settlements() {
    let crash = settle(RaceWinner::BackendExited, false);
    assert_eq!(crash.ending, Ending::Exit(1));
    assert!(!crash.kill_backend);
    let planned = settle(RaceWinner::BackendExited, true);
    assert_eq!(planned.ending, Ending::AwaitReplacement);
    let proxy = settle(RaceWinner::ProxyFailed, false);
    assert_eq!(proxy.ending, Ending::Exit(1));
    assert!(proxy.kill_backend);
    let shutdown = settle(RaceWinner::ShutdownRequested, false);
    assert_eq!(shutdown.ending, Ending::Exit(0));
    assert!(shutdown.kill_backend && shutdown.remove_marker && shutdown.deregister);
}

#[test]
fn exec_target_prefers_the_override() {
    assert_eq!(exec_target(Some("/nonexistent_binary_xyz"), Some("/usr/bin/self")), Some("/nonexistent_binary_xyz"));
    assert_eq!(exec_target(None, Some("/usr/bin/self")), Some("/usr/bin/self"));
    assert_eq!(exec_target::<&str>(None, None), None);
}

#[test]
fn standard_policies() {
    let r = ReadinessPolicy::standard();
    assert_eq!((r.timeout_ms, r.retry_ms), (8000, 200));
    let w = nightshift_daemon::watchdog::WatchdogPolicy::standard();
    assert_eq!((w.interval_ms, w.forced_interval_ms, w.threshold_ns), (5000, 1000, 5_000_000_000));
    let p = nightshift_daemon::proxy::RetryPolicy::standard();
    assert_eq!((p.window_ms, p.max_retries, p.delay_ms), (8000, 5, 200));
}
