use nightshift_daemon::watchdog::{
    is_divergent, thaw_detected, ClockSample, Watchdog, WatchdogAction, WatchdogPolicy,
};
use std::time::Duration;

#[test]
fn thaw_detected_true_when_wall_exceeds_mono_plus_threshold() {
    assert!(thaw_detected(
        Duration::from_secs(15),
        Duration::from_secs(5),
        Duration::from_secs(5),
    ));
}

#[test]
fn thaw_detected_false_at_exact_threshold_boundary() {
    assert!(!thaw_detected(
        Duration::from_secs(10),
        Duration::from_secs(5),
        Duration::from_secs(5),
    ));
}

#[test]
fn thaw_detected_false_when_wall_below_threshold() {
    assert!(!thaw_detected(
        Duration::from_secs(6),
        Duration::from_secs(5),
        Duration::from_secs(5),
    ));
}

#[test]
fn thaw_detected_false_when_wall_elapsed_zero() {
    assert!(!thaw_detected(
        Duration::ZERO,
        Duration::from_secs(1),
        Duration::from_secs(5),
    ));
}

#[test]
fn thaw_detected_one_nanosecond_past_boundary() {
    assert!(thaw_detected(
        Duration::new(10, 1),
        Duration::from_secs(5),
        Duration::from_secs(5),
    ));
}

#[test]
fn thaw_detected_saturates_at_largest_duration() {
    assert!(!thaw_detected(Duration::MAX, Duration::MAX, Duration::from_secs(5)));
    assert!(thaw_detected(Duration::MAX, Duration::ZERO, Duration::from_secs(5)));
}

#[test]
fn divergence_on_nanoseconds() {
    let s: u128 = 1_000_000_000;
    assert!(is_divergent(15 * s, 5 * s, 5 * s));
    assert!(!is_divergent(10 * s, 5 * s, 5 * s));
    assert!(!is_divergent(6 * s, 5 * s, 5 * s));
    assert!(!is_divergent(0, s, 5 * s));
    assert!(!is_divergent(u128::MAX, u128::MAX, 1));
    assert!(is_divergent(u128::MAX, 0, u128::MAX - 1));
}

fn sample(wall_s: u128, mono_s: u128) -> ClockSample {
    ClockSample { wall_ns: Some(wall_s * 1_000_000_000), mono_ns: mono_s * 1_000_000_000 }
}

#[test]
fn tick_restarts_after_a_hibernation() {
    let threshold = 5_000_000_000u128;
    let mut w = Watchdog::new(sample(1000, 10));
    assert_eq!(w.tick(sample(1005, 15), false, threshold), WatchdogAction::Continue);
    // Suspended for an hour: the wall clock jumped, the monotonic one did not.
    assert_eq!(w.tick(sample(4605, 20), false, threshold), WatchdogAction::Restart);
    assert_eq!(w.last_wall_ns, Some(4605 * 1_000_000_000));
    assert_eq!(w.last_mono_ns, 20 * 1_000_000_000);
}

#[test]
fn tick_ignores_jitter_and_backward_jumps() {
    let threshold = 5_000_000_000u128;
    let mut w = Watchdog::new(sample(1000, 10));
    assert_eq!(w.tick(sample(1009, 15), false, threshold), WatchdogAction::Continue);
    assert_eq!(w.tick(sample(900, 20), false, threshold), WatchdogAction::Continue);
    assert_eq!(w.tick(sample(905, 25), false, threshold), WatchdogAction::Continue);
}

#[test]
fn tick_skips_a_failed_wall_clock_read() {
    let threshold = 5_000_000_000u128;
    let mut w = Watchdog::new(sample(1000, 10));
    let before = w;
    let failed = ClockSample { wall_ns: None, mono_ns: 15_000_000_000 };
    assert_eq!(w.tick(failed, false, threshold), WatchdogAction::Continue);
    assert_eq!(w, before);
}

#[test]
fn forced_trigger_restarts_whatever_the_clocks_say() {
    let mut w = Watchdog::new(sample(1000, 10));
    let before = w;
    assert_eq!(w.tick(sample(1005, 15), true, 5_000_000_000), WatchdogAction::Restart);
    assert_eq!(w, before);
}

#[test]
fn forced_trigger_shortens_the_sleep() {
    let p = WatchdogPolicy { interval_ms: 5000, forced_interval_ms: 1000, threshold_ns: 5_000_000_000 };
    assert_eq!(p.sleep_ms(false), 5000);
    assert_eq!(p.sleep_ms(true), 1000);
}
