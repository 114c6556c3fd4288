//! The hibernation watchdog's decisions. The loop that sleeps and reads the
//! clocks runs on its own OS thread outside this crate; each tick hands the
//! fresh clock sample to [`Watchdog::tick`], which says whether to restart.
use crate::clock::{duration_nanos, nanos_of};
use std::time::Duration;
use vstd::prelude::*;

verus! {

/// A hibernation-resume shows as wall-clock time that advanced by more than
/// the monotonic time plus the threshold. Equality is not divergence.
pub open spec fn divergent(wall: int, mono: int, threshold: int) -> bool {
    wall > mono + threshold
}

/// Divergence test on elapsed times in nanoseconds. Exact for every input:
/// the sum `mono + threshold` is never wrapped.
pub fn is_divergent(wall_elapsed: u128, mono_elapsed: u128, threshold: u128) -> (r: bool)
    ensures
        r == divergent(wall_elapsed as int, mono_elapsed as int, threshold as int),
{
    match mono_elapsed.checked_add(threshold) {
        Some(limit) => wall_elapsed > limit,
        None => false,
    }
}

/// Divergence is strict and needs wall-clock time to pass: equal advances
/// of both clocks never diverge whatever the threshold, and neither does a
/// wall clock that did not advance at all.
pub proof fn lemma_divergence_needs_wall_advance(mono: nat, threshold: nat)
    ensures
        !divergent((mono + threshold) as int, mono as int, threshold as int),
        !divergent(0, mono as int, threshold as int),
{
}

/// Divergence test on `Duration`s: true iff the wall elapsed time exceeds the
/// monotonic elapsed time plus the threshold.
pub fn thaw_detected(wall_elapsed: Duration, mono_elapsed: Duration, threshold: Duration) -> (r:
    bool)
    ensures
        r == divergent(
            duration_nanos(wall_elapsed) as int,
            duration_nanos(mono_elapsed) as int,
            duration_nanos(threshold) as int,
        ),
{
    is_divergent(nanos_of(wall_elapsed), nanos_of(mono_elapsed), nanos_of(threshold))
}

/// One reading of both clocks, in nanoseconds: the wall clock since the epoch
/// (`None` when the read failed) and the monotonic clock since an arbitrary
/// fixed start.
#[derive(Clone, Copy, Debug, PartialEq, Eq)]
pub struct ClockSample {
    pub wall_ns: Option<u128>,
    pub mono_ns: u128,
}

/// What the watchdog thread does after a tick.
#[derive(Clone, Copy, Debug, PartialEq, Eq)]
pub enum WatchdogAction {
    /// Sleep one more interval.
    Continue,
    /// Hand the backend's process id to the restart controller.
    Restart,
}

/// The timing policy of the watchdog.
#[derive(Clone, Copy, Debug, PartialEq, Eq)]
pub struct WatchdogPolicy {
    pub interval_ms: u64,
    pub forced_interval_ms: u64,
    pub threshold_ns: u128,
}

/// The state kept between ticks: the previous clock sample.
#[derive(Clone, Copy, Debug, PartialEq, Eq)]
pub struct Watchdog {
    pub last_wall_ns: Option<u128>,
    pub last_mono_ns: u128,
}

/// `a - b`, or zero where the clock went backwards.
pub open spec fn elapsed(later: int, earlier: int) -> int {
    if later >= earlier {
        later - earlier
    } else {
        0
    }
}

/// The action a tick takes.
pub open spec fn tick_action(w: Watchdog, now: ClockSample, forced: bool, threshold: u128) -> WatchdogAction {
    if forced {
        WatchdogAction::Restart
    } else {
        match (w.last_wall_ns, now.wall_ns) {
            (Some(last), Some(wall)) => if divergent(
                elapsed(wall as int, last as int),
                elapsed(now.mono_ns as int, w.last_mono_ns as int),
                threshold as int,
            ) {
                WatchdogAction::Restart
            } else {
                WatchdogAction::Continue
            },
            _ => WatchdogAction::Continue,
        }
    }
}

/// The state after a tick: a failed wall-clock read skips the tick and keeps
/// the previous sample; a forced trigger leaves the state as it was.
pub open spec fn tick_state(w: Watchdog, now: ClockSample, forced: bool) -> Watchdog {
    if forced {
        w
    } else {
        match now.wall_ns {
            Some(wall) => Watchdog { last_wall_ns: Some(wall), last_mono_ns: now.mono_ns },
            None => w,
        }
    }
}

fn saturating_elapsed(later: u128, earlier: u128) -> (r: u128)
    ensures
        r as int == elapsed(later as int, earlier as int),
{
    if later >= earlier {
        later - earlier
    } else {
        0
    }
}

impl WatchdogPolicy {
    /// How long the thread sleeps before the next tick: a forced trigger
    /// uses the short interval.
    pub fn sleep_ms(&self, forced: bool) -> (r: u64)
        ensures
            r == if forced { self.forced_interval_ms } else { self.interval_ms },
    {
        if forced {
            self.forced_interval_ms
        } else {
            self.interval_ms
        }
    }
}

impl Watchdog {
    /// Starts from a first sample.
    pub fn new(first: ClockSample) -> (r: Watchdog)
        ensures
            r.last_wall_ns == first.wall_ns,
            r.last_mono_ns == first.mono_ns,
    {
        Watchdog { last_wall_ns: first.wall_ns, last_mono_ns: first.mono_ns }
    }

    /// One tick: a forced trigger restarts whatever the clocks say; else the
    /// elapsed times against the previous sample (zero where a clock went
    /// backwards) are tested for divergence, and the sample is kept.
    pub fn tick(&mut self, now: ClockSample, forced: bool, threshold_ns: u128) -> (r: WatchdogAction)
        ensures
            r == tick_action(*old(self), now, forced, threshold_ns),
            *final(self) == tick_state(*old(self), now, forced),
    {
        if forced {
            return WatchdogAction::Restart;
        }
        match now.wall_ns {
            None => WatchdogAction::Continue,
            Some(wall) => {
                let last_wall = self.last_wall_ns;
                let last_mono = self.last_mono_ns;
                self.last_wall_ns = Some(wall);
                self.last_mono_ns = now.mono_ns;
                match last_wall {
                    None => WatchdogAction::Continue,
                    Some(last) => {
                        let wall_elapsed = saturating_elapsed(wall, last);
                        let mono_elapsed = saturating_elapsed(now.mono_ns, last_mono);
                        if is_divergent(wall_elapsed, mono_elapsed, threshold_ns) {
                            WatchdogAction::Restart
                        } else {
                            WatchdogAction::Continue
                        }
                    }
                }
            }
        }
    }
}

/// Without a forced trigger, a tick whose wall-clock advance stays within the
/// monotonic advance plus the threshold never restarts: ordinary clock
/// jitter below the threshold keeps the process running.
pub proof fn lemma_no_restart_within_threshold(w: Watchdog, now: ClockSample, threshold: u128)
    requires
        w.last_wall_ns is Some,
        now.wall_ns is Some,
        elapsed(now.wall_ns->0 as int, w.last_wall_ns->0 as int) <= elapsed(
            now.mono_ns as int,
            w.last_mono_ns as int,
        ) + threshold,
    ensures
        tick_action(w, now, false, threshold) == WatchdogAction::Continue,
{
}

/// A wall clock that did not advance (or went backwards) never signals a
/// hibernation-resume, whatever the monotonic clock did.
pub proof fn lemma_still_wall_never_diverges(w: Watchdog, now: ClockSample, threshold: u128)
    requires
        w.last_wall_ns is Some,
        now.wall_ns is Some,
        now.wall_ns->0 <= w.last_wall_ns->0,
    ensures
        tick_action(w, now, false, threshold) == WatchdogAction::Continue,
{
}

/// A forced trigger restarts on the next tick whatever the clocks read, and a
/// tick that restarts does so because of the trigger or a divergence.
pub proof fn lemma_restart_iff_forced_or_divergent(w: Watchdog, now: ClockSample, forced: bool, threshold: u128)
    ensures
        tick_action(w, now, forced, threshold) == WatchdogAction::Restart <==> (forced || (
        w.last_wall_ns is Some && now.wall_ns is Some && divergent(
            elapsed(now.wall_ns->0 as int, w.last_wall_ns->0 as int),
            elapsed(now.mono_ns as int, w.last_mono_ns as int),
            threshold as int,
        ))),
{
}

impl WatchdogPolicy {
    /// Ticks every five seconds (every second while a restart is forced),
    /// and a wall clock five seconds ahead of the monotonic one is a
    /// hibernation-resume.
    pub fn standard() -> (r: WatchdogPolicy)
        ensures
            r.interval_ms == 5000,
            r.forced_interval_ms == 1000,
            r.threshold_ns == 5_000_000_000,
    {
        WatchdogPolicy { interval_ms: 5000, forced_interval_ms: 1000, threshold_ns: 5_000_000_000 }
    }
}

} // verus!
