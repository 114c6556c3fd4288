//! The supervisor's decisions: whether a generation runs at all, when the
//! backend counts as ready, and what the first finisher of the race between
//! backend exit, proxy failure and shutdown request leads to.
use vstd::prelude::*;

verus! {

/// How a fresh generation starts.
#[derive(Clone, Copy, Debug, PartialEq, Eq)]
pub enum GenerationStart {
    /// Run the whole startup sequence.
    Run,
    /// A generation launched by a verification restart exits with status 0
    /// at once, so that a forced restart happens exactly once.
    ExitCleanly,
}

/// Decides how a generation starts from whether it was launched by a
/// verification restart.
pub fn generation_start(started_by_restart: bool) -> (r: GenerationStart)
    ensures
        r == (if started_by_restart {
            GenerationStart::ExitCleanly
        } else {
            GenerationStart::Run
        }),
{
    if started_by_restart {
        GenerationStart::ExitCleanly
    } else {
        GenerationStart::Run
    }
}

/// The readiness poll's policy: its deadline and retry cadence.
#[derive(Clone, Copy, Debug, PartialEq, Eq)]
pub struct ReadinessPolicy {
    pub timeout_ms: u64,
    pub retry_ms: u64,
}

/// What the readiness poll does after one connection attempt.
#[derive(Clone, Copy, Debug, PartialEq, Eq)]
pub enum Readiness {
    Ready,
    RetryAfter(u64),
    /// The deadline passed: a fatal startup error.
    TimedOut,
}

/// One round of the readiness poll: ready on a successful connection, else
/// a timeout once the deadline has passed, else another try after the
/// retry delay.
pub fn readiness_next(connected: bool, elapsed_ms: u64, policy: ReadinessPolicy) -> (r: Readiness)
    ensures
        r == (if connected {
            Readiness::Ready
        } else if elapsed_ms >= policy.timeout_ms {
            Readiness::TimedOut
        } else {
            Readiness::RetryAfter(policy.retry_ms)
        }),
{
    if connected {
        Readiness::Ready
    } else if elapsed_ms >= policy.timeout_ms {
        Readiness::TimedOut
    } else {
        Readiness::RetryAfter(policy.retry_ms)
    }
}

/// The first of the three raced operations to finish.
#[derive(Clone, Copy, Debug, PartialEq, Eq)]
pub enum RaceWinner {
    BackendExited,
    ProxyFailed,
    ShutdownRequested,
}

/// How the process ends.
#[derive(Clone, Copy, Debug, PartialEq, Eq)]
pub enum Ending {
    /// Exit with this status.
    Exit(i32),
    /// Block: the restart controller is about to replace the process image.
    AwaitReplacement,
}

/// What the supervisor does once the race is decided.
#[derive(Clone, Copy, Debug, PartialEq, Eq)]
pub struct Settlement {
    pub kill_backend: bool,
    pub remove_marker: bool,
    pub deregister: bool,
    pub ending: Ending,
}

pub const FATAL_STATUS: i32 = 1;

pub const CLEAN_STATUS: i32 = 0;

pub open spec fn settle_spec(winner: RaceWinner, restart_in_flight: bool) -> Settlement {
    match winner {
        RaceWinner::BackendExited => if restart_in_flight {
            Settlement {
                kill_backend: false,
                remove_marker: false,
                deregister: false,
                ending: Ending::AwaitReplacement,
            }
        } else {
            Settlement {
                kill_backend: false,
                remove_marker: false,
                deregister: false,
                ending: Ending::Exit(FATAL_STATUS),
            }
        },
        RaceWinner::ProxyFailed => Settlement {
            kill_backend: true,
            remove_marker: false,
            deregister: false,
            ending: Ending::Exit(FATAL_STATUS),
        },
        RaceWinner::ShutdownRequested => Settlement {
            kill_backend: true,
            remove_marker: true,
            deregister: true,
            ending: Ending::Exit(CLEAN_STATUS),
        },
    }
}

/// Settles the race. A backend that exits while no restart is in flight is
/// fatal; one that exits during a planned restart makes the supervisor
/// wait for the image replacement; a failed proxy kills the backend and is
/// fatal; a shutdown request kills the backend, deletes the marker,
/// deregisters and exits cleanly.
pub fn settle(winner: RaceWinner, restart_in_flight: bool) -> (r: Settlement)
    ensures
        r == settle_spec(winner, restart_in_flight),
{
    match winner {
        RaceWinner::BackendExited => if restart_in_flight {
            Settlement {
                kill_backend: false,
                remove_marker: false,
                deregister: false,
                ending: Ending::AwaitReplacement,
            }
        } else {
            Settlement {
                kill_backend: false,
                remove_marker: false,
                deregister: false,
                ending: Ending::Exit(FATAL_STATUS),
            }
        },
        RaceWinner::ProxyFailed => Settlement {
            kill_backend: true,
            remove_marker: false,
            deregister: false,
            ending: Ending::Exit(FATAL_STATUS),
        },
        RaceWinner::ShutdownRequested => Settlement {
            kill_backend: true,
            remove_marker: true,
            deregister: true,
            ending: Ending::Exit(CLEAN_STATUS),
        },
    }
}

/// The process exits with status 0 exactly on a shutdown request; every
/// other exit is non-zero, and a backend exit during a planned restart never
/// exits at all.
pub proof fn lemma_exit_status(winner: RaceWinner, restart_in_flight: bool)
    ensures
        settle_spec(winner, restart_in_flight).ending == Ending::Exit(0) <==> winner
            == RaceWinner::ShutdownRequested,
        settle_spec(winner, restart_in_flight).ending is Exit ==> (settle_spec(
            winner,
            restart_in_flight,
        ).ending->Exit_0 != 0 <==> winner != RaceWinner::ShutdownRequested),
        (winner == RaceWinner::BackendExited && restart_in_flight) ==> settle_spec(
            winner,
            restart_in_flight,
        ).ending == Ending::AwaitReplacement,
{
}

impl ReadinessPolicy {
    /// A try every 200 ms, for at most eight seconds.
    pub fn standard() -> (r: ReadinessPolicy)
        ensures
            r.timeout_ms == 8000,
            r.retry_ms == 200,
    {
        ReadinessPolicy { timeout_ms: 8000, retry_ms: 200 }
    }
}

} // verus!
