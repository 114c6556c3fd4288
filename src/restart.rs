//! The self-restart protocol as a state machine. The caller performs each
//! returned action (raise the shared restart flag, signal, sleep, probe,
//! replace the process image, exit) and feeds back what happened.
use vstd::prelude::*;

verus! {

/// Where the protocol stands.
#[derive(Clone, Copy, Debug, PartialEq, Eq)]
pub enum RestartPhase {
    /// Nothing done yet.
    Begin,
    /// The restart-in-flight flag is raised.
    FlagRaised,
    /// The backend was asked to stop.
    StopSent,
    /// The grace period is over.
    GraceOver,
    /// The backend's liveness was asked for.
    Probing,
    /// The backend was force-killed.
    Killed,
    /// Replacement of the process image was attempted.
    Replacing,
    /// Replacement failed; the process exits.
    Failed,
}

/// What happened after the last action.
#[derive(Clone, Copy, Debug, PartialEq, Eq)]
pub enum RestartEvent {
    /// The action was carried out.
    Done,
    /// The answer of a liveness probe.
    Alive(bool),
    /// Replacing the process image returned, so it failed.
    ReplaceFailed,
}

/// The next thing to do.
#[derive(Clone, Copy, Debug, PartialEq, Eq)]
pub enum RestartAction {
    RaiseFlag,
    SendStop(i32),
    Wait(u64),
    ProbeAlive(i32),
    ForceKill(i32),
    /// Replace the process image with a fresh launch of the same executable
    /// and arguments, with the forced trigger removed from the environment
    /// and the restarted-generation marker set.
    ReplaceImage,
    Exit(i32),
}

/// The status with which a process whose replacement failed exits.
pub const RESTART_FAILURE_STATUS: i32 = 1;

/// A restart in progress: the backend to stop, if known, and the grace
/// period between the stop request and the liveness probe.
#[derive(Clone, Copy, Debug, PartialEq, Eq)]
pub struct Restart {
    pub backend: Option<i32>,
    pub grace_ms: u64,
    pub phase: RestartPhase,
}

/// The phases that need a known backend.
pub open spec fn needs_backend(p: RestartPhase) -> bool {
    p == RestartPhase::StopSent || p == RestartPhase::GraceOver || p == RestartPhase::Probing
        || p == RestartPhase::Killed
}

impl Restart {
    /// A restart is well formed when every phase that acts on the backend
    /// has one to act on.
    pub open spec fn wf(&self) -> bool {
        needs_backend(self.phase) ==> self.backend is Some
    }

    /// The transition of the protocol: the next phase and the action.
    pub open spec fn step_spec(self, e: RestartEvent) -> (Restart, RestartAction) {
        let with = |p: RestartPhase| Restart { phase: p, ..self };
        match self.phase {
            RestartPhase::Begin => (with(RestartPhase::FlagRaised), RestartAction::RaiseFlag),
            RestartPhase::FlagRaised => match self.backend {
                Some(pid) => (with(RestartPhase::StopSent), RestartAction::SendStop(pid)),
                None => (with(RestartPhase::Replacing), RestartAction::ReplaceImage),
            },
            RestartPhase::StopSent => (with(RestartPhase::GraceOver), RestartAction::Wait(self.grace_ms)),
            RestartPhase::GraceOver => (with(RestartPhase::Probing), RestartAction::ProbeAlive(self.backend->0)),
            RestartPhase::Probing => match e {
                RestartEvent::Alive(true) => (with(RestartPhase::Killed), RestartAction::ForceKill(self.backend->0)),
                _ => (with(RestartPhase::Replacing), RestartAction::ReplaceImage),
            },
            RestartPhase::Killed => (with(RestartPhase::Replacing), RestartAction::ReplaceImage),
            RestartPhase::Replacing => (with(RestartPhase::Failed), RestartAction::Exit(RESTART_FAILURE_STATUS)),
            RestartPhase::Failed => (self, RestartAction::Exit(RESTART_FAILURE_STATUS)),
        }
    }

    /// A restart of the given backend, before anything was done.
    pub fn new(backend: Option<i32>, grace_ms: u64) -> (r: Restart)
        ensures
            r.wf(),
            r.backend == backend,
            r.grace_ms == grace_ms,
            r.phase == RestartPhase::Begin,
    {
        Restart { backend, grace_ms, phase: RestartPhase::Begin }
    }

    /// Advances the protocol by one step, given what the last action did.
    /// A probe that is not answered `Alive(true)` counts as the backend being
    /// gone; any event after an attempted replacement means it failed.
    pub fn step(&mut self, event: RestartEvent) -> (r: RestartAction)
        requires
            old(self).wf(),
        ensures
            final(self).wf(),
            (*final(self), r) == old(self).step_spec(event),
    {
        match self.phase {
            RestartPhase::Begin => {
                self.phase = RestartPhase::FlagRaised;
                RestartAction::RaiseFlag
            },
            RestartPhase::FlagRaised => match self.backend {
                Some(pid) => {
                    self.phase = RestartPhase::StopSent;
                    RestartAction::SendStop(pid)
                },
                None => {
                    self.phase = RestartPhase::Replacing;
                    RestartAction::ReplaceImage
                },
            },
            RestartPhase::StopSent => {
                self.phase = RestartPhase::GraceOver;
                RestartAction::Wait(self.grace_ms)
            },
            RestartPhase::GraceOver => {
                self.phase = RestartPhase::Probing;
                RestartAction::ProbeAlive(self.backend.unwrap())
            },
            RestartPhase::Probing => match event {
                RestartEvent::Alive(true) => {
                    self.phase = RestartPhase::Killed;
                    RestartAction::ForceKill(self.backend.unwrap())
                },
                _ => {
                    self.phase = RestartPhase::Replacing;
                    RestartAction::ReplaceImage
                },
            },
            RestartPhase::Killed => {
                self.phase = RestartPhase::Replacing;
                RestartAction::ReplaceImage
            },
            RestartPhase::Replacing => {
                self.phase = RestartPhase::Failed;
                RestartAction::Exit(RESTART_FAILURE_STATUS)
            },
            RestartPhase::Failed => RestartAction::Exit(RESTART_FAILURE_STATUS),
        }
    }
}

/// The process image is replaced only once the backend is out of the way: no
/// backend was known, a probe after the grace period found it gone, or it
/// was force-killed.
pub proof fn lemma_replace_only_after_backend_gone(r: Restart, e: RestartEvent)
    requires
        r.wf(),
        r.step_spec(e).1 == RestartAction::ReplaceImage,
    ensures
        (r.phase == RestartPhase::FlagRaised && r.backend is None) || (r.phase
            == RestartPhase::Probing && e != RestartEvent::Alive(true)) || r.phase
            == RestartPhase::Killed,
{
}

/// A failed replacement ends the process with a non-zero status: the step
/// after an attempted replacement, and every step after that, is an exit
/// with a non-zero status, never another attempt.
pub proof fn lemma_failed_replacement_exits_nonzero(r: Restart, e: RestartEvent)
    requires
        r.phase == RestartPhase::Replacing || r.phase == RestartPhase::Failed,
    ensures
        r.step_spec(e).1 is Exit,
        r.step_spec(e).1->Exit_0 != 0,
        r.step_spec(e).0.phase == RestartPhase::Failed,
{
}

/// From its start, whatever the probe answers, the protocol attempts the
/// replacement within six steps: it cannot loop before replacing.
pub proof fn lemma_replacement_is_reached(backend: Option<i32>, grace_ms: u64, alive: bool)
    ensures
        ({
            let r0 = Restart { backend, grace_ms, phase: RestartPhase::Begin };
            let s1 = r0.step_spec(RestartEvent::Done);
            let s2 = s1.0.step_spec(RestartEvent::Done);
            let s3 = s2.0.step_spec(RestartEvent::Done);
            let s4 = s3.0.step_spec(RestartEvent::Done);
            let s5 = s4.0.step_spec(RestartEvent::Alive(alive));
            let s6 = s5.0.step_spec(RestartEvent::Done);
            s1.1 == RestartAction::RaiseFlag && (backend is None ==> s2.1
                == RestartAction::ReplaceImage) && (backend is Some ==> (s2.1
                == RestartAction::SendStop(backend->0) && s3.1 == RestartAction::Wait(grace_ms)
                && s4.1 == RestartAction::ProbeAlive(backend->0) && (alive ==> s5.1
                == RestartAction::ForceKill(backend->0) && s6.1 == RestartAction::ReplaceImage)
                && (!alive ==> s5.1 == RestartAction::ReplaceImage)))
        }),
{
}

/// The grace period between asking the backend to stop and probing it.
pub const RESTART_GRACE_MS: u64 = 300;

/// Set in the environment, it makes the watchdog declare divergence on its
/// next tick. A restart removes it, so the new generation does not restart
/// again.
pub const FORCE_THAW_VAR: &'static str = "NIGHTSHIFT_TEST_FORCE_THAW";

/// Set in the environment, it names the executable that replaces the
/// process image instead of the running one.
pub const EXEC_TARGET_VAR: &'static str = "NIGHTSHIFT_TEST_EXEC_TARGET";

/// Set by a restart in the new generation's environment.
pub const IS_RESTART_VAR: &'static str = "NIGHTSHIFT_TEST_IS_RESTART";

/// The executable that replaces the process image: the configured
/// override if any, else the running executable if it can be located.
pub fn exec_target<T>(override_target: Option<T>, current: Option<T>) -> (r: Option<T>)
    ensures
        r == match override_target {
            Some(t) => Some(t),
            None => current,
        },
{
    match override_target {
        Some(t) => Some(t),
        None => current,
    }
}

} // verus!
