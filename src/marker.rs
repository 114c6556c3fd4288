//! The pid marker: a file holding the backend's process id in decimal,
//! written once the backend is ready and read at the next start to reclaim a
//! backend left over from an ungraceful exit.
use crate::text::{all_digits, digits_value, is_digit, lemma_digits_monotone};
use vstd::prelude::*;

verus! {

/// The characters that Unicode calls White_Space, which `str::trim` strips.
pub open spec fn is_space(c: char) -> bool {
    c == ' ' || ('\u{9}' <= c && c <= '\u{d}') || c == '\u{85}' || c == '\u{a0}' || c
        == '\u{1680}' || ('\u{2000}' <= c && c <= '\u{200a}') || c == '\u{2028}' || c
        == '\u{2029}' || c == '\u{202f}' || c == '\u{205f}' || c == '\u{3000}'
}

/// The text without its leading white space.
pub open spec fn trim_start(s: Seq<char>) -> Seq<char>
    decreases s.len(),
{
    if s.len() > 0 && is_space(s[0]) {
        trim_start(s.drop_first())
    } else {
        s
    }
}

/// The text without its trailing white space.
pub open spec fn trim_end(s: Seq<char>) -> Seq<char>
    decreases s.len(),
{
    if s.len() > 0 && is_space(s.last()) {
        trim_end(s.drop_last())
    } else {
        s
    }
}

/// The text without its leading and trailing white space, as `str::trim`
/// gives it.
pub open spec fn trim(s: Seq<char>) -> Seq<char> {
    trim_end(trim_start(s))
}

/// What `i32::from_str` accepts: an optional sign, then one or more decimal
/// digits, with a value in range.
pub open spec fn parse_i32(s: Seq<char>) -> Option<i32> {
    let negative = s.len() > 0 && s[0] == '-';
    let signed = s.len() > 0 && (s[0] == '-' || s[0] == '+');
    let digits = if signed {
        s.drop_first()
    } else {
        s
    };
    let v: int = if negative {
        -digits_value(digits)
    } else {
        digits_value(digits) as int
    };
    if digits.len() > 0 && all_digits(digits) && i32::MIN <= v <= i32::MAX {
        Some(v as i32)
    } else {
        None
    }
}

/// The process id a marker's text names: the trimmed text read as an `i32`,
/// kept only when positive, since zero and negative ids address process
/// groups rather than one process.
pub open spec fn marker_pid_spec(text: Seq<char>) -> Option<i32> {
    match parse_i32(trim(text)) {
        Some(p) => if p > 0 {
            Some(p)
        } else {
            None
        },
        None => None,
    }
}

proof fn lemma_trim_start_skip(s: Seq<char>, i: int)
    requires
        0 <= i < s.len(),
        is_space(s[i]),
    ensures
        trim_start(s.subrange(i, s.len() as int)) == trim_start(s.subrange(i + 1, s.len() as int)),
{
    let t = s.subrange(i, s.len() as int);
    assert(t.drop_first() =~= s.subrange(i + 1, s.len() as int));
}

proof fn lemma_trim_end_skip(s: Seq<char>, j: int)
    requires
        0 < j <= s.len(),
        is_space(s[j - 1]),
    ensures
        trim_end(s.subrange(0, j)) == trim_end(s.subrange(0, j - 1)),
{
    let t = s.subrange(0, j);
    assert(t.drop_last() =~= s.subrange(0, j - 1));
}

/// Reads the process id out of a marker's text; `None` for text that does
/// not name a positive `i32`.
pub fn marker_pid(text: &str) -> (r: Option<i32>)
    ensures
        r == marker_pid_spec(text@),
{
    let ghost s = text@;
    let n = text.unicode_len();
    let mut start: usize = 0;
    assert(s.subrange(0, n as int) =~= s);
    while start < n && is_space_char(text.get_char(start))
        invariant
            s == text@,
            n == s.len(),
            0 <= start <= n,
            trim_start(s) == trim_start(s.subrange(start as int, n as int)),
        decreases n - start,
    {
        proof {
            lemma_trim_start_skip(s, start as int);
        }
        start = start + 1;
    }
    let ghost front = s.subrange(start as int, n as int);
    assert(trim_start(s) == front) by {
        if front.len() > 0 {
            assert(front[0] == s[start as int]);
        }
    }
    let mut end: usize = n;
    assert(front.subrange(0, end - start) =~= front);
    while end > start && is_space_char(text.get_char(end - 1))
        invariant
            s == text@,
            n == s.len(),
            start <= end <= n,
            front == s.subrange(start as int, n as int),
            trim_end(front) == trim_end(front.subrange(0, end - start)),
        decreases end,
    {
        proof {
            assert(front[end - start - 1] == s[end - 1]);
            lemma_trim_end_skip(front, (end - start) as int);
            assert(front.subrange(0, end - start).subrange(0, end - start - 1) =~= front.subrange(0, end - start - 1));
        }
        end = end - 1;
    }
    let ghost t = front.subrange(0, end - start);
    assert(trim(s) == t) by {
        if t.len() > 0 {
            assert(t.last() == s[end - 1]);
        }
    }
    assert(t =~= s.subrange(start as int, end as int));
    let mut i: usize = start;
    let mut negative = false;
    if start < end {
        let c = text.get_char(start);
        if c == '-' {
            negative = true;
            i = start + 1;
        } else if c == '+' {
            i = start + 1;
        }
    }
    let ghost digits = s.subrange(i as int, end as int);
    assert(t.len() > 0 && (t[0] == '-' || t[0] == '+') ==> digits =~= t.drop_first());
    assert(!(t.len() > 0 && (t[0] == '-' || t[0] == '+')) ==> digits =~= t);
    assert(negative == (t.len() > 0 && t[0] == '-'));
    if i >= end {
        return None;
    }
    let mut acc: u64 = 0;
    let mut j: usize = i;
    while j < end
        invariant
            s == text@,
            n == s.len(),
            i <= j <= end <= n,
            digits == s.subrange(i as int, end as int),
            all_digits(s.subrange(i as int, j as int)),
            acc as nat == digits_value(s.subrange(i as int, j as int)),
            acc <= 0x8000_0000,
            trim(s) == t,
            t.len() > 0 && (t[0] == '-' || t[0] == '+') ==> digits == t.drop_first(),
            !(t.len() > 0 && (t[0] == '-' || t[0] == '+')) ==> digits == t,
        decreases end - j,
    {
        let c = text.get_char(j);
        if !('0' <= c && c <= '9') {
            assert(digits[j - i] == s[j as int]);
            assert(!is_digit(digits[j - i]));
            assert(!all_digits(digits));
            assert(parse_i32(t) is None);
            return None;
        }
        let ghost pre = s.subrange(i as int, j as int);
        let ghost next = s.subrange(i as int, j + 1);
        assert(next.drop_last() =~= pre);
        assert(next.last() == c);
        let d = (c as u32 - '0' as u32) as u64;
        let v = acc * 10 + d;
        assert(all_digits(next)) by {
            assert forall|k: int| 0 <= k < next.len() implies is_digit(#[trigger] next[k]) by {
                if k < pre.len() {
                    assert(next[k] == pre[k]);
                }
            }
        }
        assert(digits_value(next) == v);
        if v > 0x8000_0000 {
            proof {
                assert(digits.subrange(0, (j + 1 - i) as int) =~= next);
                lemma_digits_monotone(digits, (j + 1 - i) as int);
                assert(parse_i32(t) is None);
            }
            return None;
        }
        acc = v;
        j = j + 1;
    }
    assert(s.subrange(i as int, j as int) =~= digits);
    if negative || acc == 0 || acc > 0x7fff_ffff {
        None
    } else {
        Some(acc as i32)
    }
}

fn is_space_char(c: char) -> (r: bool)
    ensures
        r == is_space(c),
{
    c == ' ' || ('\u{9}' <= c && c <= '\u{d}') || c == '\u{85}' || c == '\u{a0}' || c
        == '\u{1680}' || ('\u{2000}' <= c && c <= '\u{200a}') || c == '\u{2028}' || c
        == '\u{2029}' || c == '\u{202f}' || c == '\u{205f}' || c == '\u{3000}'
}

/// Where the reclaiming of a stale backend stands.
#[derive(Clone, Copy, Debug, PartialEq, Eq)]
pub enum ReclaimPhase {
    Begin,
    StopSent,
    GraceOver,
    Probing,
    Killed,
    Removing,
    Done,
}

/// What happened after the last action.
#[derive(Clone, Copy, Debug, PartialEq, Eq)]
pub enum ReclaimEvent {
    /// The action was carried out.
    Done,
    /// The answer of a liveness probe.
    Alive(bool),
}

/// The next thing to do.
#[derive(Clone, Copy, Debug, PartialEq, Eq)]
pub enum ReclaimAction {
    SendStop(i32),
    Wait(u64),
    ProbeAlive(i32),
    ForceKill(i32),
    RemoveMarker,
    Finish,
}

/// Reclaiming what a marker left by an earlier run names: stop the process
/// it names (if it names one), then delete the marker. Nothing here can
/// fail: a dead or invalid process id only skips the stopping.
#[derive(Clone, Copy, Debug, PartialEq, Eq)]
pub struct Reclaim {
    pub marker_found: bool,
    pub pid: Option<i32>,
    pub grace_ms: u64,
    pub phase: ReclaimPhase,
}

impl Reclaim {
    pub open spec fn wf(&self) -> bool {
        (self.phase == ReclaimPhase::StopSent || self.phase == ReclaimPhase::GraceOver
            || self.phase == ReclaimPhase::Probing || self.phase == ReclaimPhase::Killed)
            ==> self.pid is Some
    }

    pub open spec fn step_spec(self, e: ReclaimEvent) -> (Reclaim, ReclaimAction) {
        let with = |p: ReclaimPhase| Reclaim { phase: p, ..self };
        match self.phase {
            ReclaimPhase::Begin => if !self.marker_found {
                (with(ReclaimPhase::Done), ReclaimAction::Finish)
            } else {
                match self.pid {
                    Some(p) => (with(ReclaimPhase::StopSent), ReclaimAction::SendStop(p)),
                    None => (with(ReclaimPhase::Removing), ReclaimAction::RemoveMarker),
                }
            },
            ReclaimPhase::StopSent => (with(ReclaimPhase::GraceOver), ReclaimAction::Wait(self.grace_ms)),
            ReclaimPhase::GraceOver => (with(ReclaimPhase::Probing), ReclaimAction::ProbeAlive(self.pid->0)),
            ReclaimPhase::Probing => match e {
                ReclaimEvent::Alive(true) => (with(ReclaimPhase::Killed), ReclaimAction::ForceKill(self.pid->0)),
                _ => (with(ReclaimPhase::Removing), ReclaimAction::RemoveMarker),
            },
            ReclaimPhase::Killed => (with(ReclaimPhase::Removing), ReclaimAction::RemoveMarker),
            ReclaimPhase::Removing => (with(ReclaimPhase::Done), ReclaimAction::Finish),
            ReclaimPhase::Done => (self, ReclaimAction::Finish),
        }
    }

    /// Starts from the marker's text, `None` when no marker could be read.
    pub fn new(marker: Option<&str>, grace_ms: u64) -> (r: Reclaim)
        ensures
            r.wf(),
            r.phase == ReclaimPhase::Begin,
            r.grace_ms == grace_ms,
            r.marker_found == marker is Some,
            r.pid == match marker {
                Some(t) => marker_pid_spec(t@),
                None => None,
            },
    {
        match marker {
            Some(t) => Reclaim { marker_found: true, pid: marker_pid(t), grace_ms, phase: ReclaimPhase::Begin },
            None => Reclaim { marker_found: false, pid: None, grace_ms, phase: ReclaimPhase::Begin },
        }
    }

    /// Advances by one step, given what the last action did. A probe that
    /// is not answered `Alive(true)` counts as the process being gone.
    pub fn step(&mut self, event: ReclaimEvent) -> (r: ReclaimAction)
        requires
            old(self).wf(),
        ensures
            final(self).wf(),
            (*final(self), r) == old(self).step_spec(event),
    {
        match self.phase {
            ReclaimPhase::Begin => {
                if !self.marker_found {
                    self.phase = ReclaimPhase::Done;
                    ReclaimAction::Finish
                } else {
                    match self.pid {
                        Some(p) => {
                            self.phase = ReclaimPhase::StopSent;
                            ReclaimAction::SendStop(p)
                        },
                        None => {
                            self.phase = ReclaimPhase::Removing;
                            ReclaimAction::RemoveMarker
                        },
                    }
                }
            },
            ReclaimPhase::StopSent => {
                self.phase = ReclaimPhase::GraceOver;
                ReclaimAction::Wait(self.grace_ms)
            },
            ReclaimPhase::GraceOver => {
                self.phase = ReclaimPhase::Probing;
                ReclaimAction::ProbeAlive(self.pid.unwrap())
            },
            ReclaimPhase::Probing => match event {
                ReclaimEvent::Alive(true) => {
                    self.phase = ReclaimPhase::Killed;
                    ReclaimAction::ForceKill(self.pid.unwrap())
                },
                _ => {
                    self.phase = ReclaimPhase::Removing;
                    ReclaimAction::RemoveMarker
                },
            },
            ReclaimPhase::Killed => {
                self.phase = ReclaimPhase::Removing;
                ReclaimAction::RemoveMarker
            },
            ReclaimPhase::Removing => {
                self.phase = ReclaimPhase::Done;
                ReclaimAction::Finish
            },
            ReclaimPhase::Done => ReclaimAction::Finish,
        }
    }
}

/// A marker whose text names no usable process id is deleted at once,
/// with no process signalled and no error.
pub proof fn lemma_invalid_marker_removed(text: Seq<char>, grace_ms: u64, e1: ReclaimEvent, e2: ReclaimEvent)
    requires
        marker_pid_spec(text) is None,
    ensures
        ({
            let r0 = Reclaim { marker_found: true, pid: marker_pid_spec(text), grace_ms, phase: ReclaimPhase::Begin };
            let s1 = r0.step_spec(e1);
            let s2 = s1.0.step_spec(e2);
            s1.1 == ReclaimAction::RemoveMarker && s2.1 == ReclaimAction::Finish
        }),
{
}

/// A marker naming a process is deleted after the process was asked to
/// stop, given the grace period and probed; a process found dead is not
/// killed, one found alive is, and either way the run ends without error.
pub proof fn lemma_named_marker_removed(text: Seq<char>, grace_ms: u64, alive: bool)
    requires
        marker_pid_spec(text) is Some,
    ensures
        ({
            let pid = marker_pid_spec(text)->0;
            let r0 = Reclaim { marker_found: true, pid: Some(pid), grace_ms, phase: ReclaimPhase::Begin };
            let s1 = r0.step_spec(ReclaimEvent::Done);
            let s2 = s1.0.step_spec(ReclaimEvent::Done);
            let s3 = s2.0.step_spec(ReclaimEvent::Done);
            let s4 = s3.0.step_spec(ReclaimEvent::Alive(alive));
            let s5 = s4.0.step_spec(ReclaimEvent::Done);
            let s6 = s5.0.step_spec(ReclaimEvent::Done);
            &&& s1.1 == ReclaimAction::SendStop(pid)
            &&& s2.1 == ReclaimAction::Wait(grace_ms)
            &&& s3.1 == ReclaimAction::ProbeAlive(pid)
            &&& !alive ==> s4.1 == ReclaimAction::RemoveMarker && s5.1 == ReclaimAction::Finish
            &&& alive ==> s4.1 == ReclaimAction::ForceKill(pid) && s5.1 == ReclaimAction::RemoveMarker
                && s6.1 == ReclaimAction::Finish
        }),
{
}

/// The grace period between asking a stale backend to stop and probing it.
pub const RECLAIM_GRACE_MS: u64 = 500;

/// The marker's file name in the data directory.
pub const MARKER_FILE: &'static str = "opencode.pid";

} // verus!
