//! Tool-call records of team members and their per-kind tallies.
use crate::text::{chars_of, prefix_len_within, prefix_within, string_of, utf8_len};
use vstd::prelude::*;

verus! {

#[derive(Debug, Clone)]
pub struct ToolCall {
    pub tool: String,
    pub title: Option<String>,
    pub input_summary: String,
    pub status: String,
    pub timestamp: u64,
    pub duration_ms: Option<u64>,
}

#[derive(Debug, Clone)]
pub struct MemberToolHistory {
    pub name: String,
    pub team: String,
    pub backend: String,
    pub tool_calls: Vec<ToolCall>,
    pub stats: ToolStats,
}

/// How many calls there were, and how many of each kind.
#[derive(Debug, Clone, Copy, Default, PartialEq, Eq)]
pub struct ToolStats {
    pub total: u32,
    pub reads: u32,
    pub writes: u32,
    pub edits: u32,
    pub bash: u32,
    pub other: u32,
}

/// The lower-case form of a string, as `str::to_lowercase` gives it.
pub uninterp spec fn lower_of(s: Seq<char>) -> Seq<char>;

/// Relies on `str::to_lowercase`: the result depends on the characters of
/// `s` alone.
#[verifier::external_body]
fn lowercase(s: &str) -> (r: String)
    ensures
        r@ == lower_of(s@),
{
    s.to_lowercase()
}

/// How many of the (lower-cased) tool names equal `word`.
pub open spec fn count_named(names: Seq<Seq<char>>, word: Seq<char>) -> nat
    decreases names.len(),
{
    if names.len() == 0 {
        0
    } else {
        count_named(names.drop_last(), word) + if names.last() == word {
            1nat
        } else {
            0nat
        }
    }
}

pub open spec fn is_known(name: Seq<char>) -> bool {
    name == "read"@ || name == "write"@ || name == "edit"@ || name == "bash"@
}

/// How many of the names are none of the known kinds.
pub open spec fn count_other(names: Seq<Seq<char>>) -> nat
    decreases names.len(),
{
    if names.len() == 0 {
        0
    } else {
        count_other(names.drop_last()) + if is_known(names.last()) {
            0nat
        } else {
            1nat
        }
    }
}

/// The tallies of a list of lower-cased tool names.
pub open spec fn tally(names: Seq<Seq<char>>) -> ToolStats {
    ToolStats {
        total: names.len() as u32,
        reads: count_named(names, "read"@) as u32,
        writes: count_named(names, "write"@) as u32,
        edits: count_named(names, "edit"@) as u32,
        bash: count_named(names, "bash"@) as u32,
        other: count_other(names) as u32,
    }
}

proof fn lemma_counts_bounded(names: Seq<Seq<char>>, word: Seq<char>)
    ensures
        count_named(names, word) <= names.len(),
        count_other(names) <= names.len(),
    decreases names.len(),
{
    if names.len() > 0 {
        lemma_counts_bounded(names.drop_last(), word);
    }
}

pub open spec fn lowered_tools(calls: Seq<ToolCall>) -> Seq<Seq<char>> {
    calls.map_values(|c: ToolCall| lower_of(c.tool@))
}

impl ToolStats {
    fn add(&mut self, lowered: &String)
        requires
            old(self).total < u32::MAX,
            old(self).reads <= old(self).total,
            old(self).writes <= old(self).total,
            old(self).edits <= old(self).total,
            old(self).bash <= old(self).total,
            old(self).other <= old(self).total,
        ensures
            final(self).total == old(self).total + 1,
            final(self).reads == old(self).reads + if lowered@ == "read"@ { 1int } else { 0 },
            final(self).writes == old(self).writes + if lowered@ == "write"@ { 1int } else { 0 },
            final(self).edits == old(self).edits + if lowered@ == "edit"@ { 1int } else { 0 },
            final(self).bash == old(self).bash + if lowered@ == "bash"@ { 1int } else { 0 },
            final(self).other == old(self).other + if is_known(lowered@) { 0int } else { 1 },
    {
        proof {
            reveal_strlit("read");
            reveal_strlit("write");
            reveal_strlit("edit");
            reveal_strlit("bash");
            assert("read"@[0] != "write"@[0] && "read"@[0] != "edit"@[0] && "read"@[0] != "bash"@[0]);
            assert("write"@[0] != "edit"@[0] && "write"@[0] != "bash"@[0] && "edit"@[0] != "bash"@[0]);
        }
        self.total = self.total + 1;
        if *lowered == String::from_str("read") {
            self.reads = self.reads + 1;
        } else if *lowered == String::from_str("write") {
            self.writes = self.writes + 1;
        } else if *lowered == String::from_str("edit") {
            self.edits = self.edits + 1;
        } else if *lowered == String::from_str("bash") {
            self.bash = self.bash + 1;
        } else {
            self.other = self.other + 1;
        }
    }

    /// Tallies tool names that are already lower-cased: `read`, `write`,
    /// `edit` and `bash` count as their kind, anything else as other.
    pub fn from_lowered(names: &[String]) -> (r: ToolStats)
        requires
            names@.len() <= u32::MAX,
        ensures
            r == tally(names@.map_values(|s: String| s@)),
    {
        let ghost all = names@.map_values(|s: String| s@);
        let mut stats = ToolStats { total: 0, reads: 0, writes: 0, edits: 0, bash: 0, other: 0 };
        let mut i: usize = 0;
        while i < names.len()
            invariant
                i <= names@.len() <= u32::MAX,
                all == names@.map_values(|s: String| s@),
                stats == tally(all.subrange(0, i as int)),
            decreases names@.len() - i,
        {
            let ghost pre = all.subrange(0, i as int);
            let ghost next = all.subrange(0, i + 1);
            assert(next.drop_last() =~= pre);
            assert(next.last() == names@[i as int]@);
            proof {
                lemma_counts_bounded(pre, "read"@);
                lemma_counts_bounded(pre, "write"@);
                lemma_counts_bounded(pre, "edit"@);
                lemma_counts_bounded(pre, "bash"@);
            }
            stats.add(&names[i]);
            i = i + 1;
        }
        assert(all.subrange(0, names@.len() as int) =~= all);
        stats
    }

    /// Tallies calls by the lower-cased name of their tool.
    pub fn from_calls(calls: &[ToolCall]) -> (r: ToolStats)
        requires
            calls@.len() <= u32::MAX,
        ensures
            r == tally(lowered_tools(calls@)),
    {
        let mut names: Vec<String> = Vec::new();
        let mut i: usize = 0;
        while i < calls.len()
            invariant
                i <= calls@.len(),
                names@.map_values(|s: String| s@) == lowered_tools(calls@.subrange(0, i as int)),
            decreases calls@.len() - i,
        {
            let ghost before = names@.map_values(|s: String| s@);
            names.push(lowercase(calls[i].tool.as_str()));
            assert(names@.map_values(|s: String| s@) =~= before.push(lower_of(calls@[i as int].tool@)));
            assert(lowered_tools(calls@.subrange(0, i + 1)) =~= lowered_tools(calls@.subrange(0, i as int)).push(lower_of(calls@[i as int].tool@)));
            i = i + 1;
        }
        assert(calls@.subrange(0, calls@.len() as int) =~= calls@);
        ToolStats::from_lowered(names.as_slice())
    }
}

/// The fields of a tool's input that a summary reads: the file path (under
/// `file_path`, else `filePath`), the shell command, the search pattern and
/// path, and the task description, each where it is a string.
#[derive(Debug, Clone, Default)]
pub struct ToolInput {
    pub file_path: Option<String>,
    pub command: Option<String>,
    pub pattern: Option<String>,
    pub path: Option<String>,
    pub description: Option<String>,
}

pub open spec fn text_or(o: Option<String>, fallback: Seq<char>) -> Seq<char> {
    match o {
        Some(s) => s@,
        None => fallback,
    }
}

/// The longest shell command shown whole, and the length it is cut to
/// before an ellipsis, in bytes.
pub const COMMAND_MAX_BYTES: usize = 80;

pub const COMMAND_CUT_BYTES: usize = 77;

/// A one-line summary of a tool call, by the lower-cased tool name: the
/// file for file tools, the command for the shell (cut with `...` when
/// long), the pattern for searches (with the searched path, if any), the
/// description for tasks, and else the tool's name.
pub open spec fn summary_spec(lowered: Seq<char>, tool: Seq<char>, input: ToolInput) -> Seq<char> {
    if lowered == "read"@ || lowered == "write"@ || lowered == "edit"@ {
        text_or(input.file_path, tool)
    } else if lowered == "bash"@ {
        let cmd = text_or(input.command, Seq::empty());
        if utf8_len(cmd) > COMMAND_MAX_BYTES {
            prefix_within(cmd, COMMAND_CUT_BYTES as nat) + "..."@
        } else {
            cmd
        }
    } else if lowered == "glob"@ {
        text_or(input.pattern, tool)
    } else if lowered == "grep"@ {
        let pattern = text_or(input.pattern, Seq::empty());
        let path = text_or(input.path, Seq::empty());
        if path.len() == 0 {
            pattern
        } else {
            pattern + " in "@ + path
        }
    } else if lowered == "task"@ {
        text_or(input.description, tool)
    } else {
        tool
    }
}

fn text_or_exec(o: &Option<String>, fallback: &str) -> (r: String)
    ensures
        r@ == text_or(*o, fallback@),
{
    match o {
        Some(s) => s.clone(),
        None => String::from_str(fallback),
    }
}

proof fn lemma_prefix_within_len(s: Seq<char>, max: nat)
    ensures
        prefix_within(s, max).len() <= s.len(),
        prefix_within(s, max).len() == s.len() <==> utf8_len(s) <= max,
    decreases s.len(),
{
    if s.len() > 0 && utf8_len(s) > max {
        lemma_prefix_within_len(s.drop_last(), max);
    }
}

fn summarize_command(command: &Option<String>) -> (r: String)
    ensures
        r@ == ({
            let cmd = text_or(*command, Seq::empty());
            if utf8_len(cmd) > COMMAND_MAX_BYTES {
                prefix_within(cmd, COMMAND_CUT_BYTES as nat) + "..."@
            } else {
                cmd
            }
        }),
{
    let cmd = text_or_exec(command, "");
    proof {
        reveal_strlit("");
    }
    let cs = chars_of(cmd.as_str());
    let fit = prefix_len_within(&cs, COMMAND_MAX_BYTES);
    proof {
        lemma_prefix_within_len(cs@, COMMAND_MAX_BYTES as nat);
    }
    if fit < cs.len() {
        let cut = prefix_len_within(&cs, COMMAND_CUT_BYTES);
        let head = string_of(vstd::slice::slice_subrange(cs.as_slice(), 0, cut));
        head.concat("...")
    } else {
        assert(cs@.subrange(0, fit as int) =~= cs@);
        cmd
    }
}

/// The summary of a call of a tool whose name is already lower-cased.
pub fn summarize_lowered(lowered: &str, tool: &str, input: &ToolInput) -> (r: String)
    ensures
        r@ == summary_spec(lowered@, tool@, *input),
{
    let l = String::from_str(lowered);
    if l == String::from_str("read") || l == String::from_str("write") || l == String::from_str("edit") {
        text_or_exec(&input.file_path, tool)
    } else if l == String::from_str("bash") {
        summarize_command(&input.command)
    } else if l == String::from_str("glob") {
        text_or_exec(&input.pattern, tool)
    } else if l == String::from_str("grep") {
        let pattern = text_or_exec(&input.pattern, "");
        let path = text_or_exec(&input.path, "");
        proof {
            reveal_strlit("");
        }
        if path.as_str().is_empty() {
            pattern
        } else {
            pattern.concat(" in ").concat(path.as_str())
        }
    } else if l == String::from_str("task") {
        text_or_exec(&input.description, tool)
    } else {
        String::from_str(tool)
    }
}

/// The summary of a tool call, by the lower-cased name of its tool.
pub fn summarize_input(tool: &str, input: &ToolInput) -> (r: String)
    ensures
        r@ == summary_spec(lower_of(tool@), tool@, *input),
{
    let lowered = lowercase(tool);
    summarize_lowered(lowered.as_str(), tool, input)
}

/// A tool part of the backend's session store, as far as a tool call needs
/// it: the tool, its state's status, input, title and error, and the start
/// and end of its run.
#[derive(Debug, Clone)]
pub struct OpenCodeToolPart {
    pub tool: String,
    pub status: String,
    pub input: ToolInput,
    pub title: Option<String>,
    pub error: Option<String>,
    pub start: Option<u64>,
    pub end: Option<u64>,
}

/// The tool call a part records: its title is the error for a failed call
/// (else the title); it starts at the recorded start, else at the part's
/// creation; its duration is known when both start and end are, and is
/// zero for an end before the start.
pub open spec fn part_call_spec(part: OpenCodeToolPart, time_created: u64, r: ToolCall) -> bool {
    &&& r.tool == part.tool
    &&& r.title == if part.status@ == "error"@ {
        match part.error {
            Some(e) => Some(e),
            None => part.title,
        }
    } else {
        part.title
    }
    &&& r.input_summary@ == summary_spec(lower_of(part.tool@), part.tool@, part.input)
    &&& r.status == part.status
    &&& r.timestamp == match part.start {
        Some(s) => s,
        None => time_created,
    }
    &&& r.duration_ms == match (part.start, part.end) {
        (Some(s), Some(e)) => Some(if e >= s { (e - s) as u64 } else { 0 }),
        _ => None,
    }
}

pub fn opencode_tool_call(part: OpenCodeToolPart, time_created: u64) -> (r: ToolCall)
    ensures
        part_call_spec(part, time_created, r),
{
    let summary = summarize_input(part.tool.as_str(), &part.input);
    let duration_ms = match (part.start, part.end) {
        (Some(s), Some(e)) => Some(if e >= s { e - s } else { 0 }),
        _ => None,
    };
    let timestamp = match part.start {
        Some(s) => s,
        None => time_created,
    };
    let title = if part.status == String::from_str("error") {
        match part.error {
            Some(e) => Some(e),
            None => part.title,
        }
    } else {
        part.title
    };
    ToolCall { tool: part.tool, title, input_summary: summary, status: part.status, timestamp, duration_ms }
}

/// A tool use still waiting for its result.
#[derive(Debug, Clone)]
pub struct PendingToolUse {
    pub id: String,
    pub tool: String,
    pub input_summary: String,
    pub timestamp: u64,
}

/// Pairs the tool uses of a transcript with their results, in transcript
/// order. A result completes the earliest pending use with its id; uses
/// without a result stay pending and are not reported.
#[derive(Debug, Clone)]
pub struct ToolPairing {
    pub pending: Vec<PendingToolUse>,
    pub calls: Vec<ToolCall>,
}

/// The position of the earliest pending use with the given id.
pub open spec fn first_with_id(ps: Seq<PendingToolUse>, id: Seq<char>) -> Option<int>
    decreases ps.len(),
{
    if ps.len() == 0 {
        None
    } else if ps[0].id@ == id {
        Some(0)
    } else {
        match first_with_id(ps.drop_first(), id) {
            Some(i) => Some(i + 1),
            None => None,
        }
    }
}

proof fn lemma_first_with_id(ps: Seq<PendingToolUse>, id: Seq<char>, i: int)
    requires
        0 <= i <= ps.len(),
        forall|j: int| 0 <= j < i ==> (#[trigger] ps[j]).id@ != id,
    ensures
        first_with_id(ps, id) == match first_with_id(ps.subrange(i, ps.len() as int), id) {
            Some(k) => Some(k + i),
            None => None::<int>,
        },
    decreases i,
{
    if i > 0 {
        let t = ps.drop_first();
        assert forall|j: int| 0 <= j < i - 1 implies (#[trigger] t[j]).id@ != id by {
            assert(t[j] == ps[j + 1]);
        }
        lemma_first_with_id(t, id, i - 1);
        assert(t.subrange(i - 1, t.len() as int) =~= ps.subrange(i, ps.len() as int));
        assert(ps[0].id@ != id);
    } else {
        assert(ps.subrange(0, ps.len() as int) =~= ps);
    }
}

/// The call a result completes.
pub open spec fn completed_call(p: PendingToolUse, is_error: bool, timestamp: u64, r: ToolCall) -> bool {
    &&& r.tool == p.tool
    &&& r.title is None
    &&& r.input_summary == p.input_summary
    &&& r.status@ == if is_error { "error"@ } else { "completed"@ }
    &&& r.timestamp == p.timestamp
    &&& r.duration_ms == if timestamp > p.timestamp {
        Some((timestamp - p.timestamp) as u64)
    } else {
        None
    }
}

impl ToolPairing {
    pub fn new() -> (r: ToolPairing)
        ensures
            r.pending@.len() == 0,
            r.calls@.len() == 0,
    {
        ToolPairing { pending: Vec::new(), calls: Vec::new() }
    }

    /// Records a tool use.
    pub fn on_tool_use(&mut self, id: String, tool: String, input: &ToolInput, timestamp: u64)
        ensures
            final(self).calls == old(self).calls,
            final(self).pending@.len() == old(self).pending@.len() + 1,
            final(self).pending@.drop_last() == old(self).pending@,
            final(self).pending@.last().id == id,
            final(self).pending@.last().tool == tool,
            final(self).pending@.last().input_summary@ == summary_spec(lower_of(tool@), tool@, *input),
            final(self).pending@.last().timestamp == timestamp,
    {
        let input_summary = summarize_input(tool.as_str(), input);
        self.pending.push(PendingToolUse { id, tool, input_summary, timestamp });
        assert(self.pending@.drop_last() =~= old(self).pending@);
    }

    /// Records a tool result: the earliest pending use with its id, if any,
    /// leaves the pending list and becomes a call; otherwise nothing changes.
    pub fn on_tool_result(&mut self, tool_use_id: &str, is_error: bool, timestamp: u64)
        ensures
            match first_with_id(old(self).pending@, tool_use_id@) {
                None => *final(self) == *old(self),
                Some(i) => {
                    &&& final(self).pending@ == old(self).pending@.remove(i)
                    &&& final(self).calls@.len() == old(self).calls@.len() + 1
                    &&& final(self).calls@.drop_last() == old(self).calls@
                    &&& completed_call(old(self).pending@[i], is_error, timestamp, final(self).calls@.last())
                },
            },
    {
        let key = String::from_str(tool_use_id);
        let ghost ps = self.pending@;
        let mut i: usize = 0;
        while i < self.pending.len()
            invariant
                i <= self.pending@.len(),
                ps == self.pending@,
                *self == *old(self),
                key@ == tool_use_id@,
                forall|j: int| 0 <= j < i ==> (#[trigger] ps[j]).id@ != tool_use_id@,
            decreases self.pending@.len() - i,
        {
            if self.pending[i].id == key {
                proof {
                    lemma_first_with_id(ps, tool_use_id@, i as int);
                    assert(ps.subrange(i as int, ps.len() as int)[0] == ps[i as int]);
                }
                let p = self.pending.remove(i);
                let duration_ms = if timestamp > p.timestamp {
                    Some(timestamp - p.timestamp)
                } else {
                    None
                };
                let status = if is_error {
                    String::from_str("error")
                } else {
                    String::from_str("completed")
                };
                self.calls.push(ToolCall {
                    tool: p.tool,
                    title: None,
                    input_summary: p.input_summary,
                    status,
                    timestamp: p.timestamp,
                    duration_ms,
                });
                assert(self.calls@.drop_last() =~= old(self).calls@);
                return;
            }
            i = i + 1;
        }
        proof {
            lemma_first_with_id(ps, tool_use_id@, i as int);
            assert(ps.subrange(i as int, ps.len() as int) =~= Seq::<PendingToolUse>::empty());
        }
    }
}

/// The instant an RFC 3339 timestamp names, as whole seconds since the
/// epoch and the millisecond within the second; `None` for text that is not
/// such a timestamp.
pub uninterp spec fn rfc3339_instant(s: Seq<char>) -> Option<(i64, u16)>;

/// Relies on `time::OffsetDateTime::parse` with the RFC 3339 format, and on
/// its `unix_timestamp` and `millisecond` (always below 1000).
#[verifier::external_body]
fn parse_rfc3339(s: &str) -> (r: Option<(i64, u16)>)
    ensures
        r == rfc3339_instant(s@),
        r matches Some((_, ms)) ==> ms < 1000,
{
    time::OffsetDateTime::parse(s, &time::format_description::well_known::Rfc3339)
        .ok()
        .map(|dt| (dt.unix_timestamp(), dt.millisecond()))
}

/// Milliseconds since the epoch of an instant given as seconds and
/// milliseconds; `None` for an instant before the epoch or past what `u64`
/// holds.
pub fn epoch_ms(seconds: i64, millis: u16) -> (r: Option<u64>)
    ensures
        r == if 0 <= seconds && seconds * 1000 + millis <= u64::MAX {
            Some((seconds * 1000 + millis) as u64)
        } else {
            None::<u64>
        },
{
    if seconds < 0 {
        return None;
    }
    let s = seconds as u64;
    if s > (u64::MAX - millis as u64) / 1000 {
        assert(s * 1000 + millis > u64::MAX) by (nonlinear_arith)
            requires
                s > (u64::MAX - millis as u64) / 1000,
                millis <= u16::MAX,
        ;
        return None;
    }
    assert(s * 1000 + millis <= u64::MAX) by (nonlinear_arith)
        requires
            s <= (u64::MAX - millis as u64) / 1000,
            millis <= u16::MAX,
    ;
    Some(s * 1000 + millis as u64)
}

/// Milliseconds since the epoch of an RFC 3339 timestamp such as
/// `2026-02-20T19:39:14.770Z`.
pub fn parse_iso_timestamp(s: &str) -> (r: Option<u64>)
    ensures
        r == match rfc3339_instant(s@) {
            Some((seconds, millis)) => if 0 <= seconds && seconds * 1000 + millis <= u64::MAX {
                Some((seconds * 1000 + millis) as u64)
            } else {
                None::<u64>
            },
            None => None::<u64>,
        },
{
    match parse_rfc3339(s) {
        Some((seconds, millis)) => epoch_ms(seconds, millis),
        None => None,
    }
}

} // verus!
