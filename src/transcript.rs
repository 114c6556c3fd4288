//! Events read from agent transcripts.
use vstd::prelude::*;

verus! {

#[derive(Debug, Clone, PartialEq)]
pub enum ClaudeEvent {
    ToolUse(ClaudeToolUse),
    ToolResult(ClaudeToolResult),
    MemberStatus(ClaudeMemberStatus),
}

#[derive(Debug, Clone, PartialEq)]
pub struct ClaudeToolUse {
    pub external_call_id: Option<String>,
    pub tool_name: String,
    pub input_json: Option<String>,
    pub started_at_ms: i64,
    pub session_id: Option<String>,
    pub agent_id: Option<String>,
}

#[derive(Debug, Clone, PartialEq)]
pub struct ClaudeToolResult {
    pub external_call_id: Option<String>,
    pub tool_name: Option<String>,
    pub output_json: Option<String>,
    pub error_text: Option<String>,
    pub ended_at_ms: i64,
    pub session_id: Option<String>,
    pub agent_id: Option<String>,
}

#[derive(Debug, Clone, PartialEq)]
pub struct ClaudeMemberStatus {
    pub state: String,
    pub headline: Option<String>,
    pub payload_json: Option<String>,
    pub created_at_ms: i64,
    pub session_id: Option<String>,
    pub agent_id: Option<String>,
}

pub open spec fn opt_view(o: Option<&str>) -> Option<Seq<char>> {
    match o {
        Some(s) => Some(s@),
        None => None,
    }
}

/// The first present, non-empty string of the list.
pub open spec fn first_non_empty_spec(vs: Seq<Option<Seq<char>>>) -> Option<Seq<char>>
    decreases vs.len(),
{
    if vs.len() == 0 {
        None
    } else {
        match vs[0] {
            Some(s) => if s.len() > 0 {
                Some(s)
            } else {
                first_non_empty_spec(vs.drop_first())
            },
            None => first_non_empty_spec(vs.drop_first()),
        }
    }
}

pub fn first_non_empty_str<'a>(values: &[Option<&'a str>]) -> (r: Option<&'a str>)
    ensures
        opt_view(r) == first_non_empty_spec(values@.map_values(|o: Option<&'a str>| opt_view(o))),
{
    let ghost all = values@.map_values(|o: Option<&'a str>| opt_view(o));
    let mut i: usize = 0;
    assert(all.subrange(0, all.len() as int) =~= all);
    while i < values.len()
        invariant
            i <= values@.len(),
            all == values@.map_values(|o: Option<&'a str>| opt_view(o)),
            first_non_empty_spec(all) == first_non_empty_spec(all.subrange(i as int, all.len() as int)),
        decreases values@.len() - i,
    {
        let ghost rest = all.subrange(i as int, all.len() as int);
        assert(rest.drop_first() =~= all.subrange(i + 1, all.len() as int));
        assert(rest[0] == opt_view(values@[i as int]));
        if let Some(s) = values[i] {
            if !s.is_empty() {
                return Some(s);
            }
        }
        i = i + 1;
    }
    None
}

} // verus!
