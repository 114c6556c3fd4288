//! Helpers of the transcript ingestion: where a working directory's
//! transcripts live, how a read cursor is named, and how a tool input is
//! shortened before it is stored.
use crate::text::{chars_of, prefix_within, string_of, utf8_prefix};
use vstd::prelude::*;

verus! {

/// A working directory's name under the transcript projects directory:
/// every `/` becomes `-`.
pub open spec fn projects_dir_spec(cwd: Seq<char>) -> Seq<char> {
    cwd.map_values(|c: char| if c == '/' { '-' } else { c })
}

pub fn cwd_to_projects_dir(cwd: &str) -> (r: String)
    ensures
        r@ == projects_dir_spec(cwd@),
{
    let cs = chars_of(cwd);
    let mut out: Vec<char> = Vec::new();
    let mut i: usize = 0;
    while i < cs.len()
        invariant
            i <= cs@.len(),
            out@ == projects_dir_spec(cs@.subrange(0, i as int)),
        decreases cs@.len() - i,
    {
        let c = cs[i];
        out.push(if c == '/' { '-' } else { c });
        assert(projects_dir_spec(cs@.subrange(0, i + 1)) =~= projects_dir_spec(cs@.subrange(0, i as int)).push(if c == '/' { '-' } else { c }));
        i = i + 1;
    }
    assert(cs@.subrange(0, cs@.len() as int) =~= cs@);
    string_of(out.as_slice())
}

pub const CURSOR_TYPE: &'static str = "claude_jsonl_offset";

/// The identifier of the read cursor of one member in one transcript file:
/// the cursor type, the member and the file's path, joined by `:`.
pub fn cursor_id(member_id: &str, path: &str) -> (r: String)
    ensures
        r@ == CURSOR_TYPE@ + ":"@ + member_id@ + ":"@ + path@,
{
    let s = String::from_str(CURSOR_TYPE);
    let s = s.concat(":");
    let s = s.concat(member_id);
    let s = s.concat(":");
    s.concat(path)
}

/// The most bytes of a tool input that are stored.
pub const SUMMARY_MAX_BYTES: usize = 256;

/// The summary of a tool input: empty without input, else its longest
/// prefix that fits in `SUMMARY_MAX_BYTES` bytes of UTF-8 (the whole input
/// when it fits, and never a character cut in two).
pub fn summarize_input(input_json: Option<&str>) -> (r: String)
    ensures
        r@ == match input_json {
            None => Seq::<char>::empty(),
            Some(s) => prefix_within(s@, SUMMARY_MAX_BYTES as nat),
        },
{
    match input_json {
        None => String::new(),
        Some(s) => utf8_prefix(s, SUMMARY_MAX_BYTES),
    }
}

} // verus!
