use nightshift_daemon::teams::{detect_conflicts, DiffSummary, FileStat, MemberSummary};
use nightshift_daemon::toolcalls::{
    epoch_ms, parse_iso_timestamp, opencode_tool_call, summarize_input, summarize_lowered, OpenCodeToolPart, ToolInput, ToolPairing,
};

fn stat(path: &str, additions: u32, status: &str) -> FileStat {
    FileStat { path: path.into(), additions, deletions: 0, status: status.into() }
}

#[test]
fn should_detect_conflicts() {
    let members = vec![
        MemberSummary {
            name: "agent-a".into(),
            agent_type: String::new(),
            model: String::new(),
            cwd: String::new(),
            is_active: true,
            color: None,
            diff_summary: Some(DiffSummary {
                files_changed: 1,
                additions: 5,
                deletions: 0,
                files: vec![FileStat {
                    path: "shared.rs".into(),
                    additions: 5,
                    deletions: 0,
                    status: "modified".into(),
                }],
            }),
        },
        MemberSummary {
            name: "agent-b".into(),
            agent_type: String::new(),
            model: String::new(),
            cwd: String::new(),
            is_active: true,
            color: None,
            diff_summary: Some(DiffSummary {
                files_changed: 1,
                additions: 3,
                deletions: 0,
                files: vec![FileStat {
                    path: "shared.rs".into(),
                    additions: 3,
                    deletions: 0,
                    status: "modified".into(),
                }],
            }),
        },
    ];
    let conflicts = detect_conflicts(&members);
    assert_eq!(conflicts.len(), 1);
    assert_eq!(conflicts[0].path, "shared.rs");
    assert_eq!(conflicts[0].members.len(), 2);
}

#[test]
fn should_detect_no_conflicts_when_files_differ() {
    let members = vec![
        MemberSummary {
            name: "a".into(),
            agent_type: String::new(),
            model: String::new(),
            cwd: String::new(),
            is_active: true,
            color: None,
            diff_summary: Some(DiffSummary {
                files_changed: 1,
                additions: 1,
                deletions: 0,
                files: vec![FileStat {
                    path: "a.rs".into(),
                    additions: 1,
                    deletions: 0,
                    status: "added".into(),
                }],
            }),
        },
        MemberSummary {
            name: "b".into(),
            agent_type: String::new(),
            model: String::new(),
            cwd: String::new(),
            is_active: true,
            color: None,
            diff_summary: Some(DiffSummary {
                files_changed: 1,
                additions: 1,
                deletions: 0,
                files: vec![FileStat {
                    path: "b.rs".into(),
                    additions: 1,
                    deletions: 0,
                    status: "added".into(),
                }],
            }),
        },
    ];
    let conflicts = detect_conflicts(&members);
    assert_eq!(conflicts.len(), 0);
}

fn member(name: &str, files: Vec<FileStat>) -> MemberSummary {
    MemberSummary {
        name: name.into(),
        agent_type: String::new(),
        model: String::new(),
        cwd: String::new(),
        is_active: true,
        color: None,
        diff_summary: Some(DiffSummary::from_files(files)),
    }
}

#[test]
fn conflicts_keep_first_appearance_order_and_skip_members_without_diff() {
    let mut idle = member("idle", vec![]);
    idle.diff_summary = None;
    let members = vec![
        member("a", vec![stat("x.rs", 1, "modified"), stat("y.rs", 1, "modified")]),
        idle,
        member("b", vec![stat("y.rs", 2, "modified"), stat("x.rs", 2, "modified")]),
        member("c", vec![stat("y.rs", 3, "modified"), stat("z.rs", 3, "added")]),
    ];
    let conflicts = detect_conflicts(&members);
    assert_eq!(conflicts.len(), 2);
    assert_eq!(conflicts[0].path, "x.rs");
    assert_eq!(conflicts[0].members, vec!["a".to_string(), "b".to_string()]);
    assert_eq!(conflicts[1].path, "y.rs");
    assert_eq!(conflicts[1].members, vec!["a".to_string(), "b".to_string(), "c".to_string()]);
}

#[test]
fn diff_summary_totals() {
    let s = DiffSummary::from_files(vec![stat("a", 10, "added"), stat("b", 3, "modified")]);
    assert_eq!(s.files_changed, 2);
    assert_eq!(s.additions, 13);
    assert_eq!(s.deletions, 0);
    let big = DiffSummary::from_files(vec![stat("a", u32::MAX, "added"), stat("b", 1, "added")]);
    assert_eq!(big.additions, u32::MAX);
}

#[test]
fn should_summarize_bash_input() {
    let input = ToolInput {
        command: Some("cargo test --lib".into()),
        description: Some("Run tests".into()),
        ..Default::default()
    };
    assert_eq!(summarize_input("Bash", &input), "cargo test --lib");
}

#[test]
fn should_truncate_long_bash_commands() {
    let long_cmd = "a".repeat(100);
    let input = ToolInput { command: Some(long_cmd), ..Default::default() };
    let summary = summarize_input("Bash", &input);
    assert!(summary.len() <= 80);
    assert!(summary.ends_with("..."));
}

#[test]
fn should_summarize_file_path_tools() {
    let input = ToolInput { file_path: Some("/src/main.rs".into()), ..Default::default() };
    assert_eq!(summarize_input("Read", &input), "/src/main.rs");
    assert_eq!(summarize_input("Write", &input), "/src/main.rs");
    assert_eq!(summarize_input("Edit", &input), "/src/main.rs");
}

#[test]
fn should_summarize_grep_with_path() {
    let input = ToolInput { pattern: Some("fn main".into()), path: Some("src/".into()), ..Default::default() };
    assert_eq!(summarize_input("Grep", &input), "fn main in src/");
}

#[test]
fn should_summarize_grep_without_path() {
    let input = ToolInput { pattern: Some("fn main".into()), ..Default::default() };
    assert_eq!(summarize_input("Grep", &input), "fn main");
}

#[test]
fn summaries_fall_back_to_the_tool_name() {
    let empty = ToolInput::default();
    assert_eq!(summarize_input("Read", &empty), "Read");
    assert_eq!(summarize_input("Glob", &empty), "Glob");
    assert_eq!(summarize_input("Task", &empty), "Task");
    assert_eq!(summarize_input("WebFetch", &empty), "WebFetch");
    assert_eq!(summarize_input("Bash", &empty), "");
    let cmd = ToolInput { command: Some("b".repeat(80)), ..Default::default() };
    assert_eq!(summarize_input("bash", &cmd), "b".repeat(80));
    let cmd = ToolInput { command: Some("c".repeat(81)), ..Default::default() };
    assert_eq!(summarize_input("bash", &cmd), format!("{}...", "c".repeat(77)));
    let glob = ToolInput { pattern: Some("**/*.rs".into()), ..Default::default() };
    assert_eq!(summarize_lowered("glob", "GLOB", &glob), "**/*.rs");
}

fn edit_part(status: &str, error: Option<&str>) -> OpenCodeToolPart {
    OpenCodeToolPart {
        tool: "edit".into(),
        status: status.into(),
        input: ToolInput { file_path: Some("/src/main.rs".into()), ..Default::default() },
        title: Some("Edit main.rs".into()),
        error: error.map(String::from),
        start: Some(1000),
        end: Some(1250),
    }
}

#[test]
fn should_parse_opencode_tool_part() {
    let call = opencode_tool_call(edit_part("completed", None), 1000);
    assert_eq!(call.tool, "edit");
    assert_eq!(call.title, Some("Edit main.rs".to_string()));
    assert_eq!(call.input_summary, "/src/main.rs");
    assert_eq!(call.status, "completed");
    assert_eq!(call.duration_ms, Some(250));
}

#[test]
fn failed_opencode_part_reports_its_error() {
    let call = opencode_tool_call(edit_part("error", Some("no such file")), 5);
    assert_eq!(call.title, Some("no such file".to_string()));
    let mut part = edit_part("completed", None);
    part.start = None;
    let call = opencode_tool_call(part, 5);
    assert_eq!(call.timestamp, 5);
    assert_eq!(call.duration_ms, None);
    let mut part = edit_part("completed", None);
    part.end = Some(10);
    assert_eq!(opencode_tool_call(part, 5).duration_ms, Some(0));
}

#[test]
fn pairing_matches_results_to_uses() {
    let mut p = ToolPairing::new();
    let ls = ToolInput { command: Some("ls".into()), ..Default::default() };
    p.on_tool_use("toolu_1".into(), "Bash".into(), &ls, 1771616354000);
    p.on_tool_result("toolu_1", false, 1771616355000);
    assert_eq!(p.calls.len(), 1);
    assert_eq!(p.calls[0].tool, "Bash");
    assert_eq!(p.calls[0].input_summary, "ls");
    assert_eq!(p.calls[0].status, "completed");
    assert_eq!(p.calls[0].duration_ms, Some(1000));
    assert!(p.pending.is_empty());
}

#[test]
fn pairing_ignores_unknown_results_and_keeps_pending_uses() {
    let mut p = ToolPairing::new();
    let input = ToolInput::default();
    p.on_tool_use("a".into(), "Read".into(), &input, 10);
    p.on_tool_use("b".into(), "Grep".into(), &input, 20);
    p.on_tool_result("zzz", false, 30);
    assert!(p.calls.is_empty());
    p.on_tool_result("b", true, 15);
    assert_eq!(p.calls.len(), 1);
    assert_eq!(p.calls[0].status, "error");
    assert_eq!(p.calls[0].duration_ms, None);
    assert_eq!(p.pending.len(), 1);
    assert_eq!(p.pending[0].id, "a");
}

#[test]
fn should_parse_iso_timestamp() {
    let ts = parse_iso_timestamp("2026-02-20T19:39:14.770Z");
    assert!(ts.is_some());
    let ms = ts.unwrap();
    assert!(ms > 1771600000000);
}

#[test]
fn iso_timestamps_are_exact_and_reject_garbage() {
    assert_eq!(parse_iso_timestamp("1970-01-01T00:00:01.250Z"), Some(1250));
    assert_eq!(parse_iso_timestamp("2026-02-20T20:39:14.770+01:00"), parse_iso_timestamp("2026-02-20T19:39:14.770Z"));
    assert_eq!(parse_iso_timestamp("not a time"), None);
    assert_eq!(parse_iso_timestamp("1969-12-31T23:59:59Z"), None);
    assert_eq!(epoch_ms(2, 5), Some(2005));
    assert_eq!(epoch_ms(-1, 0), None);
    assert_eq!(epoch_ms(i64::MAX, 0), None);
}
