use nightshift_daemon::config::{dev_defaults, load, proxy_port, Config};
use nightshift_daemon::ingest::{cursor_id, cwd_to_projects_dir, summarize_input};
use nightshift_daemon::nodes::{deregister, heartbeat_outcome, node_id, node_url, register, HeartbeatResult, Node};
use nightshift_daemon::teams::{parse_name_status, parse_numstat, StatusMap};
use nightshift_daemon::teams_repo::{default_agent_type, default_lead_name, default_lead_type, default_task_status};
use nightshift_daemon::text::decimal_string;
use nightshift_daemon::toolcalls::{ToolCall, ToolStats};
use nightshift_daemon::transcript::first_non_empty_str;

#[test]
fn maps_cwd_to_projects_directory_name() {
    assert_eq!(
        cwd_to_projects_dir("/Users/johndoe/dev/nightshift"),
        "-Users-johndoe-dev-nightshift"
    );
}

#[test]
fn should_parse_numstat_output() {
    let numstat = "10\t2\tsrc/foo.rs\n3\t0\tsrc/bar.rs\n";
    let mut statuses = StatusMap::new();
    statuses.insert("src/foo.rs".to_string(), "modified".to_string());
    statuses.insert("src/bar.rs".to_string(), "added".to_string());

    let files = parse_numstat(numstat, &statuses);
    assert_eq!(files.len(), 2);
    assert_eq!(files[0].path, "src/foo.rs");
    assert_eq!(files[0].additions, 10);
    assert_eq!(files[0].deletions, 2);
    assert_eq!(files[0].status, "modified");
    assert_eq!(files[1].path, "src/bar.rs");
    assert_eq!(files[1].additions, 3);
    assert_eq!(files[1].status, "added");
}

#[test]
fn should_parse_name_status_output() {
    let output = "A\tsrc/new.rs\nM\tsrc/main.rs\nD\tsrc/old.rs\nR100\tsrc/renamed.rs\n";
    let map = parse_name_status(output);
    assert_eq!(map.get("src/new.rs").unwrap(), "added");
    assert_eq!(map.get("src/main.rs").unwrap(), "modified");
    assert_eq!(map.get("src/old.rs").unwrap(), "deleted");
    assert_eq!(map.get("src/renamed.rs").unwrap(), "modified");
}

#[test]
fn name_status_rename_keys_new_path_and_skips_short_lines() {
    let output = "R090\told.rs\tnew.rs\nC\tcopy.rs\r\nbogus\n";
    let map = parse_name_status(output);
    assert_eq!(map.get("new.rs").unwrap(), "modified");
    assert_eq!(map.get("copy.rs").unwrap(), "added");
    assert!(map.get("old.rs").is_none());
    assert!(map.get("bogus").is_none());
}

#[test]
fn numstat_binary_and_unknown_paths() {
    let statuses = StatusMap::new();
    let files = parse_numstat("-\t-\timg.png\nshort\tline\n+4\t99999999999\tx.rs", &statuses);
    assert_eq!(files.len(), 2);
    assert_eq!(files[0].additions, 0);
    assert_eq!(files[0].deletions, 0);
    assert_eq!(files[0].status, "modified");
    assert_eq!(files[1].path, "x.rs");
    assert_eq!(files[1].additions, 4);
    assert_eq!(files[1].deletions, 0);
}

#[test]
fn status_map_later_insert_wins() {
    let mut m = StatusMap::new();
    m.insert("a".to_string(), "added".to_string());
    m.insert("a".to_string(), "deleted".to_string());
    assert_eq!(m.get("a").unwrap(), "deleted");
    assert!(m.get("b").is_none());
}

fn call(tool: &str) -> ToolCall {
    ToolCall { tool: tool.into(), title: None, input_summary: "f".into(), status: "completed".into(), timestamp: 0, duration_ms: None }
}

#[test]
fn should_compute_tool_stats() {
    let calls = vec![
        ToolCall { tool: "Read".into(), title: None, input_summary: "f".into(), status: "completed".into(), timestamp: 0, duration_ms: None },
        ToolCall { tool: "Read".into(), title: None, input_summary: "f".into(), status: "completed".into(), timestamp: 0, duration_ms: None },
        ToolCall { tool: "Edit".into(), title: None, input_summary: "f".into(), status: "completed".into(), timestamp: 0, duration_ms: None },
        ToolCall { tool: "Bash".into(), title: None, input_summary: "f".into(), status: "completed".into(), timestamp: 0, duration_ms: None },
        ToolCall { tool: "Glob".into(), title: None, input_summary: "f".into(), status: "completed".into(), timestamp: 0, duration_ms: None },
    ];
    let stats = ToolStats::from_calls(&calls);
    assert_eq!(stats.total, 5);
    assert_eq!(stats.reads, 2);
    assert_eq!(stats.edits, 1);
    assert_eq!(stats.bash, 1);
    assert_eq!(stats.other, 1);
}

#[test]
fn tool_stats_fold_case_and_count_writes() {
    let stats = ToolStats::from_calls(&[call("WRITE"), call("write"), call("bAsH"), call("Task")]);
    assert_eq!(stats.total, 4);
    assert_eq!(stats.writes, 2);
    assert_eq!(stats.bash, 1);
    assert_eq!(stats.other, 1);
    let empty = ToolStats::from_calls(&[]);
    assert_eq!(empty, ToolStats::default());
}

#[test]
fn tool_stats_from_lowered_names_are_exact() {
    let names = vec!["read".to_string(), "Read".to_string(), "edit".to_string()];
    let stats = ToolStats::from_lowered(&names);
    assert_eq!(stats.reads, 1);
    assert_eq!(stats.edits, 1);
    assert_eq!(stats.other, 1);
}

#[test]
fn cursor_id_joins_parts() {
    assert_eq!(cursor_id("m1", "/home/u/projects/x/a.jsonl"), "claude_jsonl_offset:m1:/home/u/projects/x/a.jsonl");
}

#[test]
fn summarize_input_truncates_to_256_bytes() {
    assert_eq!(summarize_input(None), "");
    assert_eq!(summarize_input(Some("{\"a\":1}")), "{\"a\":1}");
    let long = "x".repeat(300);
    assert_eq!(summarize_input(Some(&long)), "x".repeat(256));
    let exact = "y".repeat(256);
    assert_eq!(summarize_input(Some(&exact)), exact);
    // A two-byte character straddling the limit is left out whole.
    let straddle = format!("{}é", "z".repeat(255));
    assert_eq!(summarize_input(Some(&straddle)), "z".repeat(255));
}

#[test]
fn first_non_empty_skips_missing_and_empty() {
    assert_eq!(first_non_empty_str(&[None, Some(""), Some("toolu_1"), Some("x")]), Some("toolu_1"));
    assert_eq!(first_non_empty_str(&[None, Some("")]), None);
    assert_eq!(first_non_empty_str(&[]), None);
}

#[test]
fn decimal_strings() {
    assert_eq!(decimal_string(0), "0");
    assert_eq!(decimal_string(19277), "19277");
    assert_eq!(decimal_string(u64::MAX), u64::MAX.to_string());
}

fn node(id: &str, url: &str) -> Node {
    Node {
        id: id.into(),
        name: "host".into(),
        url: url.into(),
        started_at: "2026-01-01T00:00:00Z".into(),
        os: "linux".into(),
        arch: "x86_64".into(),
        daemon_version: "0.1.0".into(),
    }
}

#[test]
fn node_identity_and_address() {
    assert_eq!(node_id("box", 19277), "box-19277");
    assert_eq!(node_url(8080, None), "http://localhost:8080");
    assert_eq!(node_url(8080, Some("https://sprite.fly.dev")), "https://sprite.fly.dev");
}

#[test]
fn register_replaces_same_address_and_deregister_removes_id() {
    let mut nodes = vec![node("a", "http://x"), node("b", "http://y")];
    register(&mut nodes, node("c", "http://x"));
    let ids: Vec<&str> = nodes.iter().map(|n| n.id.as_str()).collect();
    assert_eq!(ids, vec!["b", "c"]);
    assert!(deregister(&mut nodes, "b"));
    assert_eq!(nodes.len(), 1);
    assert!(!deregister(&mut nodes, "zzz"));
    assert_eq!(nodes.len(), 1);
}

#[test]
fn heartbeat_statuses() {
    assert_eq!(heartbeat_outcome(200), Some(HeartbeatResult::Alive));
    assert_eq!(heartbeat_outcome(404), Some(HeartbeatResult::NodeExpired));
    assert_eq!(heartbeat_outcome(500), None);
    assert_eq!(heartbeat_outcome(401), None);
}

#[test]
fn config_fallbacks() {
    let found = Config { version: 1, server_url: "https://nightshift.fly.dev".into(), public_url: "https://sprite-abc.fly.dev:8080".into(), proxy_port: 8080 };
    assert_eq!(load(Some(found.clone()), true), Some(found.clone()));
    assert_eq!(load(None, false), None);
    let dev = load(None, true).unwrap();
    assert_eq!(dev, dev_defaults());
    assert_eq!(dev.proxy_port, 19277);
    assert_eq!(dev.server_url, "http://localhost:4001");
    assert_eq!(proxy_port(&Some(found)), 8080);
    assert_eq!(proxy_port(&None), 19277);
}

#[test]
fn request_defaults() {
    assert_eq!(default_lead_name(), "team-lead");
    assert_eq!(default_lead_type(), "team-lead");
    assert_eq!(default_agent_type(), "general");
    assert_eq!(default_task_status(), "pending");
}

#[test]
fn now_ms_is_after_2020() {
    assert!(nightshift_daemon::clock::now_ms() > 1_577_836_800_000);
    assert_eq!(nightshift_daemon::clock::epoch_millis(Some(std::time::Duration::from_millis(1234))), 1234);
    assert_eq!(nightshift_daemon::clock::epoch_millis(None), 0);
}
