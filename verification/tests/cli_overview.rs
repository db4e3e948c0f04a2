use grok_desktop::cli::{
    capabilities, check_installed, check_update_status, output_text, overview, parse_cli_identity,
    parse_sessions, parse_worktree_output, parse_worktrees, CliRun, GrokUpdateStatus, WorktreeRun,
};
use grok_desktop::json::Json;

fn text(s: &str) -> Json {
    Json::Str(s.to_string())
}

fn object(pairs: Vec<(&str, Json)>) -> Json {
    Json::Object(pairs.into_iter().map(|(k, v)| (k.to_string(), v)).collect())
}

const SESSIONS: &str = r#"
(no label)
SESSION ID                            CREATED     UPDATED     STATUS      SUMMARY
019f4477-a355-78d2-8251-faa2a94b6f21  2026-07-09  2026-07-09  remote  Software Project Codebase Audit and Feedback
019f443a-620d-7a62-b64b-e738d69a06e8  2026-07-09  2026-07-09  local  Fix Tauri Release Build
"#;

#[test]
fn parses_grok_cli_identity() {
    let identity = parse_cli_identity("grok 0.2.101 (5bc4b5dfad) [stable]");
    assert_eq!(identity.version, "0.2.101");
    assert_eq!(identity.commit, "5bc4b5dfad");
    assert_eq!(identity.channel, "stable");
}

#[test]
fn identity_of_short_version_text() {
    let identity = parse_cli_identity("grok");
    assert_eq!(identity.version, "unknown");
    assert_eq!(identity.commit, "");
    assert_eq!(identity.channel, "");
}

#[test]
fn parses_sessions_table_with_summary_spaces() {
    let sessions = parse_sessions(SESSIONS);

    assert_eq!(sessions.len(), 2);
    assert_eq!(sessions[0].id, "019f4477-a355-78d2-8251-faa2a94b6f21");
    assert_eq!(sessions[0].status, "remote");
    assert_eq!(
        sessions[0].summary,
        "Software Project Codebase Audit and Feedback"
    );
    assert_eq!(sessions[1].summary, "Fix Tauri Release Build");
}

#[test]
fn session_lines_need_five_words_and_skip_errors() {
    assert!(parse_sessions("a b c d\nError: nope x y z w\n").is_empty());
    let one = parse_sessions("  id c u s   summary  ");
    assert_eq!(one.len(), 1);
    assert_eq!(one[0].summary, "summary");
}

#[test]
fn parses_worktree_json_with_alternate_field_names() {
    let raw = br#"[
          {
            "worktree_id": "wt-1",
            "label": "feature-shell",
            "worktree_path": "F:\\repo\\.grok\\worktrees\\feature-shell",
            "ref": "main",
            "state": "ready"
          }
        ]"#;

    let worktrees = parse_worktree_output(raw).expect("worktree JSON should parse");

    assert_eq!(worktrees.len(), 1);
    assert_eq!(worktrees[0].id, "wt-1");
    assert_eq!(worktrees[0].name, "feature-shell");
    assert_eq!(worktrees[0].branch, "main");
    assert_eq!(worktrees[0].status, "ready");
}

#[test]
fn worktrees_need_an_array() {
    assert!(parse_worktrees(&object(vec![])).is_empty());
    let missing = parse_worktrees(&Json::Array(vec![object(vec![])]));
    assert_eq!(missing[0].id, "");
}

#[test]
fn command_output_is_trimmed_and_joined() {
    assert_eq!(output_text("  out \n", "\n err "), "outerr");
    assert_eq!(output_text("", ""), "");
}

#[test]
fn overview_gathers_listings_and_errors() {
    let o = overview(
        Some("grok 1.0 (abc) [beta]"),
        CliRun::Succeeded(SESSIONS.to_string()),
        WorktreeRun::Listed(b"[{,".to_vec()),
    )
    .expect("overview");
    assert_eq!(o.version, "1.0");
    assert_eq!(o.channel, "beta");
    assert_eq!(o.sessions.len(), 2);
    assert!(o.worktrees.is_empty());
    assert_eq!(o.errors.len(), 1);
    assert!(o.errors[0].starts_with("parse worktrees: "));
    assert_eq!(o.capabilities.len(), 9);
    assert_eq!(o.compatibility, "ACP v1 \u{b7} direct billing/privacy \u{b7} legacy fallbacks");

    let failed = overview(None, CliRun::Failed("boom".into()), WorktreeRun::Error("no grok".into()))
        .expect("overview");
    assert_eq!(failed.version, "");
    assert_eq!(
        failed.errors,
        vec!["sessions list failed: boom".to_string(), "no grok".to_string()]
    );
}

#[test]
fn capability_list_is_complete() {
    let list = capabilities();
    assert_eq!(list.len(), 9);
    assert_eq!(list[0].name, "Persistent agent transports");
    assert_eq!(list[8].detail, "grok dashboard");
    assert!(list.iter().all(|c| c.available));
}

fn status(version: &str, error: Option<&str>) -> GrokUpdateStatus {
    GrokUpdateStatus {
        current_version: version.into(),
        latest_version: None,
        update_available: false,
        installer: None,
        channel: "stable".into(),
        auto_update: true,
        error: error.map(str::to_string),
    }
}

#[test]
fn update_reports_are_checked() {
    assert_eq!(
        check_update_status(status("1", Some("npm view @latest failed: E403"))).err().as_deref(),
        Some("Grok CLI update check: npm view @latest failed: E403")
    );
    assert!(check_update_status(status("1", Some(""))).is_ok());
    assert!(check_update_status(status("1", None)).is_ok());
    assert!(check_installed(&status("1", None), status("1", None)).is_err());
    assert_eq!(check_installed(&status("1", None), status("2", None)).unwrap().current_version, "2");
}

#[test]
fn worktree_output_is_read_from_json_bytes() {
    let listed = overview(None, CliRun::Error("x".into()), WorktreeRun::Listed(br#"[{"id":"a","path":"/p"}]"#.to_vec()))
        .expect("overview");
    assert_eq!(listed.worktrees.len(), 1);
    assert_eq!(listed.worktrees[0].path, "/p");
    assert!(parse_worktree_output(br#"{"id":"a"}"#).unwrap().is_empty());
    assert!(parse_worktree_output(b"nope").err().unwrap().starts_with("parse worktrees: "));
}
