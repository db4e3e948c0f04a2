use grok_desktop::json::{Json, JsonNumber};
use grok_desktop::privacy::{
    account_retention_opt_out, archive_file_name, assess_project_path, check_archive_confirmation,
    check_export_destination, check_retention_confirmation, check_retention_response,
    config_already_protected, config_backup_name, config_privacy_state,
    expected_retention_confirmation, finish_audit, is_upload_line, new_audit, privacy_report,
    record_upload_event, retention_change_needed, retention_slash_command, upload_started_since,
    LogContext, LogEvent,
};

fn object(pairs: Vec<(&str, Json)>) -> Json {
    Json::Object(pairs.into_iter().map(|(k, v)| (k.to_string(), v)).collect())
}

fn log_reader(content: Vec<u8>) -> impl Fn(u64) -> Option<Vec<u8>> {
    move |offset: u64| Some(content[offset as usize..].to_vec())
}

#[test]
fn retention_changes_require_explicit_directional_confirmation() {
    assert_eq!(
        expected_retention_confirmation(true),
        "DELETE PREVIOUSLY SYNCED DATA"
    );
    assert_eq!(
        expected_retention_confirmation(false),
        "ALLOW FUTURE DATA RETENTION"
    );
}

#[test]
fn retention_confirmation_is_directional() {
    assert!(check_retention_confirmation(true, "DELETE PREVIOUSLY SYNCED DATA").is_ok());
    assert_eq!(
        check_retention_confirmation(false, "DELETE PREVIOUSLY SYNCED DATA").err().as_deref(),
        Some("Data-retention confirmation did not match")
    );
    assert!(!retention_change_needed(Some(true), true));
    assert!(retention_change_needed(None, true));
    assert!(check_retention_response(Some(false), false).is_ok());
    assert_eq!(
        check_retention_response(None, false).err().as_deref(),
        Some("Grok returned an unexpected data-retention state")
    );
    assert_eq!(retention_slash_command(true), "/privacy opt-out");
    assert_eq!(retention_slash_command(false), "/privacy opt-in");
}

#[test]
fn upload_monitor_detects_an_event_split_across_writes() {
    let first = br#"{"msg":"repo_state.upload.enqu"#.to_vec();
    let mut cursor = first.len() as u64;
    let mut whole = first.clone();
    whole.extend_from_slice(b"eued\"}\n");
    let length = whole.len() as u64;
    assert!(upload_started_since(&mut cursor, Some(length), log_reader(whole)));
    assert_eq!(cursor, length);
}

#[test]
fn upload_monitor_does_not_redetect_a_completed_old_event() {
    let first = br#"{"msg":"repo_state.upload.enqueued"}\n"#.to_vec();
    let mut cursor = first.len() as u64;
    let mut whole = first.clone();
    whole.extend_from_slice(b"{\"msg\":\"ordinary.event\"}\n");
    let length = whole.len() as u64;
    assert!(!upload_started_since(&mut cursor, Some(length), log_reader(whole)));
    assert_eq!(cursor, length);
}

#[test]
fn upload_monitor_handles_cleared_and_missing_logs() {
    let mut cursor = 500;
    assert!(!upload_started_since(&mut cursor, None, log_reader(Vec::new())));
    assert_eq!(cursor, 500);
    let log = b"{\"msg\":\"repo_state.upload.start\"}\n".to_vec();
    let length = log.len() as u64;
    assert!(upload_started_since(&mut cursor, Some(length), log_reader(log)));
    assert_eq!(cursor, length);
    let mut unchanged = length;
    assert!(!upload_started_since(&mut unchanged, Some(length), log_reader(Vec::new())));
    let mut unreadable = 0;
    assert!(!upload_started_since(&mut unreadable, Some(10), |_offset: u64| None));
    assert_eq!(unreadable, 0);
}

fn event(msg: &str, ts: Option<&str>, repo: Option<&str>, size: Option<u64>) -> LogEvent {
    LogEvent {
        ts: ts.map(str::to_string),
        msg: Some(msg.to_string()),
        ctx: Some(LogContext { repo_path: repo.map(str::to_string), size_bytes: size }),
    }
}

#[test]
fn audit_counts_uploads_per_repository() {
    assert!(is_upload_line("x repo_state.upload.start y"));
    assert!(!is_upload_line("repo_state.download"));
    let mut audit = new_audit(true, Some(true), true, false, true, 1000);
    record_upload_event(&mut audit, &event("repo_state.upload.start", Some("t1"), Some("/b"), Some(99)));
    record_upload_event(&mut audit, &event("repo_state.upload.enqueued", Some("t2"), Some("/a"), Some(500)));
    record_upload_event(&mut audit, &event("repo_state.upload.enqueued", None, Some("/b"), Some(700)));
    record_upload_event(&mut audit, &event("repo_state.upload.other", Some("t9"), Some("/c"), Some(1)));
    record_upload_event(&mut audit, &event("repo_state.upload.enqueued", Some("t3"), Some(""), None));
    assert_eq!(audit.upload_start_events, 1);
    assert_eq!(audit.upload_enqueued_events, 3);
    assert_eq!(audit.upload_bytes, 1200);
    assert_eq!(audit.largest_upload_bytes, 700);
    assert_eq!(audit.first_upload_at.as_deref(), Some("t1"));
    assert_eq!(audit.last_upload_at.as_deref(), Some("t3"));
    let audit = finish_audit(audit);
    let repos: Vec<(&str, u64, u64)> =
        audit.repositories.iter().map(|r| (r.path.as_str(), r.events, r.bytes)).collect();
    assert_eq!(repos, [("/b", 2, 700), ("/a", 1, 500)]);

    let report = privacy_report(&audit, "2026-01-01T00:00:00+00:00");
    assert!(report.starts_with("# Grok Desktop Privacy Audit\n\nGenerated: 2026-01-01T00:00:00+00:00\n"));
    assert!(report.contains("- Account coding-data retention opt-out: true\n"));
    assert!(report.contains("- Upload enqueued events: 3\n"));
    assert!(report.contains("- `/b` \u{2014} 2 events, 700 bytes\n"));
    let empty = privacy_report(&new_audit(false, None, false, false, false, 0), "now");
    assert!(empty.contains("- Account coding-data retention opt-out: unknown\n"));
    assert!(empty.contains("- First upload event: none\n"));
    assert!(empty.ends_with("No repository upload events found.\n"));
}

#[test]
fn audit_repositories_order_by_bytes_then_path() {
    let mut audit = new_audit(false, None, false, false, false, 0);
    for repo in ["/z", "/a", "/m"] {
        record_upload_event(&mut audit, &event("repo_state.upload.enqueued", None, Some(repo), Some(5)));
    }
    let audit = finish_audit(audit);
    let paths: Vec<&str> = audit.repositories.iter().map(|r| r.path.as_str()).collect();
    assert_eq!(paths, ["/a", "/m", "/z"]);
}

#[test]
fn report_destination_and_archive_checks() {
    assert!(check_export_destination("/home/me/report.md").is_ok());
    assert_eq!(
        check_export_destination("/home/me/../x.md").err().as_deref(),
        Some("Export path must not contain '..'")
    );
    assert!(check_export_destination("/home/me/..x.md").is_ok());
    assert!(check_archive_confirmation("ARCHIVE AND CLEAR").is_ok());
    assert!(check_archive_confirmation("archive and clear").is_err());
    assert_eq!(archive_file_name("20260101-000000"), "unified-20260101-000000.jsonl");
    assert_eq!(config_backup_name("s"), "config.privacy-backup-s.toml");
}

fn components(path: &std::path::Path) -> Vec<String> {
    path.components().map(|c| c.as_os_str().to_string_lossy().to_string()).collect()
}

#[test]
fn home_folder_is_critical() {
    let Some(home) = dirs::home_dir() else {
        return;
    };
    let home = components(&home);
    let risk = assess_project_path(&home, Some(&home), |_name: &str| false);
    assert_eq!(risk.severity, "critical");
}

#[test]
fn project_folder_risks() {
    let home: Vec<String> = ["/", "home", "me"].iter().map(|s| s.to_string()).collect();
    let parent: Vec<String> = ["/", "home"].iter().map(|s| s.to_string()).collect();
    let project: Vec<String> = ["/", "home", "me", "code", "app"].iter().map(|s| s.to_string()).collect();
    assert!(assess_project_path(&home, Some(&home), |_n: &str| false).reason.contains("entire home folder"));
    assert_eq!(assess_project_path(&parent, Some(&home), |_n: &str| false).severity, "critical");
    assert_eq!(assess_project_path(&vec!["/".to_string()], None, |_n: &str| false).severity, "critical");
    let safe = assess_project_path(&project, Some(&home), |_n: &str| false);
    assert!(!safe.risky);
    assert_eq!(safe.severity, "safe");
    let warn = assess_project_path(&project, Some(&home), |n: &str| n == ".gnupg");
    assert_eq!(warn.severity, "warning");
    assert!(warn.reason.contains("'.gnupg'"));
}

#[test]
fn reads_privacy_settings_from_grok_files() {
    let auth = object(vec![
        ("a", object(vec![("other", Json::Bool(true))])),
        ("b", object(vec![("coding_data_retention_opt_out", Json::Bool(true))])),
    ]);
    assert_eq!(account_retention_opt_out(&auth), Some(true));
    assert_eq!(account_retention_opt_out(&Json::Null), None);
    let config = object(vec![
        ("features", object(vec![("telemetry", Json::Bool(false))])),
        (
            "telemetry",
            Json::InlineTable(vec![
                ("trace_upload".to_string(), Json::Bool(false)),
                ("mixpanel_enabled".to_string(), Json::Number(JsonNumber { as_i64: Some(0), as_u64: Some(0) })),
            ]),
        ),
    ]);
    assert_eq!(config_privacy_state(&config), (true, true));
    assert!(!config_already_protected(&config));
    assert_eq!(config_privacy_state(&object(vec![])), (false, false));
}

#[test]
fn an_unchanged_log_is_reported_once() {
    let log = br#"{"msg":"repo_state.upload.start"}"#.to_vec();
    let length = log.len() as u64;
    let mut cursor = 0;
    assert!(upload_started_since(&mut cursor, Some(length), log_reader(log.clone())));
    assert_eq!(cursor, length);
    assert!(!upload_started_since(&mut cursor, Some(length), log_reader(log)));
    assert_eq!(cursor, length);
}
