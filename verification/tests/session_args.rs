use grok_desktop::json::Json;
use grok_desktop::session::{
    build_acp_args, check_message_request, compose_full_prompt, effective_rules,
    encode_session_cwd, parse_agent_turn_outcome, parse_turn_outcome_text, persisted_session_exists, plan_only_rules,
    push_session_args, session_events_path,
};

const CHAT_ID: &str = "019f5829-8992-7622-8c5d-72e56c32e489";

fn text(s: &str) -> Json {
    Json::Str(s.to_string())
}

fn object(pairs: Vec<(&str, Json)>) -> Json {
    Json::Object(pairs.into_iter().map(|(k, v)| (k.to_string(), v)).collect())
}

#[test]
fn new_chat_gets_deterministic_session_id() {
    let mut args = Vec::new();
    push_session_args(&mut args, Some(CHAT_ID), false);
    assert_eq!(args, ["--session-id", CHAT_ID]);
}

#[test]
fn existing_chat_resumes_its_own_session() {
    let mut args = Vec::new();
    push_session_args(&mut args, Some(CHAT_ID), true);
    assert_eq!(args, ["--resume", CHAT_ID]);
}

#[test]
fn id_less_legacy_session_uses_continue() {
    let mut args = Vec::new();
    push_session_args(&mut args, None, true);
    assert_eq!(args, ["--continue"]);
}

#[test]
fn encodes_workspace_like_grok_session_storage() {
    assert_eq!(encode_session_cwd(r"H:\KrakenUI"), "H%3A%5CKrakenUI");
    assert_eq!(encode_session_cwd(r"\\?\H:\KrakenUI"), "H%3A%5CKrakenUI");
    assert_eq!(
        encode_session_cwd(r"\\?\UNC\server\share"),
        "%5C%5Cserver%5Cshare"
    );
    assert_eq!(
        encode_session_cwd(r"F:\Grok Gui\grok-desktop"),
        "F%3A%5CGrok%20Gui%5Cgrok-desktop"
    );
}

#[test]
fn plan_only_adds_read_only_completion_guidance() {
    assert_eq!(effective_rules("", "plan"), plan_only_rules());
    assert_eq!(
        effective_rules("Keep replies short", "default"),
        "Keep replies short"
    );
    assert!(effective_rules("Keep replies short", "plan").starts_with("Keep replies short\n\n"));
}

#[test]
fn detects_latest_permission_cancelled_turn() {
    let old = "{\"type\":\"turn_ended\",\"outcome\":\"completed\"}\n";
    let new = "{\"type\":\"turn_ended\",\"outcome\":\"cancelled\",\"cancellation_category\":\"permission_cancelled\"}\n";
    let outcome = parse_turn_outcome_text(&format!("{old}{new}")).expect("a finished turn");
    assert_eq!(outcome.outcome, "cancelled");
    assert_eq!(
        outcome.cancellation_category.as_deref(),
        Some("permission_cancelled")
    );
}

#[test]
fn turn_outcome_text_skips_lines_that_are_not_json() {
    let text = "{\"type\":\"turn_ended\",\"outcome\":\"completed\"}\r\nnot json\n{\"type\":\"tool_call\"}";
    let outcome = parse_turn_outcome_text(text).expect("turn");
    assert_eq!(outcome.outcome, "completed");
    assert!(parse_turn_outcome_text("garbage\n").is_none());
}

#[test]
fn turn_outcome_skips_unreadable_and_other_records() {
    let done = object(vec![("type", text("turn_ended"))]);
    let other = object(vec![("type", text("tool_call"))]);
    let outcome = parse_agent_turn_outcome(&vec![Some(done), None, Some(other)]).expect("turn");
    assert_eq!(outcome.outcome, "");
    assert!(outcome.cancellation_category.is_none());
    assert!(parse_agent_turn_outcome(&vec![None]).is_none());
}

#[test]
fn missing_chat_id_is_not_a_persisted_session() {
    assert!(!persisted_session_exists(r"H:\KrakenUI", None, |_path: &Vec<String>| true));
}

#[test]
fn persisted_session_asks_for_the_chat_event_log() {
    let expected = session_events_path(r"H:\KrakenUI", Some(CHAT_ID)).expect("a path");
    assert_eq!(expected.last().map(String::as_str), Some("events.jsonl"));
    assert!(expected.iter().any(|part| part == "H%3A%5CKrakenUI"));
    assert!(persisted_session_exists(r"H:\KrakenUI", Some(CHAT_ID), |path: &Vec<String>| {
        *path == expected
    }));
}

#[test]
fn message_requests_are_checked() {
    assert!(check_message_request("", 0).is_err());
    assert!(check_message_request("hello", 0).is_ok());
    assert!(check_message_request("", 1).is_ok());
    assert!(check_message_request("hello", 17).is_err());
}

#[test]
fn full_prompt_lists_managed_attachments_first() {
    let prompt = compose_full_prompt("Review", &vec!["/m/a.png".to_string()]);
    assert!(prompt.contains("- /m/a.png\n"));
    assert!(prompt.ends_with("\nReview"));
    assert_eq!(compose_full_prompt("Review", &Vec::new()), "Review");
}

#[test]
fn acp_turn_arguments_name_the_model() {
    assert_eq!(
        build_acp_args("grok-4.5", " high "),
        ["agent", "-m", "grok-4.5", "--reasoning-effort", " high ", "stdio"]
    );
    assert_eq!(build_acp_args("grok-4.5", ""), ["agent", "-m", "grok-4.5", "stdio"]);
}
