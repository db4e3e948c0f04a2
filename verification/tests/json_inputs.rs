use grok_desktop::acp::{message_line, prompt_failure, rpc_reply_line, stream_line_step, StreamStep};
use grok_desktop::agents::definitions_from_inspect;
use grok_desktop::capabilities::grok_json_output;
use grok_desktop::json::Json;
use grok_desktop::privacy::retention_opt_out_from_auth;

#[test]
fn agent_inventory_is_read_from_output_bytes() {
    let out = br#"{"agents":[{"name":"zeta"},{"name":"alpha","description":"first"},{"name":"alpha"},{"name":"bad name"}]}"#;
    let defs = definitions_from_inspect(out).expect("parsed");
    let names: Vec<&str> = defs.iter().map(|d| d.name.as_str()).collect();
    assert_eq!(names, ["alpha", "zeta"]);
    assert_eq!(defs[0].description, "first");
    assert!(definitions_from_inspect(b"oops").err().unwrap().starts_with("Could not parse Grok agent inventory: "));
}

#[test]
fn retention_is_read_from_auth_bytes() {
    let auth = br#"{"acct":{"coding_data_retention_opt_out":true}}"#;
    assert_eq!(retention_opt_out_from_auth(auth), Some(true));
    assert_eq!(retention_opt_out_from_auth(br#"{"acct":{}}"#), None);
    assert_eq!(retention_opt_out_from_auth(b"not json"), None);
}

#[test]
fn command_json_is_read_when_it_parses() {
    assert!(matches!(grok_json_output(br#"{"a":1}"#), Some(Json::Object(_))));
    assert!(grok_json_output(b"Error: no").is_none());
}

#[test]
fn rpc_lines_are_parsed_and_written() {
    assert!(matches!(rpc_reply_line(r#"{"jsonrpc":"2.0","id":3,"result":{}}"#, 2, "x"), Ok(None)));
    assert!(matches!(
        rpc_reply_line(r#"{"jsonrpc":"2.0","id":2,"result":{"sessionId":"s"}}"#, 2, "x"),
        Ok(Some(Json::Object(_)))
    ));
    assert!(matches!(rpc_reply_line(r#"{"id":2}"#, 2, "x"), Ok(Some(Json::Null))));
    assert_eq!(
        rpc_reply_line(r#"{"id":2,"error":{"code":-1}}"#, 2, "Grok ACP request failed").err().unwrap(),
        r#"Grok ACP request failed: {"code":-1}"#
    );
    assert!(rpc_reply_line("{", 2, "x").err().unwrap().starts_with("Invalid Grok ACP response: "));
    let line = message_line(&Json::Object(vec![("id".into(), Json::Bool(true))]));
    assert_eq!(line, "{\"id\":true}\r\n");
    assert_eq!(prompt_failure(&Json::Str("boom".into())), "Grok ACP prompt failed: \"boom\"");
}

#[test]
fn stream_lines_are_parsed() {
    let finished = stream_line_step(r#"{"id":5,"result":{"stopReason":"max_tokens"}}"#, 5, "r".into());
    assert!(matches!(finished, Ok(StreamStep::Finished(reason)) if reason == "max_tokens"));
    let chunk = stream_line_step(
        r#"{"method":"session/update","params":{"update":{"sessionUpdate":"agent_message_chunk","content":{"text":"hi"}}}}"#,
        5,
        "r".into(),
    );
    assert!(matches!(chunk, Ok(StreamStep::Chunk(t)) if t == "hi"));
    assert!(stream_line_step("nope", 5, "r".into()).err().unwrap().starts_with("Invalid Grok ACP stream message: "));
}
