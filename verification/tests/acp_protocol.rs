use grok_desktop::acp::{
    acp_chat_key, can_load_session, extension_wire_method, permission_payload, permission_reply,
    rpc_reply, select_auth_method, stream_step, unwrap_extension_result, RpcReply, StreamStep,
};
use grok_desktop::json::{Json, JsonNumber};

fn text(s: &str) -> Json {
    Json::Str(s.to_string())
}

fn number(n: i64) -> Json {
    Json::Number(JsonNumber { as_i64: Some(n), as_u64: if n >= 0 { Some(n as u64) } else { None } })
}

fn object(pairs: Vec<(&str, Json)>) -> Json {
    Json::Object(pairs.into_iter().map(|(k, v)| (k.to_string(), v)).collect())
}

fn ids(list: &[&str]) -> Json {
    Json::Array(list.iter().map(|id| object(vec![("id", text(id))])).collect())
}

#[test]
fn selects_agent_preferred_auth_method() {
    let response = object(vec![
        ("authMethods", ids(&["cached_token", "xai_api_key"])),
        ("_meta", object(vec![("defaultAuthMethodId", text("xai_api_key"))])),
    ]);
    assert_eq!(select_auth_method(&response).as_deref(), Some("xai_api_key"));
}

#[test]
fn falls_back_to_cached_token_for_legacy_agents() {
    let response = object(vec![("authMethods", ids(&["browser_login", "cached_token"]))]);
    assert_eq!(select_auth_method(&response).as_deref(), Some("cached_token"));
}

#[test]
fn auth_falls_back_to_first_method_then_none() {
    let first = object(vec![
        ("authMethods", ids(&["browser_login", "device_code"])),
        ("_meta", object(vec![("defaultAuthMethodId", text("not_offered"))])),
    ]);
    assert_eq!(select_auth_method(&first).as_deref(), Some("browser_login"));
    assert_eq!(select_auth_method(&object(vec![("authMethods", ids(&[]))])), None);
    assert_eq!(select_auth_method(&object(vec![])), None);
}

#[test]
fn unwraps_extension_payload() {
    let value = object(vec![(
        "result",
        object(vec![("config", object(vec![("creditUsagePercent", number(42))]))]),
    )]);
    let payload = unwrap_extension_result(value);
    let percent = payload.get("config").and_then(|config| config.u64_at("creditUsagePercent"));
    assert_eq!(percent, Some(42));
}

#[test]
fn extension_payload_without_result_is_kept() {
    let value = object(vec![("config", text("x"))]);
    let payload = unwrap_extension_result(value);
    assert_eq!(payload.str_at("config"), Some("x"));
}

#[test]
fn prefixes_vendor_extension_for_acp_wire() {
    assert_eq!(
        extension_wire_method("x.ai/billing").as_deref(),
        Ok("_x.ai/billing")
    );
    assert!(extension_wire_method("_x.ai/billing").is_err());
    assert!(extension_wire_method("x.ai/bad method").is_err());
    assert!(extension_wire_method("").is_err());
}

#[test]
fn maps_acp_permission_request_for_the_gui() {
    let params = object(vec![
        (
            "toolCall",
            object(vec![
                ("toolCallId", text("tool-1")),
                ("title", text("Write bugslist.md")),
                ("rawInput", object(vec![("path", text("bugslist.md"))])),
            ]),
        ),
        (
            "options",
            Json::Array(vec![
                object(vec![
                    ("optionId", text("once")),
                    ("name", text("Allow once")),
                    ("kind", text("allow_once")),
                ]),
                object(vec![
                    ("optionId", text("deny")),
                    ("name", text("Deny")),
                    ("kind", text("reject_once")),
                ]),
            ]),
        ),
    ]);
    let payload = permission_payload(params, "request-1".into());

    assert_eq!(payload.request_id, "request-1");
    assert_eq!(payload.title, "Write bugslist.md");
    assert_eq!(payload.options.len(), 2);
    assert_eq!(payload.options[0].id, "once");
    assert_eq!(payload.options[1].kind, "reject_once");
    assert_eq!(payload.tool_call.str_at("toolCallId"), Some("tool-1"));
}

#[test]
fn permission_request_defaults() {
    let params = object(vec![("options", Json::Array(vec![object(vec![("optionId", text("x"))]), object(vec![])]))]);
    let payload = permission_payload(params, "r".into());
    assert_eq!(payload.title, "Grok wants to perform an action");
    assert_eq!(payload.options.len(), 1);
    assert_eq!(payload.options[0].name, "Choose");
    assert_eq!(payload.options[0].kind, "allow_once");
    assert!(matches!(payload.tool_call, Json::Null));
}

#[test]
fn replies_to_a_permission_request() {
    let chosen = permission_reply(number(7), Some("once".into()));
    assert_eq!(chosen.str_at("jsonrpc"), Some("2.0"));
    assert_eq!(chosen.get("id").and_then(Json::as_i64), Some(7));
    let outcome = chosen.get("result").and_then(|r| r.get("outcome")).expect("outcome");
    assert_eq!(outcome.str_at("outcome"), Some("selected"));
    assert_eq!(outcome.str_at("optionId"), Some("once"));
    let cancelled = permission_reply(number(8), None);
    let outcome = cancelled.get("result").and_then(|r| r.get("outcome")).expect("outcome");
    assert_eq!(outcome.str_at("outcome"), Some("cancelled"));
    assert!(outcome.get("optionId").is_none());
}

#[test]
fn reads_rpc_replies_by_id() {
    assert!(matches!(rpc_reply(object(vec![("id", number(2))]), 1), RpcReply::Unrelated));
    match rpc_reply(object(vec![("id", number(1)), ("result", text("ok"))]), 1) {
        RpcReply::Answered(value) => assert_eq!(value.as_str(), Some("ok")),
        _ => panic!("expected an answer"),
    }
    assert!(matches!(rpc_reply(object(vec![("id", number(1))]), 1), RpcReply::Answered(Json::Null)));
    assert!(matches!(
        rpc_reply(object(vec![("id", number(1)), ("error", text("bad"))]), 1),
        RpcReply::Failed(_)
    ));
}

#[test]
fn stream_messages_become_steps() {
    let finished = object(vec![("id", number(4)), ("result", object(vec![("stopReason", text("max_tokens"))]))]);
    match stream_step(finished, 4, "r".into()) {
        StreamStep::Finished(reason) => assert_eq!(reason, "max_tokens"),
        _ => panic!("expected the end of the turn"),
    }
    match stream_step(object(vec![("id", number(4)), ("result", object(vec![]))]), 4, "r".into()) {
        StreamStep::Finished(reason) => assert_eq!(reason, "end_turn"),
        _ => panic!("expected the end of the turn"),
    }
    let chunk = object(vec![
        ("method", text("session/update")),
        (
            "params",
            object(vec![(
                "update",
                object(vec![
                    ("sessionUpdate", text("agent_thought_chunk")),
                    ("content", object(vec![("text", text("hmm"))])),
                ]),
            )]),
        ),
    ]);
    match stream_step(chunk, 4, "r".into()) {
        StreamStep::Thought(t) => assert_eq!(t, "[thought] hmm"),
        _ => panic!("expected a thought"),
    }
    let tool = object(vec![
        ("method", text("session/update")),
        ("params", object(vec![("update", object(vec![("sessionUpdate", text("tool_call"))]))])),
    ]);
    match stream_step(tool, 4, "r".into()) {
        StreamStep::Activity(t) => assert_eq!(t, "Running a project action\u{2026}"),
        _ => panic!("expected an activity"),
    }
    let ask = object(vec![
        ("id", number(9)),
        ("method", text("session/request_permission")),
        ("params", object(vec![("toolCall", object(vec![("title", text("Run tests"))]))])),
    ]);
    match stream_step(ask, 4, "req".into()) {
        StreamStep::Permission(id, payload) => {
            assert_eq!(id.as_i64(), Some(9));
            assert_eq!(payload.title, "Run tests");
            assert_eq!(payload.request_id, "req");
        }
        _ => panic!("expected a permission request"),
    }
    let no_id = object(vec![("method", text("session/request_permission"))]);
    assert!(matches!(stream_step(no_id, 4, "r".into()), StreamStep::MissingPermissionId));
    assert!(matches!(stream_step(object(vec![("method", text("other"))]), 4, "r".into()), StreamStep::Ignored));
}

#[test]
fn session_helpers() {
    let init = object(vec![("agentCapabilities", object(vec![("loadSession", Json::Bool(true))]))]);
    assert!(can_load_session(&init));
    assert!(!can_load_session(&object(vec![])));
    assert_eq!(acp_chat_key(Some("abc"), "/w"), "abc");
    assert_eq!(acp_chat_key(None, "/w"), "cwd:/w");
}
