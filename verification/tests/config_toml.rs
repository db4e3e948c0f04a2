use grok_desktop::capabilities::mcp_enabled_text;
use grok_desktop::json::Json;
use grok_desktop::privacy::{config_privacy_state, protect_config};
use grok_desktop::toml_doc::config_document;

fn get<'a>(j: &'a Json, key: &str) -> Option<&'a Json> {
    match j {
        Json::Object(es) | Json::InlineTable(es) => es.iter().find(|(k, _)| k == key).map(|(_, v)| v),
        _ => None,
    }
}

#[test]
fn config_documents_are_read_as_trees() {
    let doc = config_document("[features]\ntelemetry = false\n[mcp_servers.docs]\ncommand = \"npx\"\nargs = [\"a\"]\nenv = { K = \"v\" }\n");
    assert!(matches!(get(get(&doc, "features").unwrap(), "telemetry"), Some(Json::Bool(false))));
    let docs = get(get(&doc, "mcp_servers").unwrap(), "docs").unwrap();
    assert!(matches!(get(docs, "command"), Some(Json::Str(c)) if c == "npx"));
    assert!(matches!(get(docs, "args"), Some(Json::Array(a)) if a.len() == 1));
    assert!(matches!(get(docs, "env"), Some(Json::InlineTable(_))));
    assert!(matches!(config_document("not = [valid"), Json::Object(es) if es.is_empty()));
    assert_eq!(config_privacy_state(&doc), (true, false));
}

#[test]
fn protecting_the_config_sets_three_keys_once() {
    let text = protect_config("[telemetry]\nother = 1\n").unwrap().unwrap().unwrap();
    let doc = config_document(&text);
    assert!(matches!(get(get(&doc, "telemetry").unwrap(), "trace_upload"), Some(Json::Bool(false))));
    assert!(matches!(get(get(&doc, "telemetry").unwrap(), "mixpanel_enabled"), Some(Json::Bool(false))));
    assert!(matches!(get(get(&doc, "telemetry").unwrap(), "other"), Some(Json::Number(_))));
    assert!(matches!(get(get(&doc, "features").unwrap(), "telemetry"), Some(Json::Bool(false))));
    assert!(protect_config(&text).unwrap().unwrap().is_none());
    let err = protect_config("a = [").unwrap().unwrap_err();
    assert!(err.starts_with("Parse Grok config: "));
    assert!(protect_config("telemetry = 5\n").is_none());
}

#[test]
fn mcp_servers_are_toggled_in_place() {
    let raw = "# keep me\n[mcp_servers.docs]\ncommand = \"npx\"\n";
    let text = mcp_enabled_text(raw, "docs", false).unwrap();
    assert!(text.starts_with("# keep me\n"));
    assert!(text.contains("enabled = false"));
    let doc = config_document(&text);
    let docs = get(get(&doc, "mcp_servers").unwrap(), "docs").unwrap();
    assert!(matches!(get(docs, "enabled"), Some(Json::Bool(false))));
    assert_eq!(mcp_enabled_text(raw, "other", true).unwrap_err(), "MCP server not found: other");
    assert!(mcp_enabled_text("x = [", "docs", true).unwrap_err().starts_with("parse Grok config: "));
}
