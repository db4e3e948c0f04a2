use grok_desktop::agents::{
    agent_run_args, check_agent_known, check_agent_name, check_run_request, create_definition,
    list_definitions, output_chunk, run_done_status, run_started, source_label, valid_agent_name,
    AgentDefinition, AgentScope,
};
use grok_desktop::config::AppSettings;
use grok_desktop::json::Json;

fn text(s: &str) -> Json {
    Json::Str(s.to_string())
}

fn object(pairs: Vec<(&str, Json)>) -> Json {
    Json::Object(pairs.into_iter().map(|(k, v)| (k.to_string(), v)).collect())
}

#[test]
fn validates_agent_names() {
    assert!(valid_agent_name("security-review"));
    assert!(valid_agent_name("auditor_2"));
    assert!(!valid_agent_name("../escape"));
    assert!(!valid_agent_name("agent name"));
}

#[test]
fn agent_name_length_limits() {
    assert!(!valid_agent_name(""));
    assert!(valid_agent_name(&"a".repeat(64)));
    assert!(!valid_agent_name(&"a".repeat(65)));
    assert!(!valid_agent_name("caf\u{e9}"));
}

#[test]
fn agent_sources_are_labelled() {
    assert_eq!(source_label(None), "unknown");
    let path = object(vec![("type", text("project")), ("path", text("/p/a.md"))]);
    assert_eq!(source_label(Some(&path)), "project \u{b7} /p/a.md");
    let plugin = object(vec![("plugin_name", text("kit"))]);
    assert_eq!(source_label(Some(&plugin)), "plugin \u{b7} kit");
    assert_eq!(source_label(Some(&object(vec![]))), "unknown");
}

#[test]
fn definitions_are_sorted_and_deduplicated() {
    let inspect = object(vec![(
        "agents",
        Json::Array(vec![
            object(vec![("name", text("zeta")), ("description", text("last"))]),
            object(vec![("name", text("alpha")), ("description", text("first"))]),
            object(vec![("name", text("alpha")), ("description", text("second"))]),
            object(vec![("name", text("bad name"))]),
            object(vec![("description", text("nameless"))]),
        ]),
    )]);
    let defs = list_definitions(&inspect);
    let names: Vec<&str> = defs.iter().map(|d| d.name.as_str()).collect();
    assert_eq!(names, ["alpha", "zeta"]);
    assert_eq!(defs[0].description, "first");
    assert_eq!(defs[0].source, "unknown");
    assert!(list_definitions(&object(vec![])).is_empty());
}

#[test]
fn new_definitions_are_checked_and_written() {
    let draft = create_definition("project", "  Auditor ", " Audits\n  code ", " Be careful. ")
        .expect("valid definition");
    assert_eq!(draft.name, "auditor");
    assert_eq!(draft.file_name, "auditor.md");
    assert!(matches!(draft.scope, AgentScope::Project));
    assert_eq!(
        draft.content,
        "---\nname: auditor\ndescription: >\n  Audits\n  code\nprompt_mode: full\nmodel: inherit\npermission_mode: default\nagents_md: true\n---\n\nBe careful.\n"
    );
    assert!(matches!(create_definition("user", "x", "d", "i").unwrap().scope, AgentScope::User));
    assert_eq!(
        create_definition("user", "bad name", "d", "i").err().as_deref(),
        Some("Agent names may contain only letters, numbers, hyphens, and underscores")
    );
    assert_eq!(
        create_definition("user", "ok", " ", "i").err().as_deref(),
        Some("Description and instructions are required")
    );
    assert_eq!(
        create_definition("user", "ok", &"d".repeat(2001), "i").err().as_deref(),
        Some("Agent definition is too large")
    );
    assert_eq!(
        create_definition("team", "ok", "d", "i").err().as_deref(),
        Some("Agent scope must be project or user")
    );
}

#[test]
fn run_requests_are_checked() {
    assert!(check_run_request("  ", 0).is_err());
    assert!(check_run_request("task", 7).is_ok());
    assert_eq!(
        check_run_request("task", 8).err().as_deref(),
        Some("Up to 8 agents can run at once")
    );
    assert!(check_agent_name("").is_ok());
    assert_eq!(check_agent_name("a b").err().as_deref(), Some("Invalid agent name"));
    let known = vec![AgentDefinition {
        name: "alpha".into(),
        description: String::new(),
        source: String::new(),
    }];
    assert!(check_agent_known("alpha", &known).is_ok());
    assert_eq!(
        check_agent_known("beta", &known).err().as_deref(),
        Some("Grok did not discover an agent named 'beta'")
    );
}

#[test]
fn run_command_line() {
    let settings = AppSettings {
        reasoning_effort: "high".into(),
        permission_mode: "plan".into(),
        plan_mode: false,
        memory_enabled: false,
        ..AppSettings::default()
    };
    let args = agent_run_args("do it", "grok-4.5", "/w", "id-1", "alpha", false, &settings);
    assert_eq!(
        args,
        [
            "-p", "do it", "-m", "grok-4.5", "--cwd", "/w", "--output-format", "plain",
            "--session-id", "id-1", "--agent", "alpha", "--reasoning-effort", "high",
            "--permission-mode", "plan", "--no-plan", "--no-memory"
        ]
    );
    let yolo = agent_run_args("t", "m", "/w", "id", "", true, &settings);
    assert!(yolo.contains(&"--always-approve".to_string()));
    assert!(!yolo.contains(&"--permission-mode".to_string()));
    assert!(!yolo.contains(&"--agent".to_string()));
}

#[test]
fn run_reports() {
    let started = run_started("id".into(), "", "p".into(), "/w".into(), "now".into());
    assert_eq!(started.agent, "default");
    assert_eq!(run_done_status(true, 0), "cancelled");
    assert_eq!(run_done_status(false, 0), "completed");
    assert_eq!(run_done_status(false, 2), "failed");
    assert_eq!(output_chunk("line"), "line\n");
}
