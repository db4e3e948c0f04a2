use grok_desktop::capabilities::{
    check_mcp_name, check_plugin_name, find_config_server, inventory, list_plugins,
    plugin_action, plugins_from_inspect,
};
use grok_desktop::json::{Json, JsonNumber};
use grok_desktop::launch::{connection_probe_script, looks_like_connection_error, LaunchStatus};

fn text(s: &str) -> Json {
    Json::Str(s.to_string())
}

fn num(n: u64) -> Json {
    Json::Number(JsonNumber { as_i64: Some(n as i64), as_u64: Some(n) })
}

fn object(pairs: Vec<(&str, Json)>) -> Json {
    Json::Object(pairs.into_iter().map(|(k, v)| (k.to_string(), v)).collect())
}

#[test]
fn launch_success_needs_ready_ui_without_failure() {
    let mut status = LaunchStatus::default();
    let start = status.snapshot();
    assert_eq!(start.phase, "Starting\u{2026}");
    assert!(!start.success);
    let failed = status.mark_failed("refused");
    assert!(!failed.success);
    assert_eq!(failed.phase, "Connection failed \u{2014} refused");
    assert_eq!(failed.last_error.as_deref(), Some("refused"));
    let ready = status.mark_ready();
    assert!(ready.success);
    assert!(ready.last_error.is_none());
    assert_eq!(ready.phase, "UI ready");
    let phase = status.set_phase("Loading");
    assert!(phase.success);
    assert_eq!(phase.phase, "Loading");
}

#[test]
fn detects_connection_error_pages() {
    assert!(looks_like_connection_error("chrome-error://chromewebdata/", "", ""));
    assert!(looks_like_connection_error("http://x", "This site can\u{2019}t be reached", ""));
    assert!(looks_like_connection_error("http://x", "", "ERR_CONNECTION_REFUSED"));
    assert!(looks_like_connection_error("DATA:text/html,x", "", "Grok Desktop could not load"));
    assert!(!looks_like_connection_error("data:text/html,x", "", "fine"));
    assert!(!looks_like_connection_error("http://127.0.0.1:1420/", "Grok Desktop", "Welcome"));
    assert!(connection_probe_script().contains("report_ui_failed"));
}

#[test]
fn inventory_merges_config_inspect_and_doctor() {
    let config = object(vec![(
        "mcp_servers",
        object(vec![
            (
                "files",
                object(vec![
                    ("command", text("npx")),
                    ("args", Json::Array(vec![text("-y"), num(3), text("fs")])),
                    ("enabled", Json::Bool(false)),
                ]),
            ),
            ("inline", Json::InlineTable(vec![("command".to_string(), text("x"))])),
        ]),
    )]);
    let inspect = object(vec![
        (
            "mcpServers",
            Json::Array(vec![
                object(vec![
                    ("name", text("files")),
                    ("transport", text("stdio")),
                    ("target", text("npx fs")),
                    ("source", object(vec![("type", text("configToml")), ("path", text("/c.toml"))])),
                ]),
                object(vec![
                    ("name", text("search")),
                    ("target", text("https://s")),
                    ("source", object(vec![("type", text("plugin")), ("plugin_name", text("web"))])),
                ]),
            ]),
        ),
        (
            "configSources",
            object(vec![(
                "layers",
                Json::Array(vec![
                    object(vec![("role", text("system")), ("path", text("/etc/grok.toml"))]),
                    object(vec![("role", text("user")), ("path", text("/home/me/.grok/config.toml"))]),
                ]),
            )]),
        ),
        (
            "plugins",
            Json::Array(vec![
                object(vec![
                    ("name", text("web")),
                    ("provides", object(vec![("skills", num(2)), ("hooks", Json::Bool(true))])),
                ]),
                object(vec![("name", text("alpha")), ("enabled", Json::Bool(false)), ("scope", text("user"))]),
            ]),
        ),
    ]);
    let doctor = object(vec![(
        "servers",
        Json::Array(vec![object(vec![
            ("name", text("search")),
            ("target", text("https://s")),
            ("healthy", Json::Bool(true)),
            ("source", text("config")),
        ])]),
    )]);
    let inv = inventory(&config, "/home/me/.grok/config.toml", Some(&inspect), Some(&doctor), None)
        .expect("inventory");
    let names: Vec<&str> = inv.mcp_servers.iter().map(|s| s.name.as_str()).collect();
    assert_eq!(names, ["files", "search"]);
    let files = &inv.mcp_servers[0];
    assert_eq!(files.command, "stdio: npx fs");
    assert!(!files.enabled);
    assert_eq!(files.source, "config: /c.toml");
    assert!(files.can_toggle);
    assert_eq!(files.status, "Configured");
    let search = &inv.mcp_servers[1];
    assert_eq!(search.source, "plugin: web");
    assert_eq!(search.status, "Ready");
    assert!(search.can_toggle);
    assert_eq!(inv.config_path, "/home/me/.grok/config.toml");
    let plugins: Vec<(&str, bool, &str)> =
        inv.plugins.iter().map(|p| (p.name.as_str(), p.enabled, p.detail.as_str())).collect();
    assert_eq!(plugins, [("alpha", false, "user"), ("web", true, "plugin, 2 skills, hooks")]);

    let bare = inventory(&object(vec![]), "/cfg", None, None, Some("No plugins installed.")).unwrap();
    assert!(bare.mcp_servers.is_empty());
    assert!(bare.plugins.is_empty());
    assert_eq!(bare.config_path, "/cfg");
}

#[test]
fn configured_server_commands() {
    let config = object(vec![(
        "mcp_servers",
        object(vec![("files", object(vec![("command", text("npx")), ("args", Json::Array(vec![text("-y"), text("fs")]))]))]),
    )]);
    let inv = inventory(&config, "/cfg", None, None, None).unwrap();
    assert_eq!(inv.mcp_servers[0].command, "npx -y fs");
    assert!(inv.mcp_servers[0].enabled);
    assert_eq!(inv.mcp_servers[0].source, "/cfg");
    assert!(find_config_server(&config, "files").is_ok());
    assert_eq!(find_config_server(&config, "nope").err().as_deref(), Some("MCP server not found: nope"));
}

#[test]
fn plugin_listing_text() {
    let listed = list_plugins("Installed plugins:\n  web-tools   enabled\n  - \n  *notes (disabled)\n\n");
    let got: Vec<(&str, bool)> = listed.iter().map(|p| (p.name.as_str(), p.enabled)).collect();
    assert_eq!(got, [("web-tools", true), ("notes", false)]);
    assert_eq!(listed[1].detail, "*notes (disabled)");
    assert!(list_plugins("No Plugins Installed").is_empty());
    assert!(plugins_from_inspect(&object(vec![])).is_empty());
}

#[test]
fn toggles_are_checked() {
    assert!(check_mcp_name("files").is_ok());
    assert_eq!(check_mcp_name("a[b]").err().as_deref(), Some("Invalid MCP server name"));
    assert!(check_mcp_name(" ").is_err());
    assert!(check_plugin_name("web").is_ok());
    assert_eq!(check_plugin_name("a\nb").err().as_deref(), Some("Invalid plugin name"));
    assert_eq!(plugin_action(true), "enable");
    assert_eq!(plugin_action(false), "disable");
}

#[test]
fn connection_errors_ignore_case_and_extra_text() {
    assert!(looks_like_connection_error("CHROME-ERROR://CHROMEWEBDATA/", "", ""));
    assert!(looks_like_connection_error("x", "This Site Can't Be Reached", ""));
    assert!(looks_like_connection_error("x", "", "... ERR_CONNECTION_REFUSED and more"));
    assert!(!looks_like_connection_error("http://tauri.localhost/", "Grok Desktop", "Welcome"));
}
