//! The MCP servers and plugins Grok can use, gathered from its configuration
//! file, `grok inspect --json`, `grok mcp doctor --json` and `grok plugin list`.
//!
//! Reading the file and running the commands is left to the caller; it hands
//! in the parsed documents and the printed text.

use vstd::prelude::*;
use crate::json::{array_at, array_spec, bool_at, bool_spec, get_spec, str_at, str_spec, u64_at, Json};
use crate::text::{
    append, append_str, ascii_lower_seq, chars_of, dec_nat, eq_str, has_sub, str_is, string_of, trim_ws,
    u64_text,
};

verus! {

/// An MCP server and where it was found.
pub struct McpServerInfo {
    pub name: String,
    pub command: String,
    pub enabled: bool,
    pub source: String,
    pub can_toggle: bool,
    pub status: String,
}

/// An installed plugin.
pub struct PluginInfo {
    pub name: String,
    pub enabled: bool,
    pub detail: String,
}

/// The servers and plugins shown in the capabilities panel.
pub struct GrokInventory {
    pub mcp_servers: Vec<McpServerInfo>,
    pub plugins: Vec<PluginInfo>,
    pub config_path: String,
}

/// A server as name, command, enabled, source, whether it can be toggled, status.
pub type ServerView = (Seq<char>, Seq<char>, bool, Seq<char>, bool, Seq<char>);

/// The tuple of a server's fields.
pub open spec fn server_view(s: McpServerInfo) -> ServerView {
    (s.name@, s.command@, s.enabled, s.source@, s.can_toggle, s.status@)
}

/// The tuples of a list of servers.
pub open spec fn servers_view(ss: Seq<McpServerInfo>) -> Seq<ServerView> {
    ss.map_values(|s: McpServerInfo| server_view(s))
}

/// The position of the server named `name`, if any.
pub open spec fn server_index(ss: Seq<ServerView>, name: Seq<char>) -> Option<int>
    decreases ss.len(),
{
    if ss.len() == 0 {
        None
    } else if ss.last().0 == name {
        Some(ss.len() - 1)
    } else {
        server_index(ss.drop_last(), name)
    }
}

pub proof fn lemma_server_index(ss: Seq<ServerView>, name: Seq<char>)
    ensures
        match server_index(ss, name) {
            Some(i) => 0 <= i < ss.len() && ss[i].0 == name,
            None => forall|j: int| 0 <= j < ss.len() ==> #[trigger] ss[j].0 != name,
        },
    decreases ss.len(),
{
    if ss.len() > 0 && ss.last().0 != name {
        lemma_server_index(ss.drop_last(), name);
        assert forall|j: int| 0 <= j < ss.len() - 1 implies #[trigger] ss[j] == ss.drop_last()[j] by {}
    }
}

/// No two servers share a name.
pub open spec fn distinct_names(ss: Seq<ServerView>) -> bool {
    forall|i: int, j: int| 0 <= i < j < ss.len() ==> #[trigger] ss[i].0 != #[trigger] ss[j].0
}

/// `s` replaces the server of the same name, or is added at the end.
pub open spec fn put_server(ss: Seq<ServerView>, s: ServerView) -> Seq<ServerView> {
    match server_index(ss, s.0) {
        Some(i) => ss.update(i, s),
        None => ss.push(s),
    }
}

pub proof fn lemma_put_distinct(ss: Seq<ServerView>, s: ServerView)
    requires
        distinct_names(ss),
    ensures
        distinct_names(put_server(ss, s)),
{
    lemma_server_index(ss, s.0);
}

fn find_server(ss: &Vec<McpServerInfo>, name: &str) -> (r: Option<usize>)
    ensures
        match r {
            Some(i) => server_index(servers_view(ss@), name@) == Some(i as int),
            None => server_index(servers_view(ss@), name@) is None,
        },
{
    let ghost v = servers_view(ss@);
    let mut i: usize = ss.len();
    assert(v.subrange(0, i as int) =~= v);
    while i > 0
        invariant
            i <= ss.len(),
            v == servers_view(ss@),
            server_index(v, name@) == server_index(v.subrange(0, i as int), name@),
        decreases i,
    {
        let a = chars_of(ss[i - 1].name.as_str());
        assert(v.subrange(0, i as int).last() == v[i - 1]);
        if eq_str(&a, name) {
            return Some(i - 1);
        }
        assert(v.subrange(0, i as int).drop_last() =~= v.subrange(0, i - 1));
        i -= 1;
    }
    None
}

fn put_server_exec(ss: &mut Vec<McpServerInfo>, s: McpServerInfo)
    ensures
        servers_view(final(ss)@) == put_server(servers_view(old(ss)@), server_view(s)),
{
    let ghost before = ss@;
    proof {
        lemma_server_index(servers_view(ss@), s.name@);
    }
    match find_server(ss, s.name.as_str()) {
        Some(i) => {
            ss.set(i, s);
            assert(servers_view(ss@) =~= put_server(servers_view(before), server_view(s)));
        },
        None => {
            ss.push(s);
            assert(servers_view(ss@) =~= put_server(servers_view(before), server_view(s)));
        },
    }
}

fn text(s: &str) -> (r: String)
    ensures
        r@ == s@,
{
    String::from_str(s)
}

// ---------------------------------------------------------------------------
// Servers in the configuration file
// ---------------------------------------------------------------------------

/// The string items of an array, joined with spaces.
pub open spec fn joined_strings(items: Seq<Json>) -> Seq<char>
    decreases items.len(),
{
    if items.len() == 0 {
        Seq::empty()
    } else {
        let rest = joined_strings(items.drop_last());
        match str_spec(items.last()) {
            Some(s) => if rest.len() == 0 && strings_before(items.drop_last()) == 0 {
                s
            } else {
                rest + " "@ + s
            },
            None => rest,
        }
    }
}

/// How many items of `items` are strings.
pub open spec fn strings_before(items: Seq<Json>) -> nat
    decreases items.len(),
{
    if items.len() == 0 {
        0
    } else {
        strings_before(items.drop_last()) + if str_spec(items.last()) is Some {
            1nat
        } else {
            0nat
        }
    }
}

/// The server described by table `t` named `name` of the configuration file at
/// `source`: its command followed by its string arguments, enabled unless it
/// says otherwise.
pub open spec fn config_server(name: Seq<char>, t: Json, source: Seq<char>) -> ServerView {
    let command = match str_at(t, "command"@) {
        Some(c) => c,
        None => Seq::empty(),
    };
    let args = match array_at(t, "args"@) {
        Some(a) => joined_strings(a),
        None => Seq::empty(),
    };
    (
        name,
        if args.len() == 0 {
            command
        } else {
            command + " "@ + args
        },
        match bool_at(t, "enabled"@) {
            Some(b) => b,
            None => true,
        },
        source,
        true,
        "Configured"@,
    )
}

/// The servers after reading the entries `es` of the `mcp_servers` table:
/// each entry that is itself a table is put in.
pub open spec fn config_fold(ss: Seq<ServerView>, es: Seq<(String, Json)>, source: Seq<char>) -> Seq<
    ServerView,
>
    decreases es.len(),
{
    if es.len() == 0 {
        ss
    } else {
        let prev = config_fold(ss, es.drop_last(), source);
        match es.last().1 {
            Json::Object(_) => put_server(prev, config_server(es.last().0@, es.last().1, source)),
            _ => prev,
        }
    }
}

/// The entries of the `mcp_servers` table of a configuration document.
pub open spec fn config_entries(doc: Json) -> Seq<(String, Json)> {
    match get_spec(doc, "mcp_servers"@) {
        Some(Json::Object(es)) => es@,
        _ => Seq::empty(),
    }
}

fn joined_strings_exec(items: &Vec<Json>) -> (r: Vec<char>)
    ensures
        r@ == joined_strings(items@),
{
    let mut out: Vec<char> = Vec::new();
    let mut count: usize = 0;
    let mut i: usize = 0;
    while i < items.len()
        invariant
            i <= items.len(),
            count == strings_before(items@.take(i as int)),
            count <= i,
            out@ == joined_strings(items@.take(i as int)),
        decreases items.len() - i,
    {
        assert(items@.take(i + 1).drop_last() =~= items@.take(i as int));
        assert(items@.take(i + 1).last() == items@[i as int]);
        match items[i].as_str() {
            Some(s) => {
                if count > 0 || out.len() > 0 {
                    append_str(&mut out, " ");
                }
                append_str(&mut out, s);
                count += 1;
            },
            None => {},
        }
        i += 1;
    }
    assert(items@.take(items.len() as int) =~= items@);
    out
}

fn config_server_exec(name: &str, t: &Json, source: &str) -> (r: McpServerInfo)
    ensures
        server_view(r) == config_server(name@, *t, source@),
{
    let command = match t.str_at("command") {
        Some(c) => chars_of(c),
        None => Vec::new(),
    };
    let args = match t.array_at("args") {
        Some(a) => joined_strings_exec(a),
        None => Vec::new(),
    };
    let mut line = command;
    if args.len() > 0 {
        append_str(&mut line, " ");
        append(&mut line, &args);
    }
    let enabled = match t.bool_at("enabled") {
        Some(b) => b,
        None => true,
    };
    McpServerInfo {
        name: text(name),
        command: string_of(&line),
        enabled,
        source: text(source),
        can_toggle: true,
        status: text("Configured"),
    }
}

/// Puts in the servers of a configuration document read from `source` (see `config_fold`).
pub fn add_config_mcp_servers(servers: &mut Vec<McpServerInfo>, doc: &Json, source: &str)
    ensures
        servers_view(final(servers)@) == config_fold(
            servers_view(old(servers)@),
            config_entries(*doc),
            source@,
        ),
{
    let ghost s0 = servers_view(servers@);
    match doc.get("mcp_servers") {
        Some(Json::Object(es)) => {
            let mut i: usize = 0;
            while i < es.len()
                invariant
                    i <= es.len(),
                    servers_view(servers@) == config_fold(s0, es@.take(i as int), source@),
                decreases es.len() - i,
            {
                assert(es@.take(i + 1).drop_last() =~= es@.take(i as int));
                assert(es@.take(i + 1).last() == es@[i as int]);
                let (name, item) = (&es[i].0, &es[i].1);
                match item {
                    Json::Object(_) => {
                        let s = config_server_exec(name.as_str(), item, source);
                        put_server_exec(servers, s);
                    },
                    _ => {},
                }
                i += 1;
            }
            assert(es@.take(es.len() as int) =~= es@);
        },
        _ => {
            assert(config_entries(*doc) =~= Seq::<(String, Json)>::empty());
        },
    }
}


// ---------------------------------------------------------------------------
// Servers reported by the CLI
// ---------------------------------------------------------------------------

/// `o`'s text, or `d` when there is none.
pub open spec fn or_text(o: Option<Seq<char>>, d: Seq<char>) -> Seq<char> {
    match o {
        Some(s) => s,
        None => d,
    }
}

/// How a server's origin in `grok inspect` is shown: `plugin: {name}` (or
/// `plugin`), `config: {path}` (or `config`), any other non-empty type as is,
/// else `discovered`.
pub open spec fn source_label(source: Json) -> Seq<char> {
    let kind = or_text(str_at(source, "type"@), Seq::empty());
    if kind == "plugin"@ {
        match str_at(source, "plugin_name"@) {
            Some(n) => "plugin: "@ + n,
            None => "plugin"@,
        }
    } else if kind == "configToml"@ {
        match str_at(source, "path"@) {
            Some(p) => "config: "@ + p,
            None => "config"@,
        }
    } else if kind.len() > 0 {
        kind
    } else {
        "discovered"@
    }
}

/// The command shown for a server: `{transport}: {target}`, or the target
/// alone without a transport.
pub open spec fn server_command(item: Json) -> Seq<char> {
    let target = or_text(str_at(item, "target"@), Seq::empty());
    let transport = or_text(str_at(item, "transport"@), Seq::empty());
    if transport.len() == 0 {
        target
    } else {
        transport + ": "@ + target
    }
}

/// The servers after one item of `grok inspect`'s `mcpServers`: a named item
/// updates the command, origin and toggle of a known server, or adds an
/// enabled, discovered one.
pub open spec fn inspect_step(ss: Seq<ServerView>, item: Json) -> Seq<ServerView> {
    match str_at(item, "name"@) {
        None => ss,
        Some(name) => {
            let source = match get_spec(item, "source"@) {
                Some(s) => source_label(s),
                None => "discovered"@,
            };
            let can = "config:"@.is_prefix_of(source);
            let command = server_command(item);
            match server_index(ss, name) {
                Some(i) => ss.update(i, (ss[i].0, command, ss[i].2, source, ss[i].4 || can, ss[i].5)),
                None => ss.push((name, command, true, source, can, "Discovered"@)),
            }
        },
    }
}

/// The servers after the items `items` of `grok inspect`'s `mcpServers`.
pub open spec fn inspect_fold(ss: Seq<ServerView>, items: Seq<Json>) -> Seq<ServerView>
    decreases items.len(),
{
    if items.len() == 0 {
        ss
    } else {
        inspect_step(inspect_fold(ss, items.drop_last()), items.last())
    }
}

/// The servers after one item of `grok mcp doctor`'s `servers`: a named item
/// updates the command and health of a known server (and its origin, when
/// that was only discovered or came from the configuration), or adds an
/// enabled one.
pub open spec fn doctor_step(ss: Seq<ServerView>, item: Json) -> Seq<ServerView> {
    match str_at(item, "name"@) {
        None => ss,
        Some(name) => {
            let source = or_text(str_at(item, "source"@), "discovered"@);
            let healthy = match bool_at(item, "healthy"@) {
                Some(b) => b,
                None => false,
            };
            let status = if healthy {
                "Ready"@
            } else {
                "Needs auth or failed"@
            };
            let can = source == "config"@;
            let command = server_command(item);
            match server_index(ss, name) {
                Some(i) => ss.update(
                    i,
                    (
                        ss[i].0,
                        command,
                        ss[i].2,
                        if ss[i].3 == "discovered"@ || "config:"@.is_prefix_of(ss[i].3) {
                            source
                        } else {
                            ss[i].3
                        },
                        ss[i].4 || can,
                        status,
                    ),
                ),
                None => ss.push((name, command, true, source, can, status)),
            }
        },
    }
}

/// The servers after the items `items` of `grok mcp doctor`'s `servers`.
pub open spec fn doctor_fold(ss: Seq<ServerView>, items: Seq<Json>) -> Seq<ServerView>
    decreases items.len(),
{
    if items.len() == 0 {
        ss
    } else {
        doctor_step(doctor_fold(ss, items.drop_last()), items.last())
    }
}

fn or_empty(o: Option<&str>) -> (r: Vec<char>)
    ensures
        r@ == or_text(crate::session::opt_str_view(o), Seq::empty()),
{
    match o {
        Some(s) => chars_of(s),
        None => Vec::new(),
    }
}

fn source_label_exec(source: &Json) -> (r: Vec<char>)
    ensures
        r@ == source_label(*source),
{
    let kind = or_empty(source.str_at("type"));
    if eq_str(&kind, "plugin") {
        match source.str_at("plugin_name") {
            Some(n) => {
                let mut v = chars_of("plugin: ");
                append_str(&mut v, n);
                v
            },
            None => chars_of("plugin"),
        }
    } else if eq_str(&kind, "configToml") {
        match source.str_at("path") {
            Some(p) => {
                let mut v = chars_of("config: ");
                append_str(&mut v, p);
                v
            },
            None => chars_of("config"),
        }
    } else if kind.len() > 0 {
        kind
    } else {
        chars_of("discovered")
    }
}

fn server_command_exec(item: &Json) -> (r: Vec<char>)
    ensures
        r@ == server_command(*item),
{
    let target = or_empty(item.str_at("target"));
    let transport = or_empty(item.str_at("transport"));
    if transport.len() == 0 {
        target
    } else {
        let mut v = transport;
        append_str(&mut v, ": ");
        append(&mut v, &target);
        v
    }
}

fn inspect_step_exec(ss: &mut Vec<McpServerInfo>, item: &Json)
    ensures
        servers_view(final(ss)@) == inspect_step(servers_view(old(ss)@), *item),
{
    let name = match item.str_at("name") {
        Some(n) => n,
        None => {
            return;
        },
    };
    let source = match item.get("source") {
        Some(s) => source_label_exec(s),
        None => chars_of("discovered"),
    };
    let can = crate::text::starts_with_str(&source, "config:");
    let command = server_command_exec(item);
    let ghost before = servers_view(ss@);
    proof {
        lemma_server_index(before, name@);
    }
    match find_server(ss, name) {
        Some(i) => {
            let e = &ss[i];
            let updated = McpServerInfo {
                name: text(e.name.as_str()),
                command: string_of(&command),
                enabled: e.enabled,
                source: string_of(&source),
                can_toggle: e.can_toggle || can,
                status: text(e.status.as_str()),
            };
            ss.set(i, updated);
            assert(servers_view(ss@) =~= inspect_step(before, *item));
        },
        None => {
            ss.push(
                McpServerInfo {
                    name: text(name),
                    command: string_of(&command),
                    enabled: true,
                    source: string_of(&source),
                    can_toggle: can,
                    status: text("Discovered"),
                },
            );
            assert(servers_view(ss@) =~= inspect_step(before, *item));
        },
    }
}

fn doctor_step_exec(ss: &mut Vec<McpServerInfo>, item: &Json)
    ensures
        servers_view(final(ss)@) == doctor_step(servers_view(old(ss)@), *item),
{
    let name = match item.str_at("name") {
        Some(n) => n,
        None => {
            return;
        },
    };
    let source = match item.str_at("source") {
        Some(s) => chars_of(s),
        None => chars_of("discovered"),
    };
    let healthy = match item.bool_at("healthy") {
        Some(b) => b,
        None => false,
    };
    let status = if healthy {
        "Ready"
    } else {
        "Needs auth or failed"
    };
    let can = eq_str(&source, "config");
    let command = server_command_exec(item);
    let ghost before = servers_view(ss@);
    proof {
        lemma_server_index(before, name@);
    }
    match find_server(ss, name) {
        Some(i) => {
            let e = &ss[i];
            let old_source = chars_of(e.source.as_str());
            let new_source = if eq_str(&old_source, "discovered") || crate::text::starts_with_str(
                &old_source,
                "config:",
            ) {
                string_of(&source)
            } else {
                text(e.source.as_str())
            };
            let updated = McpServerInfo {
                name: text(e.name.as_str()),
                command: string_of(&command),
                enabled: e.enabled,
                source: new_source,
                can_toggle: e.can_toggle || can,
                status: text(status),
            };
            ss.set(i, updated);
            assert(servers_view(ss@) =~= doctor_step(before, *item));
        },
        None => {
            ss.push(
                McpServerInfo {
                    name: text(name),
                    command: string_of(&command),
                    enabled: true,
                    source: string_of(&source),
                    can_toggle: can,
                    status: text(status),
                },
            );
            assert(servers_view(ss@) =~= doctor_step(before, *item));
        },
    }
}

/// The items of the array member `key`, or none.
pub open spec fn items_at(j: Json, key: Seq<char>) -> Seq<Json> {
    match array_at(j, key) {
        Some(a) => a,
        None => Seq::empty(),
    }
}

/// Puts in the servers reported by `grok inspect --json` (see `inspect_fold`).
pub fn add_inspect_mcp_servers(servers: &mut Vec<McpServerInfo>, inspect: &Json)
    ensures
        servers_view(final(servers)@) == inspect_fold(
            servers_view(old(servers)@),
            items_at(*inspect, "mcpServers"@),
        ),
{
    let ghost s0 = servers_view(servers@);
    match inspect.array_at("mcpServers") {
        None => {
            assert(items_at(*inspect, "mcpServers"@) =~= Seq::<Json>::empty());
        },
        Some(items) => {
            let mut i: usize = 0;
            while i < items.len()
                invariant
                    i <= items.len(),
                    servers_view(servers@) == inspect_fold(s0, items@.take(i as int)),
                decreases items.len() - i,
            {
                assert(items@.take(i + 1).drop_last() =~= items@.take(i as int));
                assert(items@.take(i + 1).last() == items@[i as int]);
                inspect_step_exec(servers, &items[i]);
                i += 1;
            }
            assert(items@.take(items.len() as int) =~= items@);
        },
    }
}

/// Puts in the servers reported by `grok mcp doctor --json` (see `doctor_fold`).
pub fn add_doctor_mcp_servers(servers: &mut Vec<McpServerInfo>, doctor: &Json)
    ensures
        servers_view(final(servers)@) == doctor_fold(
            servers_view(old(servers)@),
            items_at(*doctor, "servers"@),
        ),
{
    let ghost s0 = servers_view(servers@);
    match doctor.array_at("servers") {
        None => {
            assert(items_at(*doctor, "servers"@) =~= Seq::<Json>::empty());
        },
        Some(items) => {
            let mut i: usize = 0;
            while i < items.len()
                invariant
                    i <= items.len(),
                    servers_view(servers@) == doctor_fold(s0, items@.take(i as int)),
                decreases items.len() - i,
            {
                assert(items@.take(i + 1).drop_last() =~= items@.take(i as int));
                assert(items@.take(i + 1).last() == items@[i as int]);
                doctor_step_exec(servers, &items[i]);
                i += 1;
            }
            assert(items@.take(items.len() as int) =~= items@);
        },
    }
}


// ---------------------------------------------------------------------------
// Plugins
// ---------------------------------------------------------------------------

/// A plugin as name, enabled, detail.
pub type PluginView = (Seq<char>, bool, Seq<char>);

/// The tuple of a plugin's fields.
pub open spec fn plugin_view(p: PluginInfo) -> PluginView {
    (p.name@, p.enabled, p.detail@)
}

/// The tuples of a list of plugins.
pub open spec fn plugins_view(ps: Seq<PluginInfo>) -> Seq<PluginView> {
    ps.map_values(|p: PluginInfo| plugin_view(p))
}

/// Texts joined with `, `.
pub open spec fn join_comma(ps: Seq<Seq<char>>) -> Seq<char>
    decreases ps.len(),
{
    if ps.len() == 0 {
        Seq::empty()
    } else if ps.len() == 1 {
        ps[0]
    } else {
        join_comma(ps.drop_last()) + ", "@ + ps.last()
    }
}

/// What a plugin provides, as shown: skills, agents and MCP servers when
/// there are any, and hooks.
pub open spec fn provides_parts(skills: u64, agents: u64, mcp: u64, hooks: bool) -> Seq<Seq<char>> {
    (if skills > 0 {
        seq![dec_nat(skills as nat) + " skills"@]
    } else {
        Seq::empty()
    }) + (if agents > 0 {
        seq![dec_nat(agents as nat) + " agents"@]
    } else {
        Seq::empty()
    }) + (if mcp > 0 {
        seq![dec_nat(mcp as nat) + " MCPs"@]
    } else {
        Seq::empty()
    }) + (if hooks {
        seq!["hooks"@]
    } else {
        Seq::empty()
    })
}

/// `o`'s number, or 0.
pub open spec fn or_zero(o: Option<u64>) -> u64 {
    match o {
        Some(n) => n,
        None => 0,
    }
}

/// The plugin an item of `grok inspect`'s `plugins` describes, when it is
/// named: enabled unless it says otherwise; its detail is its scope (`plugin`
/// when missing), followed by what it provides.
pub open spec fn plugin_of(item: Json) -> Option<PluginView> {
    match str_at(item, "name"@) {
        None => None,
        Some(name) => {
            let provides = match get_spec(item, "provides"@) {
                Some(p) => p,
                None => Json::Null,
            };
            let parts = provides_parts(
                or_zero(u64_at(provides, "skills"@)),
                or_zero(u64_at(provides, "agents"@)),
                or_zero(u64_at(provides, "mcpServers"@)),
                match bool_at(provides, "hooks"@) {
                    Some(b) => b,
                    None => false,
                },
            );
            let scope = or_text(str_at(item, "scope"@), "plugin"@);
            Some(
                (
                    name,
                    match bool_at(item, "enabled"@) {
                        Some(b) => b,
                        None => true,
                    },
                    if parts.len() == 0 {
                        scope
                    } else {
                        scope + ", "@ + join_comma(parts)
                    },
                ),
            )
        },
    }
}

/// The plugins described by `items`, in order.
pub open spec fn plugins_in(items: Seq<Json>) -> Seq<PluginView>
    decreases items.len(),
{
    if items.len() == 0 {
        Seq::empty()
    } else {
        plugins_in(items.drop_last()) + match plugin_of(items.last()) {
            Some(p) => seq![p],
            None => Seq::empty(),
        }
    }
}

/// The sorting keys of plugins: their names.
pub open spec fn plugin_keys(ps: Seq<PluginView>) -> Seq<Seq<i128>> {
    ps.map_values(|p: PluginView| crate::sort::text_key(p.0))
}

fn push_part(parts: &mut Vec<Vec<char>>, n: u64, label: &str)
    ensures
        crate::text::views(final(parts)@) == crate::text::views(old(parts)@) + (if n > 0 {
            seq![dec_nat(n as nat) + label@]
        } else {
            Seq::<Seq<char>>::empty()
        }),
{
    let ghost p0 = crate::text::views(parts@);
    if n > 0 {
        let mut v = u64_text(n);
        append_str(&mut v, label);
        parts.push(v);
        assert(crate::text::views(parts@) =~= p0 + seq![dec_nat(n as nat) + label@]);
    } else {
        assert(crate::text::views(parts@) =~= p0 + Seq::<Seq<char>>::empty());
    }
}

fn join_comma_exec(parts: &Vec<Vec<char>>) -> (r: Vec<char>)
    ensures
        r@ == join_comma(crate::text::views(parts@)),
{
    let ghost vs = crate::text::views(parts@);
    let mut out: Vec<char> = Vec::new();
    let mut i: usize = 0;
    while i < parts.len()
        invariant
            i <= parts.len(),
            vs == crate::text::views(parts@),
            out@ == join_comma(vs.take(i as int)),
        decreases parts.len() - i,
    {
        assert(vs.take(i + 1).drop_last() =~= vs.take(i as int));
        assert(vs.take(i + 1).last() == parts@[i as int]@);
        if i > 0 {
            append_str(&mut out, ", ");
        }
        append(&mut out, &parts[i]);
        i += 1;
    }
    assert(vs.take(parts.len() as int) =~= vs);
    out
}

fn plugin_of_exec(item: &Json) -> (r: Option<PluginInfo>)
    ensures
        match r {
            Some(p) => plugin_of(*item) == Some(plugin_view(p)),
            None => plugin_of(*item) is None,
        },
{
    let name = match item.str_at("name") {
        Some(n) => n,
        None => {
            return None;
        },
    };
    let null = Json::Null;
    let provides = match item.get("provides") {
        Some(p) => p,
        None => &null,
    };
    let skills = match provides.u64_at("skills") {
        Some(n) => n,
        None => 0,
    };
    let agents = match provides.u64_at("agents") {
        Some(n) => n,
        None => 0,
    };
    let mcp = match provides.u64_at("mcpServers") {
        Some(n) => n,
        None => 0,
    };
    let hooks = match provides.bool_at("hooks") {
        Some(b) => b,
        None => false,
    };
    let mut parts: Vec<Vec<char>> = Vec::new();
    push_part(&mut parts, skills, " skills");
    push_part(&mut parts, agents, " agents");
    push_part(&mut parts, mcp, " MCPs");
    if hooks {
        let ghost p0 = crate::text::views(parts@);
        parts.push(chars_of("hooks"));
        assert(crate::text::views(parts@) =~= p0 + seq!["hooks"@]);
    }
    assert(crate::text::views(parts@) =~= provides_parts(skills, agents, mcp, hooks));
    let mut detail = match item.str_at("scope") {
        Some(s) => chars_of(s),
        None => chars_of("plugin"),
    };
    if parts.len() > 0 {
        append_str(&mut detail, ", ");
        let joined = join_comma_exec(&parts);
        append(&mut detail, &joined);
    }
    let enabled = match item.bool_at("enabled") {
        Some(b) => b,
        None => true,
    };
    Some(PluginInfo { name: text(name), enabled, detail: string_of(&detail) })
}

fn sort_plugins(ps: Vec<PluginInfo>) -> (r: Vec<PluginInfo>)
    ensures
        crate::sort::stably_sorted(plugins_view(ps@), plugin_keys(plugins_view(ps@)), plugins_view(r@)),
{
    let ghost orig = ps@;
    let mut keys: Vec<Vec<i128>> = Vec::new();
    let mut i: usize = 0;
    while i < ps.len()
        invariant
            i <= ps.len(),
            keys@.len() == i,
            forall|j: int| 0 <= j < i ==> #[trigger] keys@[j]@ == crate::sort::text_key(ps@[j].name@),
        decreases ps.len() - i,
    {
        let k = crate::sort::text_key_exec(ps[i].name.as_str());
        keys.push(k);
        i += 1;
    }
    assert(keys@.map_values(|k: Vec<i128>| k@) =~= plugin_keys(plugins_view(orig)));
    let r = crate::sort::stable_sort(ps, keys);
    proof {
        crate::sort::lemma_sorted_map(orig, plugin_keys(plugins_view(orig)), r@, |p: PluginInfo| plugin_view(p));
        assert(orig.map_values(|p: PluginInfo| plugin_view(p)) =~= plugins_view(orig));
        assert(r@.map_values(|p: PluginInfo| plugin_view(p)) =~= plugins_view(r@));
    }
    r
}

/// The plugins reported by `grok inspect --json`, ordered by name (plugins of
/// the same name keep their order).
pub fn plugins_from_inspect(inspect: &Json) -> (r: Vec<PluginInfo>)
    ensures
        crate::sort::stably_sorted(
            plugins_in(items_at(*inspect, "plugins"@)),
            plugin_keys(plugins_in(items_at(*inspect, "plugins"@))),
            plugins_view(r@),
        ),
{
    let mut found: Vec<PluginInfo> = Vec::new();
    match inspect.array_at("plugins") {
        None => {
            assert(plugins_view(found@) =~= plugins_in(items_at(*inspect, "plugins"@)));
        },
        Some(items) => {
            let mut i: usize = 0;
            while i < items.len()
                invariant
                    i <= items.len(),
                    plugins_view(found@) == plugins_in(items@.take(i as int)),
                decreases items.len() - i,
            {
                assert(items@.take(i + 1).drop_last() =~= items@.take(i as int));
                assert(items@.take(i + 1).last() == items@[i as int]);
                let ghost f0 = found@;
                match plugin_of_exec(&items[i]) {
                    Some(p) => {
                        found.push(p);
                        assert(plugins_view(found@) =~= plugins_view(f0).push(plugin_view(p)));
                    },
                    None => {},
                }
                assert(plugins_view(found@) =~= plugins_in(items@.take(i + 1)));
                i += 1;
            }
            assert(items@.take(items.len() as int) =~= items@);
        },
    }
    sort_plugins(found)
}

/// The plugin a line of `grok plugin list` describes: a trimmed line that is
/// not empty and does not mention `plugin` (in any ASCII case); its first word
/// without `-`, `*` or bullets at its ends is the name, which must not be
/// empty; it is enabled unless the line mentions `disabled`.
pub open spec fn listed_plugin(line: Seq<char>) -> Option<PluginView> {
    let t = trim_ws(line);
    let lower = ascii_lower_seq(t);
    let name = crate::text::trim_triple(
        if crate::text::words(t).len() > 0 {
            crate::text::words(t)[0]
        } else {
            t
        },
        '-',
        '*',
        '\u{2022}',
    );
    if t.len() == 0 || has_sub(lower, "plugin"@) || name.len() == 0 {
        None
    } else {
        Some((name, !has_sub(lower, "disabled"@), t))
    }
}

/// The plugins described by the lines `ls`, in order.
pub open spec fn listed_plugins(ls: Seq<Seq<char>>) -> Seq<PluginView>
    decreases ls.len(),
{
    if ls.len() == 0 {
        Seq::empty()
    } else {
        listed_plugins(ls.drop_last()) + match listed_plugin(ls.last()) {
            Some(p) => seq![p],
            None => Seq::empty(),
        }
    }
}

fn listed_plugin_exec(line: &Vec<char>) -> (r: Option<PluginInfo>)
    ensures
        match r {
            Some(p) => listed_plugin(line@) == Some(plugin_view(p)),
            None => listed_plugin(line@) is None,
        },
{
    let t = crate::text::trim(line);
    let lower = crate::text::to_ascii_lower(&t);
    let ws = crate::text::split_words(&t);
    assert(crate::text::views(ws@).len() == ws@.len());
    let first = if ws.len() > 0 {
        ws[0].clone()
    } else {
        t.clone()
    };
    let name = crate::text::trim_chars3(&first, '-', '*', '\u{2022}');
    if t.len() == 0 || crate::text::contains_str(&lower, "plugin") || name.len() == 0 {
        return None;
    }
    let enabled = !crate::text::contains_str(&lower, "disabled");
    Some(PluginInfo { name: string_of(&name), enabled, detail: string_of(&t) })
}

/// The plugins in the text printed by `grok plugin list`: none when it says
/// that no plugins are installed (in any ASCII case), else those its lines
/// describe (see `listed_plugin`).
pub fn list_plugins(output: &str) -> (r: Vec<PluginInfo>)
    ensures
        plugins_view(r@) == if has_sub(ascii_lower_seq(output@), "no plugins installed"@) {
            Seq::<PluginView>::empty()
        } else {
            listed_plugins(crate::text::lines(output@))
        },
{
    let ov = chars_of(output);
    let lower = crate::text::to_ascii_lower(&ov);
    let mut found: Vec<PluginInfo> = Vec::new();
    if crate::text::contains_str(&lower, "no plugins installed") {
        assert(plugins_view(found@) =~= Seq::<PluginView>::empty());
        return found;
    }
    let ls = crate::text::split_lines(&ov);
    let ghost lv = crate::text::views(ls@);
    let mut i: usize = 0;
    while i < ls.len()
        invariant
            i <= ls.len(),
            lv == crate::text::views(ls@),
            plugins_view(found@) == listed_plugins(lv.take(i as int)),
        decreases ls.len() - i,
    {
        assert(lv.take(i + 1).drop_last() =~= lv.take(i as int));
        assert(lv.take(i + 1).last() == ls@[i as int]@);
        let ghost f0 = found@;
        match listed_plugin_exec(&ls[i]) {
            Some(p) => {
                found.push(p);
                assert(plugins_view(found@) =~= plugins_view(f0).push(plugin_view(p)));
            },
            None => {},
        }
        assert(plugins_view(found@) =~= listed_plugins(lv.take(i + 1)));
        i += 1;
    }
    assert(lv.take(ls.len() as int) =~= lv);
    found
}


// ---------------------------------------------------------------------------
// The inventory
// ---------------------------------------------------------------------------

/// The first layer with role `user` among `layers`, if any.
pub open spec fn first_user_layer(layers: Seq<Json>) -> Option<Json>
    decreases layers.len(),
{
    if layers.len() == 0 {
        None
    } else if str_at(layers[0], "role"@) == Some("user"@) {
        Some(layers[0])
    } else {
        first_user_layer(layers.drop_first())
    }
}

/// The path of the user's configuration layer in `grok inspect`'s
/// `configSources.layers`, if the first user layer gives one.
pub open spec fn user_config_path(inspect: Json) -> Option<Seq<char>> {
    match get_spec(inspect, "configSources"@) {
        Some(sources) => match array_at(sources, "layers"@) {
            Some(layers) => match first_user_layer(layers) {
                Some(layer) => str_at(layer, "path"@),
                None => None,
            },
            None => None,
        },
        None => None,
    }
}

/// The user configuration path reported by `grok inspect` (see `user_config_path`).
pub fn user_config_path_from_inspect(inspect: &Json) -> (r: Option<String>)
    ensures
        crate::session::opt_view(r) == user_config_path(*inspect),
{
    let sources = match inspect.get("configSources") {
        Some(s) => s,
        None => {
            return None;
        },
    };
    let layers = match sources.array_at("layers") {
        Some(l) => l,
        None => {
            return None;
        },
    };
    let mut i: usize = 0;
    assert(layers@.skip(0) =~= layers@);
    while i < layers.len()
        invariant
            i <= layers.len(),
            get_spec(*inspect, "configSources"@) == Some(*sources),
            array_at(*sources, "layers"@) == Some(layers@),
            first_user_layer(layers@) == first_user_layer(layers@.skip(i as int)),
        decreases layers.len() - i,
    {
        assert(layers@.skip(i as int)[0] == layers@[i as int]);
        let role = layers[i].str_at("role");
        let is_user = match role {
            Some(r) => str_is(r, "user"),
            None => false,
        };
        if is_user {
            assert(str_at(layers@[i as int], "role"@) == Some("user"@));
            assert(str_at(layers@.skip(i as int)[0], "role"@) == Some("user"@));
            assert(first_user_layer(layers@.skip(i as int)) == Some(layers@[i as int]));
            return match layers[i].str_at("path") {
                Some(p) => Some(text(p)),
                None => None,
            };
        }
        assert(layers@.skip(i as int).drop_first() =~= layers@.skip(i + 1));
        i += 1;
    }
    assert(layers@.skip(layers.len() as int) =~= Seq::<Json>::empty());
    None
}

/// The sorting keys of servers: their names.
pub open spec fn server_keys(ss: Seq<ServerView>) -> Seq<Seq<i128>> {
    ss.map_values(|s: ServerView| crate::sort::text_key(s.0))
}

/// The servers found from the configuration document `doc` (read from
/// `config_path`), then `grok inspect`, then `grok mcp doctor`, before sorting.
pub open spec fn gathered_servers(
    doc: Json,
    config_path: Seq<char>,
    inspect: Option<Json>,
    doctor: Option<Json>,
) -> Seq<ServerView> {
    let from_config = config_fold(Seq::empty(), config_entries(doc), config_path);
    let from_inspect = match inspect {
        Some(i) => inspect_fold(from_config, items_at(i, "mcpServers"@)),
        None => from_config,
    };
    match doctor {
        Some(d) => doctor_fold(from_inspect, items_at(d, "servers"@)),
        None => from_inspect,
    }
}

fn sort_servers(ss: Vec<McpServerInfo>) -> (r: Vec<McpServerInfo>)
    ensures
        crate::sort::stably_sorted(servers_view(ss@), server_keys(servers_view(ss@)), servers_view(r@)),
{
    let ghost orig = ss@;
    let mut keys: Vec<Vec<i128>> = Vec::new();
    let mut i: usize = 0;
    while i < ss.len()
        invariant
            i <= ss.len(),
            keys@.len() == i,
            forall|j: int| 0 <= j < i ==> #[trigger] keys@[j]@ == crate::sort::text_key(ss@[j].name@),
        decreases ss.len() - i,
    {
        let k = crate::sort::text_key_exec(ss[i].name.as_str());
        keys.push(k);
        i += 1;
    }
    assert(keys@.map_values(|k: Vec<i128>| k@) =~= server_keys(servers_view(orig)));
    let r = crate::sort::stable_sort(ss, keys);
    proof {
        crate::sort::lemma_sorted_map(orig, server_keys(servers_view(orig)), r@, |s: McpServerInfo| server_view(s));
        assert(orig.map_values(|s: McpServerInfo| server_view(s)) =~= servers_view(orig));
        assert(r@.map_values(|s: McpServerInfo| server_view(s)) =~= servers_view(r@));
    }
    r
}

/// The servers and plugins Grok can use. The servers are those of the
/// configuration document read from `config_path`, of `grok inspect` and of
/// `grok mcp doctor` (see `gathered_servers`), ordered by name; the
/// configuration path shown is the user layer's from `grok inspect`, if it
/// names one; the plugins are `grok inspect`'s when it answered, else those
/// of the `grok plugin list` output, if any.
pub fn inventory(
    config_doc: &Json,
    config_path: &str,
    inspect: Option<&Json>,
    doctor: Option<&Json>,
    plugin_list: Option<&str>,
) -> (r: Result<GrokInventory, String>)
    ensures
        r matches Ok(inv) && {
            let gathered = gathered_servers(
                *config_doc,
                config_path@,
                match inspect {
                    Some(i) => Some(*i),
                    None => None,
                },
                match doctor {
                    Some(d) => Some(*d),
                    None => None,
                },
            );
            &&& crate::sort::stably_sorted(gathered, server_keys(gathered), servers_view(inv.mcp_servers@))
            &&& inv.config_path@ == match inspect {
                Some(i) => match user_config_path(*i) {
                    Some(p) => p,
                    None => config_path@,
                },
                None => config_path@,
            }
            &&& match inspect {
                Some(i) => crate::sort::stably_sorted(
                    plugins_in(items_at(*i, "plugins"@)),
                    plugin_keys(plugins_in(items_at(*i, "plugins"@))),
                    plugins_view(inv.plugins@),
                ),
                None => plugins_view(inv.plugins@) == match plugin_list {
                    Some(t) => if has_sub(ascii_lower_seq(t@), "no plugins installed"@) {
                        Seq::<PluginView>::empty()
                    } else {
                        listed_plugins(crate::text::lines(t@))
                    },
                    None => Seq::<PluginView>::empty(),
                },
            }
        },
{
    let mut servers: Vec<McpServerInfo> = Vec::new();
    assert(servers_view(servers@) =~= Seq::<ServerView>::empty());
    add_config_mcp_servers(&mut servers, config_doc, config_path);
    let mut label = text(config_path);
    match inspect {
        Some(i) => {
            match user_config_path_from_inspect(i) {
                Some(p) => {
                    label = p;
                },
                None => {},
            }
            add_inspect_mcp_servers(&mut servers, i);
        },
        None => {},
    }
    match doctor {
        Some(d) => add_doctor_mcp_servers(&mut servers, d),
        None => {},
    }
    let sorted = sort_servers(servers);
    let plugins = match inspect {
        Some(i) => plugins_from_inspect(i),
        None => match plugin_list {
            Some(t) => list_plugins(t),
            None => {
                let none: Vec<PluginInfo> = Vec::new();
                assert(plugins_view(none@) =~= Seq::<PluginView>::empty());
                none
            },
        },
    };
    Ok(GrokInventory { mcp_servers: sorted, plugins, config_path: label })
}

// ---------------------------------------------------------------------------
// Toggling servers and plugins
// ---------------------------------------------------------------------------

/// Refuses an MCP server name that is blank or holds a line break or bracket.
pub fn check_mcp_name(name: &str) -> (r: Result<(), String>)
    ensures
        r is Ok <==> (trim_ws(name@).len() > 0 && !name@.contains('\n') && !name@.contains('\r')
            && !name@.contains('[') && !name@.contains(']')),
        r matches Err(e) ==> e@ == "Invalid MCP server name"@,
{
    let v = chars_of(name);
    let t = crate::text::trim(&v);
    if t.len() == 0 || crate::text::has_char(&v, '\n') || crate::text::has_char(&v, '\r')
        || crate::text::has_char(&v, '[') || crate::text::has_char(&v, ']') {
        return Err(String::from_str("Invalid MCP server name"));
    }
    Ok(())
}

/// The configuration document has a server table named `name`.
pub open spec fn has_server_table(doc: Json, name: Seq<char>) -> bool {
    match get_spec(doc, "mcp_servers"@) {
        Some(Json::Object(es)) => match crate::json::field(es@, name) {
            Some(Json::Object(_)) => true,
            _ => false,
        },
        _ => false,
    }
}

/// Whether the configuration document has a server table named `name` to
/// toggle; the error names the missing server.
pub fn find_config_server(doc: &Json, name: &str) -> (r: Result<(), String>)
    ensures
        r is Ok <==> has_server_table(*doc, name@),
        r matches Err(e) ==> e@ == "MCP server not found: "@ + name@,
{
    match doc.get("mcp_servers") {
        Some(servers) => match servers {
            Json::Object(_) => match servers.get(name) {
                Some(Json::Object(_)) => {
                    return Ok(());
                },
                _ => {},
            },
            _ => {},
        },
        None => {},
    }
    Err(crate::text::join2("MCP server not found: ", name))
}

/// The JSON that a Grok command printed (`inspect --json`, `mcp doctor
/// --json`), or none when its output is not JSON.
pub fn grok_json_output(stdout: &[u8]) -> (r: Option<Json>)
    ensures
        r == crate::json::json_ok(stdout@),
{
    match crate::json::parse_json(stdout) {
        Ok(j) => Some(j),
        Err(_) => None,
    }
}

/// The configuration text after turning the MCP server `name` on or off in
/// `raw`: its parse error (as `parse Grok config: ...`), the error of
/// `find_config_server` when it has no such server table, else the text with
/// `mcp_servers.<name>.enabled` set.
pub fn mcp_enabled_text(raw: &str, name: &str, enabled: bool) -> (r: Result<String, String>)
    ensures
        match crate::toml_doc::toml_tree(raw@) {
            Err(e) => r matches Err(m) && m@ == "parse Grok config: "@ + e,
            Ok(t) => if has_server_table(t, name@) {
                r matches Ok(text) && text@ == crate::toml_doc::toml_with_bools(
                    raw@,
                    seq![(seq!["mcp_servers"@, name@, "enabled"@], enabled)],
                )
            } else {
                r matches Err(m) && m@ == "MCP server not found: "@ + name@
            },
        },
{
    let doc = match crate::toml_doc::parse_toml(raw) {
        Ok(t) => t,
        Err(e) => {
            return Err(crate::text::join2("parse Grok config: ", e.as_str()));
        },
    };
    find_config_server(&doc, name)?;
    let mut path: Vec<String> = Vec::new();
    assert(crate::text::str_views(path@) =~= Seq::<Seq<char>>::empty());
    crate::text::push_str(&mut path, "mcp_servers");
    crate::text::push_str(&mut path, name);
    crate::text::push_str(&mut path, "enabled");
    let ghost keys = crate::text::str_views(path@);
    assert(keys =~= seq!["mcp_servers"@, name@, "enabled"@]);
    let mut edits: Vec<(Vec<String>, bool)> = Vec::new();
    edits.push((path, enabled));
    let ghost ev = crate::toml_doc::edits_view(edits@);
    assert(ev =~= seq![(keys, enabled)]);
    proof {
        assert(keys.take(1) =~= seq!["mcp_servers"@]);
        assert(keys.take(2) =~= seq!["mcp_servers"@, name@]);
        assert(seq!["mcp_servers"@].drop_first() =~= Seq::<Seq<char>>::empty());
        assert(seq!["mcp_servers"@, name@].drop_first() =~= seq![name@]);
        assert(seq![name@].drop_first() =~= Seq::<Seq<char>>::empty());
        reveal_with_fuel(crate::json::pointer_spec, 3);
        assert forall|i: int, k: int| 0 <= i < ev.len() && 1 <= k < ev[i].0.len() implies
            #[trigger] crate::toml_doc::indexable(crate::json::pointer_spec(doc, ev[i].0.take(k))) by {
            assert(i == 0);
            assert(ev[i].0 == keys);
        }
    }
    Ok(crate::toml_doc::set_toml_bools(raw, &edits))
}

/// Refuses a plugin name that is blank or holds a line break.
pub fn check_plugin_name(name: &str) -> (r: Result<(), String>)
    ensures
        r is Ok <==> (trim_ws(name@).len() > 0 && !name@.contains('\n') && !name@.contains('\r')),
        r matches Err(e) ==> e@ == "Invalid plugin name"@,
{
    let v = chars_of(name);
    let t = crate::text::trim(&v);
    if t.len() == 0 || crate::text::has_char(&v, '\n') || crate::text::has_char(&v, '\r') {
        return Err(String::from_str("Invalid plugin name"));
    }
    Ok(())
}

/// The `grok plugin` action that turns a plugin on or off.
pub fn plugin_action(enabled: bool) -> (r: &'static str)
    ensures
        r@ == (if enabled {
            "enable"@
        } else {
            "disable"@
        }),
{
    if enabled {
        "enable"
    } else {
        "disable"
    }
}

} // verus!
