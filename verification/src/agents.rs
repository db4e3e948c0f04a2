//! Named Grok agents: which definitions are offered, how a new definition is
//! written, and how a background agent run is started and reported.
//!
//! Running the CLI, reading folders and writing files is left to the caller.

use vstd::prelude::*;
use crate::config::AppSettings;
use crate::json::{array_at, get_spec, str_at, Json};
use crate::session::{flag_if, value_args, push_arg_value};
use crate::text::{
    append, append_str, ascii_lower_seq, chars_of, is_ascii_alnum, lines, push_str, str_views,
    string_of, trim_ws,
};

verus! {

/// Longest task accepted for an agent run, in bytes.
pub const MAX_AGENT_PROMPT_CHARS: usize = 400000;

/// Longest instructions accepted for a new agent, in bytes.
pub const MAX_AGENT_TEXT_CHARS: usize = 100000;

/// Most agent runs at once.
pub const MAX_CONCURRENT_AGENT_RUNS: usize = 8;

/// An agent Grok can run.
pub struct AgentDefinition {
    pub name: String,
    pub description: String,
    pub source: String,
}

/// What the interface is told about a started run.
pub struct AgentRunStarted {
    pub id: String,
    pub agent: String,
    pub prompt: String,
    pub cwd: String,
    pub started_at: String,
}

/// A request to start an agent run.
pub struct StartAgentRunRequest {
    pub cwd: String,
    pub agent: String,
    pub prompt: String,
    pub model: String,
    pub yolo: bool,
}

/// A usable agent name: 1 to 64 ASCII letters, digits, `-` or `_`.
pub open spec fn agent_name_ok(name: Seq<char>) -> bool {
    &&& 0 < name.len() <= 64
    &&& forall|i: int|
        0 <= i < name.len() ==> is_ascii_alnum(#[trigger] name[i]) || name[i] == '-' || name[i]
            == '_'
}

/// Whether `name` is a usable agent name (see `agent_name_ok`; such a name
/// is ASCII, so its length in characters is its length in bytes).
pub fn valid_agent_name(name: &str) -> (r: bool)
    ensures
        r == agent_name_ok(name@),
{
    let v = chars_of(name);
    if v.len() == 0 || v.len() > 64 {
        return false;
    }
    let mut i: usize = 0;
    while i < v.len()
        invariant
            i <= v.len(),
            v@ == name@,
            forall|k: int|
                0 <= k < i ==> is_ascii_alnum(#[trigger] v@[k]) || v@[k] == '-' || v@[k] == '_',
        decreases v.len() - i,
    {
        let c = v[i];
        if !(crate::text::ascii_alnum(c) || c == '-' || c == '_') {
            return false;
        }
        i += 1;
    }
    true
}

/// Where an agent definition comes from: `{type} · {path}`, `plugin · {name}`,
/// or its type (`unknown` when missing or when there is no origin).
pub open spec fn agent_source(source: Option<Json>) -> Seq<char> {
    match source {
        None => "unknown"@,
        Some(s) => {
            let kind = match str_at(s, "type"@) {
                Some(k) => k,
                None => "unknown"@,
            };
            match str_at(s, "path"@) {
                Some(p) => kind + " \u{b7} "@ + p,
                None => match str_at(s, "plugin_name"@) {
                    Some(n) => "plugin \u{b7} "@ + n,
                    None => kind,
                },
            }
        },
    }
}

/// The origin of an agent definition (see `agent_source`).
pub fn source_label(source: Option<&Json>) -> (r: String)
    ensures
        r@ == agent_source(
            match source {
                Some(s) => Some(*s),
                None => None,
            },
        ),
{
    let s = match source {
        None => {
            return String::from_str("unknown");
        },
        Some(s) => s,
    };
    let kind = match s.str_at("type") {
        Some(k) => k,
        None => "unknown",
    };
    match s.str_at("path") {
        Some(p) => crate::text::join3(kind, " \u{b7} ", p),
        None => match s.str_at("plugin_name") {
            Some(n) => crate::text::join2("plugin \u{b7} ", n),
            None => String::from_str(kind),
        },
    }
}

/// A definition as name, description, origin.
pub type DefinitionView = (Seq<char>, Seq<char>, Seq<char>);

/// The tuple of a definition's fields.
pub open spec fn definition_view(d: AgentDefinition) -> DefinitionView {
    (d.name@, d.description@, d.source@)
}

/// The tuples of a list of definitions.
pub open spec fn definitions_view(ds: Seq<AgentDefinition>) -> Seq<DefinitionView> {
    ds.map_values(|d: AgentDefinition| definition_view(d))
}

/// The definition an item of `grok inspect`'s `agents` gives, when it has a
/// usable name; its description defaults to `Named Grok agent`.
pub open spec fn definition_of(item: Json) -> Option<DefinitionView> {
    match str_at(item, "name"@) {
        Some(name) if agent_name_ok(name) => Some(
            (
                name,
                match str_at(item, "description"@) {
                    Some(d) => d,
                    None => "Named Grok agent"@,
                },
                agent_source(get_spec(item, "source"@)),
            ),
        ),
        _ => None,
    }
}

/// The definitions given by `items`, in order.
pub open spec fn definitions_in(items: Seq<Json>) -> Seq<DefinitionView>
    decreases items.len(),
{
    if items.len() == 0 {
        Seq::empty()
    } else {
        definitions_in(items.drop_last()) + match definition_of(items.last()) {
            Some(d) => seq![d],
            None => Seq::empty(),
        }
    }
}

/// `ds` without the later members of each run of equal names.
pub open spec fn dedup_names(ds: Seq<DefinitionView>) -> Seq<DefinitionView>
    decreases ds.len(),
{
    if ds.len() == 0 {
        ds
    } else {
        let d = dedup_names(ds.drop_last());
        if d.len() > 0 && d.last().0 == ds.last().0 {
            d
        } else {
            d.push(ds.last())
        }
    }
}

/// The sorting keys of definitions: their names.
pub open spec fn definition_keys(ds: Seq<DefinitionView>) -> Seq<Seq<i128>> {
    ds.map_values(|d: DefinitionView| crate::sort::text_key(d.0))
}

fn definition_of_exec(item: &Json) -> (r: Option<AgentDefinition>)
    ensures
        match r {
            Some(d) => definition_of(*item) == Some(definition_view(d)),
            None => definition_of(*item) is None,
        },
{
    let name = match item.str_at("name") {
        Some(n) => n,
        None => {
            return None;
        },
    };
    if !valid_agent_name(name) {
        return None;
    }
    let description = match item.str_at("description") {
        Some(d) => String::from_str(d),
        None => String::from_str("Named Grok agent"),
    };
    let source = source_label(item.get("source"));
    Some(AgentDefinition { name: String::from_str(name), description, source })
}

/// `listed` is the agents offered by the inspect reply `inspect` (see
/// `list_definitions`).
pub open spec fn definitions_listed(inspect: Json, listed: Seq<DefinitionView>) -> bool {
        exists|sorted: Seq<DefinitionView>|
            crate::sort::stably_sorted(
                definitions_in(
                    match array_at(inspect, "agents"@) {
                        Some(a) => a,
                        None => Seq::empty(),
                    },
                ),
                definition_keys(
                    definitions_in(
                        match array_at(inspect, "agents"@) {
                            Some(a) => a,
                            None => Seq::empty(),
                        },
                    ),
                ),
                sorted,
            ) && listed == dedup_names(sorted)
}

/// The agents offered by `grok inspect --json`: the items of its `agents` with
/// a usable name, ordered by name, keeping the first of each name.
pub fn list_definitions(inspect: &Json) -> (r: Vec<AgentDefinition>)
    ensures
        definitions_listed(*inspect, definitions_view(r@)),
{
    let ghost items = match array_at(*inspect, "agents"@) {
        Some(a) => a,
        None => Seq::<Json>::empty(),
    };
    let mut found: Vec<AgentDefinition> = Vec::new();
    match inspect.array_at("agents") {
        Some(a) => {
            let mut i: usize = 0;
            while i < a.len()
                invariant
                    i <= a.len(),
                    definitions_view(found@) == definitions_in(a@.take(i as int)),
                decreases a.len() - i,
            {
                assert(a@.take(i + 1).drop_last() =~= a@.take(i as int));
                assert(a@.take(i + 1).last() == a@[i as int]);
                let ghost before = found@;
                match definition_of_exec(&a[i]) {
                    Some(d) => {
                        found.push(d);
                        assert(definitions_view(found@) =~= definitions_view(before).push(
                            definition_view(d),
                        ));
                    },
                    None => {},
                }
                assert(definitions_view(found@) =~= definitions_in(a@.take(i + 1)));
                i += 1;
            }
            assert(a@.take(a.len() as int) =~= a@);
        },
        None => {
            assert(definitions_view(found@) =~= Seq::<DefinitionView>::empty());
        },
    }
    let ghost orig = found@;
    let mut keys: Vec<Vec<i128>> = Vec::new();
    let mut i: usize = 0;
    while i < found.len()
        invariant
            i <= found.len(),
            keys@.len() == i,
            forall|j: int| 0 <= j < i ==> #[trigger] keys@[j]@ == crate::sort::text_key(found@[j].name@),
        decreases found.len() - i,
    {
        let k = crate::sort::text_key_exec(found[i].name.as_str());
        keys.push(k);
        i += 1;
    }
    assert(keys@.map_values(|k: Vec<i128>| k@) =~= definition_keys(definitions_view(orig)));
    let sorted = crate::sort::stable_sort(found, keys);
    proof {
        crate::sort::lemma_sorted_map(
            orig,
            definition_keys(definitions_view(orig)),
            sorted@,
            |d: AgentDefinition| definition_view(d),
        );
        assert(orig.map_values(|d: AgentDefinition| definition_view(d)) =~= definitions_view(orig));
        assert(sorted@.map_values(|d: AgentDefinition| definition_view(d)) =~= definitions_view(
            sorted@,
        ));
    }
    let ghost sv = definitions_view(sorted@);
    let mut out: Vec<AgentDefinition> = Vec::new();
    let mut rest = sorted;
    let n = rest.len();
    let mut k: usize = 0;
    while k < n
        invariant
            n == sv.len(),
            k <= n,
            definitions_view(rest@) == sv.subrange(k as int, n as int),
            definitions_view(out@) == dedup_names(sv.take(k as int)),
        decreases n - k,
    {
        let ghost r0 = rest@;
        assert(definitions_view(r0).len() == r0.len());
        assert(definitions_view(r0)[0] == sv[k as int]);
        let d = rest.remove(0);
        assert(d == r0[0]);
        assert(definition_view(d) == sv[k as int]);
        assert(sv.take(k + 1).drop_last() =~= sv.take(k as int));
        assert(sv.take(k + 1).last() == sv[k as int]);
        let ghost before = out@;
        let duplicate = out.len() > 0 && {
            let last = chars_of(out[out.len() - 1].name.as_str());
            crate::text::eq_str(&last, d.name.as_str())
        };
        if !duplicate {
            out.push(d);
            assert(definitions_view(out@) =~= definitions_view(before).push(sv[k as int]));
        }
        assert(definitions_view(out@) =~= dedup_names(sv.take(k + 1)));
        assert(rest@ =~= r0.subrange(1, r0.len() as int));
        assert forall|j: int| 0 <= j < rest@.len() implies #[trigger] definitions_view(rest@)[j]
            == sv.subrange(k + 1, n as int)[j] by {
            assert(definitions_view(rest@)[j] == definition_view(r0[j + 1]));
            assert(definitions_view(r0)[j + 1] == definition_view(r0[j + 1]));
        }
        assert(definitions_view(rest@) =~= sv.subrange(k + 1, n as int));
        k += 1;
    }
    assert(sv.take(n as int) =~= sv);
    out
}

/// Reads the output of `grok inspect --json`: the error of output that is not
/// JSON (`Could not parse Grok agent inventory: ...`), else the agents it
/// offers (see `list_definitions`).
pub fn definitions_from_inspect(stdout: &[u8]) -> (r: Result<Vec<AgentDefinition>, String>)
    ensures
        match crate::json::json_tree(stdout@) {
            Err(e) => r matches Err(m) && m@ == "Could not parse Grok agent inventory: "@ + e,
            Ok(j) => r matches Ok(v) && definitions_listed(j, definitions_view(v@)),
        },
{
    match crate::json::parse_json(stdout) {
        Ok(j) => Ok(list_definitions(&j)),
        Err(e) => Err(crate::text::join2("Could not parse Grok agent inventory: ", e.as_str())),
    }
}


// ---------------------------------------------------------------------------
// New definitions
// ---------------------------------------------------------------------------

/// Where a new agent definition is saved.
pub enum AgentScope {
    /// Under the project's `.grok/agents`.
    Project,
    /// Under the user's `.grok/agents`.
    User,
}

/// A checked new agent definition: its name, where it goes, its file name and
/// its text.
pub struct AgentDraft {
    pub name: String,
    pub scope: AgentScope,
    pub file_name: String,
    pub content: String,
}

/// The description's lines, each trimmed and indented by two spaces, joined
/// with line feeds (a YAML folded block).
pub open spec fn folded_lines(ls: Seq<Seq<char>>) -> Seq<char>
    decreases ls.len(),
{
    if ls.len() == 0 {
        Seq::empty()
    } else if ls.len() == 1 {
        "  "@ + trim_ws(ls[0])
    } else {
        folded_lines(ls.drop_last()) + "\n"@ + "  "@ + trim_ws(ls.last())
    }
}

/// The text of a definition file.
pub open spec fn definition_text(name: Seq<char>, description: Seq<char>, instructions: Seq<char>) -> Seq<
    char,
> {
    "---\nname: "@ + name + "\ndescription: >\n"@ + folded_lines(lines(description))
        + "\nprompt_mode: full\nmodel: inherit\npermission_mode: default\nagents_md: true\n---\n\n"@
        + instructions + "\n"@
}

/// The error for a new definition, if any, checked on the trimmed,
/// lower-cased name and the trimmed texts, in this order: the name, the two
/// texts being present, their sizes (2000 and 100000 bytes), the scope.
pub open spec fn draft_error(
    name: Seq<char>,
    scope: Seq<char>,
    description: Seq<char>,
    instructions: Seq<char>,
) -> Option<Seq<char>> {
    let n = ascii_lower_seq(trim_ws(name));
    let d = trim_ws(description);
    let i = trim_ws(instructions);
    if !agent_name_ok(n) {
        Some("Agent names may contain only letters, numbers, hyphens, and underscores"@)
    } else if d.len() == 0 || i.len() == 0 {
        Some("Description and instructions are required"@)
    } else if vstd::utf8::encode_utf8(d).len() > 2000 || vstd::utf8::encode_utf8(i).len() > 100000 {
        Some("Agent definition is too large"@)
    } else if scope != "project"@ && scope != "user"@ {
        Some("Agent scope must be project or user"@)
    } else {
        None
    }
}

fn folded_exec(description: &Vec<char>) -> (r: Vec<char>)
    ensures
        r@ == folded_lines(lines(description@)),
{
    let ls = crate::text::split_lines(description);
    let ghost lv = crate::text::views(ls@);
    let mut out: Vec<char> = Vec::new();
    let mut i: usize = 0;
    while i < ls.len()
        invariant
            i <= ls.len(),
            lv == crate::text::views(ls@),
            lv == lines(description@),
            out@ == folded_lines(lv.take(i as int)),
        decreases ls.len() - i,
    {
        assert(lv.take(i + 1).drop_last() =~= lv.take(i as int));
        assert(lv.take(i + 1).last() == ls@[i as int]@);
        if i > 0 {
            append_str(&mut out, "\n");
        }
        append_str(&mut out, "  ");
        let t = crate::text::trim(&ls[i]);
        append(&mut out, &t);
        i += 1;
    }
    assert(lv.take(ls.len() as int) =~= lv);
    out
}

/// Checks a new agent definition and writes its file text (see `draft_error`
/// and `definition_text`); the file is named after the agent.
pub fn create_definition(scope: &str, name: &str, description: &str, instructions: &str) -> (r:
    Result<AgentDraft, String>)
    ensures
        match draft_error(name@, scope@, description@, instructions@) {
            Some(e) => r matches Err(x) && x@ == e,
            None => r matches Ok(d) && {
                &&& d.name@ == ascii_lower_seq(trim_ws(name@))
                &&& (d.scope is Project <==> scope@ == "project"@)
                &&& d.file_name@ == d.name@ + ".md"@
                &&& d.content@ == definition_text(
                    d.name@,
                    trim_ws(description@),
                    trim_ws(instructions@),
                )
            },
        },
{
    let nv = chars_of(name);
    let nt = crate::text::trim(&nv);
    let lower = crate::text::to_ascii_lower(&nt);
    let lname = string_of(&lower);
    if !valid_agent_name(lname.as_str()) {
        return Err(String::from_str("Agent names may contain only letters, numbers, hyphens, and underscores"));
    }
    let dv = chars_of(description);
    let d = crate::text::trim(&dv);
    let iv = chars_of(instructions);
    let ins = crate::text::trim(&iv);
    if d.len() == 0 || ins.len() == 0 {
        return Err(String::from_str("Description and instructions are required"));
    }
    let ds = string_of(&d);
    let is = string_of(&ins);
    if crate::text::byte_len(ds.as_str()) > 2000 || crate::text::byte_len(is.as_str()) > MAX_AGENT_TEXT_CHARS {
        return Err(String::from_str("Agent definition is too large"));
    }
    let scope_v = if crate::text::str_is(scope, "project") {
        AgentScope::Project
    } else if crate::text::str_is(scope, "user") {
        AgentScope::User
    } else {
        return Err(String::from_str("Agent scope must be project or user"));
    };
    proof {
        reveal_strlit("project");
        reveal_strlit("user");
        assert("project"@ != "user"@) by {
            assert("project"@.len() != "user"@.len());
        }
    }
    let mut content = chars_of("---\nname: ");
    append(&mut content, &lower);
    append_str(&mut content, "\ndescription: >\n");
    let folded = folded_exec(&d);
    append(&mut content, &folded);
    append_str(
        &mut content,
        "\nprompt_mode: full\nmodel: inherit\npermission_mode: default\nagents_md: true\n---\n\n",
    );
    append(&mut content, &ins);
    append_str(&mut content, "\n");
    let file_name = crate::text::join2(lname.as_str(), ".md");
    Ok(AgentDraft { name: lname, scope: scope_v, file_name, content: string_of(&content) })
}

/// The error for an existing file of the same name.
pub fn duplicate_agent_error(name: &str) -> (r: String)
    ensures
        r@ == "An agent named '"@ + name@ + "' already exists in this scope"@,
{
    crate::text::join3("An agent named '", name, "' already exists in this scope")
}

// ---------------------------------------------------------------------------
// Runs
// ---------------------------------------------------------------------------

/// Refuses a blank task, one over the size limit, and a run beyond the number
/// allowed at once.
pub fn check_run_request(prompt: &str, active_runs: usize) -> (r: Result<(), String>)
    ensures
        (trim_ws(prompt@).len() == 0 || vstd::utf8::encode_utf8(prompt@).len() > 400000) ==> (r matches Err(
            e,
        ) && e@ == "Enter an agent task (maximum 400,000 characters)"@),
        !(trim_ws(prompt@).len() == 0 || vstd::utf8::encode_utf8(prompt@).len() > 400000)
            && active_runs >= 8 ==> (r matches Err(e) && e@ == "Up to 8 agents can run at once"@),
        r is Ok <==> (!(trim_ws(prompt@).len() == 0 || vstd::utf8::encode_utf8(prompt@).len()
            > 400000) && active_runs < 8),
{
    let v = chars_of(prompt);
    let t = crate::text::trim(&v);
    if t.len() == 0 || crate::text::byte_len(prompt) > MAX_AGENT_PROMPT_CHARS {
        return Err(String::from_str("Enter an agent task (maximum 400,000 characters)"));
    }
    if active_runs >= MAX_CONCURRENT_AGENT_RUNS {
        return Err(String::from_str("Up to 8 agents can run at once"));
    }
    Ok(())
}

/// Refuses a named agent with an unusable name (no name means the default agent).
pub fn check_agent_name(agent: &str) -> (r: Result<(), String>)
    ensures
        r is Ok <==> (agent@.len() == 0 || agent_name_ok(agent@)),
        r matches Err(e) ==> e@ == "Invalid agent name"@,
{
    let v = chars_of(agent);
    if v.len() > 0 && !valid_agent_name(agent) {
        return Err(String::from_str("Invalid agent name"));
    }
    Ok(())
}

/// Refuses a named agent that Grok did not list.
pub fn check_agent_known(agent: &str, known: &Vec<AgentDefinition>) -> (r: Result<(), String>)
    ensures
        r is Ok <==> exists|i: int| 0 <= i < known@.len() && (#[trigger] known@[i]).name@ == agent@,
        r matches Err(e) ==> e@ == "Grok did not discover an agent named '"@ + agent@ + "'"@,
{
    let mut i: usize = 0;
    while i < known.len()
        invariant
            i <= known.len(),
            forall|j: int| 0 <= j < i ==> (#[trigger] known@[j]).name@ != agent@,
        decreases known.len() - i,
    {
        let n = chars_of(known[i].name.as_str());
        if crate::text::eq_str(&n, agent) {
            return Ok(());
        }
        i += 1;
    }
    Err(crate::text::join3("Grok did not discover an agent named '", agent, "'"))
}

/// The head of an agent run's command line: the task, model, folder, plain
/// output and the run's session id.
pub open spec fn run_head(prompt: Seq<char>, model: Seq<char>, cwd: Seq<char>, id: Seq<char>) -> Seq<
    Seq<char>,
> {
    seq!["-p"@, prompt, "-m"@, model, "--cwd"@, cwd, "--output-format"@, "plain"@, "--session-id"@, id]
}

/// The approval switches of an agent run: `--always-approve` in YOLO mode,
/// else a non-default permission mode.
pub open spec fn approval_args(yolo: bool, s: AppSettings) -> Seq<Seq<char>> {
    if yolo {
        seq!["--always-approve"@]
    } else if s.permission_mode@ != "default"@ {
        seq!["--permission-mode"@, s.permission_mode@]
    } else {
        Seq::empty()
    }
}

/// The plan, web search, sub-agent and memory switches of an agent run.
pub open spec fn switch_args(s: AppSettings) -> Seq<Seq<char>> {
    flag_if(!s.plan_mode, "--no-plan"@) + flag_if(s.disable_web_search, "--disable-web-search"@)
        + flag_if(!s.subagents_enabled, "--no-subagents"@) + (if s.memory_enabled {
        seq!["--experimental-memory"@]
    } else {
        seq!["--no-memory"@]
    })
}

/// The command line of an agent run: its head (see `run_head`), the agent
/// when one is named, the reasoning effort, the approval switches and the
/// other switches.
pub open spec fn run_args(
    prompt: Seq<char>,
    model: Seq<char>,
    cwd: Seq<char>,
    id: Seq<char>,
    agent: Seq<char>,
    yolo: bool,
    s: AppSettings,
) -> Seq<Seq<char>> {
    run_head(prompt, model, cwd, id) + (if agent.len() > 0 {
        seq!["--agent"@, agent]
    } else {
        Seq::empty()
    }) + value_args("--reasoning-effort"@, s.reasoning_effort@) + approval_args(yolo, s)
        + switch_args(s)
}

fn push_if(args: &mut Vec<String>, on: bool, flag: &str)
    ensures
        str_views(final(args)@) == str_views(old(args)@) + flag_if(on, flag@),
{
    let ghost a0 = str_views(args@);
    if on {
        push_str(args, flag);
    }
    assert(str_views(args@) =~= a0 + flag_if(on, flag@));
}

fn push_run_head(args: &mut Vec<String>, prompt: &str, model: &str, cwd: &str, id: &str)
    ensures
        str_views(final(args)@) == str_views(old(args)@) + run_head(prompt@, model@, cwd@, id@),
{
    let ghost a0 = str_views(args@);
    push_str(args, "-p");
    push_str(args, prompt);
    push_str(args, "-m");
    push_str(args, model);
    push_str(args, "--cwd");
    push_str(args, cwd);
    push_str(args, "--output-format");
    push_str(args, "plain");
    push_str(args, "--session-id");
    push_str(args, id);
    assert(str_views(args@) =~= a0 + run_head(prompt@, model@, cwd@, id@));
}

fn push_approval(args: &mut Vec<String>, yolo: bool, settings: &AppSettings)
    ensures
        str_views(final(args)@) == str_views(old(args)@) + approval_args(yolo, *settings),
{
    let ghost a0 = str_views(args@);
    let mv = chars_of(settings.permission_mode.as_str());
    if yolo {
        push_str(args, "--always-approve");
    } else if !crate::text::eq_str(&mv, "default") {
        push_str(args, "--permission-mode");
        push_str(args, settings.permission_mode.as_str());
    }
    assert(str_views(args@) =~= a0 + approval_args(yolo, *settings));
}

fn push_switches(args: &mut Vec<String>, settings: &AppSettings)
    ensures
        str_views(final(args)@) == str_views(old(args)@) + switch_args(*settings),
{
    let ghost a0 = str_views(args@);
    push_if(args, !settings.plan_mode, "--no-plan");
    push_if(args, settings.disable_web_search, "--disable-web-search");
    push_if(args, !settings.subagents_enabled, "--no-subagents");
    let ghost a1 = str_views(args@);
    if settings.memory_enabled {
        push_str(args, "--experimental-memory");
    } else {
        push_str(args, "--no-memory");
    }
    assert(str_views(args@) =~= a0 + switch_args(*settings));
}

/// The command line of an agent run (see `run_args`).
pub fn agent_run_args(
    prompt: &str,
    model: &str,
    cwd: &str,
    id: &str,
    agent: &str,
    yolo: bool,
    settings: &AppSettings,
) -> (r: Vec<String>)
    ensures
        str_views(r@) == run_args(prompt@, model@, cwd@, id@, agent@, yolo, *settings),
{
    let mut args: Vec<String> = Vec::new();
    push_run_head(&mut args, prompt, model, cwd, id);
    let ghost g0 = str_views(args@);
    let av = chars_of(agent);
    if av.len() > 0 {
        push_str(&mut args, "--agent");
        push_str(&mut args, agent);
    }
    let ghost g1 = str_views(args@);
    assert(g1 =~= g0 + (if agent@.len() > 0 {
        seq!["--agent"@, agent@]
    } else {
        Seq::<Seq<char>>::empty()
    }));
    push_arg_value(&mut args, "--reasoning-effort", settings.reasoning_effort.as_str());
    push_approval(&mut args, yolo, settings);
    push_switches(&mut args, settings);
    assert(str_views(args@) =~= run_args(prompt@, model@, cwd@, id@, agent@, yolo, *settings));
    args
}

/// What the interface is told about a started run: the default agent is
/// shown as `default`.
pub fn run_started(id: String, agent: &str, prompt: String, cwd: String, started_at: String) -> (r:
    AgentRunStarted)
    ensures
        r.id == id,
        r.agent@ == (if agent@.len() == 0 {
            "default"@
        } else {
            agent@
        }),
        r.prompt == prompt,
        r.cwd == cwd,
        r.started_at == started_at,
{
    let av = chars_of(agent);
    let shown = if av.len() == 0 {
        String::from_str("default")
    } else {
        String::from_str(agent)
    };
    AgentRunStarted { id, agent: shown, prompt, cwd, started_at }
}

/// How a finished run is reported: `cancelled`, `completed` (exit code 0) or `failed`.
pub fn run_done_status(cancelled: bool, exit_code: i32) -> (r: &'static str)
    ensures
        r@ == (if cancelled {
            "cancelled"@
        } else if exit_code == 0 {
            "completed"@
        } else {
            "failed"@
        }),
{
    if cancelled {
        "cancelled"
    } else if exit_code == 0 {
        "completed"
    } else {
        "failed"
    }
}

/// A line of a run's output as streamed: the line and a line feed.
pub fn output_chunk(line: &str) -> (r: String)
    ensures
        r@ == line@ + "\n"@,
{
    crate::text::join2(line, "\n")
}

} // verus!
