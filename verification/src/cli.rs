//! What the Grok CLI reports about itself: its identity, recent sessions,
//! worktrees and update state, gathered into one overview.
//!
//! Running the CLI is left to the caller, which hands in what each command
//! printed.

use vstd::prelude::*;
use crate::json::{array_spec, str_at, Json};
use crate::text::{
    append, append_str, chars_of, lines, split_lines, split_words, starts_with_str, string_of,
    trim, trim_chars, trim_pair, trim_ws, views, words,
};

verus! {

/// A session listed by `grok sessions list`.
pub struct GrokCliSession {
    pub id: String,
    pub created: String,
    pub updated: String,
    pub status: String,
    pub summary: String,
}

/// A worktree listed by `grok worktree list`.
pub struct GrokCliWorktree {
    pub id: String,
    pub name: String,
    pub path: String,
    pub branch: String,
    pub status: String,
}

/// A feature of the CLI shown in the overview.
pub struct GrokCliCapability {
    pub name: String,
    pub detail: String,
    pub available: bool,
}

/// Everything the overview shows about the CLI.
pub struct GrokCliOverview {
    pub version: String,
    pub commit: String,
    pub channel: String,
    pub compatibility: String,
    pub sessions: Vec<GrokCliSession>,
    pub worktrees: Vec<GrokCliWorktree>,
    pub capabilities: Vec<GrokCliCapability>,
    pub errors: Vec<String>,
}

/// Version, commit and channel of the CLI, as `grok --version` prints them.
pub struct GrokCliIdentity {
    pub version: String,
    pub commit: String,
    pub channel: String,
}

/// The update state reported by `grok update --check --json`.
pub struct GrokUpdateStatus {
    pub current_version: String,
    pub latest_version: Option<String>,
    pub update_available: bool,
    pub installer: Option<String>,
    pub channel: String,
    pub auto_update: bool,
    pub error: Option<String>,
}

// ---------------------------------------------------------------------------
// Identity
// ---------------------------------------------------------------------------

/// Word `i` of `ws`, or `d` when there are fewer words.
pub open spec fn word_or(ws: Seq<Seq<char>>, i: int, d: Seq<char>) -> Seq<char> {
    if 0 <= i < ws.len() {
        ws[i]
    } else {
        d
    }
}

/// The identity in `grok 0.2.101 (5bc4b5dfad) [stable]`: the second word
/// (`unknown` when missing), the third without parentheses at its ends, the
/// fourth without brackets at its ends.
pub open spec fn identity_of(text: Seq<char>) -> (Seq<char>, Seq<char>, Seq<char>) {
    let ws = words(text);
    (
        word_or(ws, 1, "unknown"@),
        trim_pair(word_or(ws, 2, Seq::empty()), '(', ')'),
        trim_pair(word_or(ws, 3, Seq::empty()), '[', ']'),
    )
}

/// Reads the identity printed by `grok --version` (see `identity_of`).
pub fn parse_cli_identity(text: &str) -> (r: GrokCliIdentity)
    ensures
        (r.version@, r.commit@, r.channel@) == identity_of(text@),
{
    let tv = chars_of(text);
    let ws = split_words(&tv);
    assert(views(ws@).len() == ws@.len());
    let version = if ws.len() > 1 {
        string_of(&ws[1])
    } else {
        String::from_str("unknown")
    };
    let empty: Vec<char> = Vec::new();
    let commit = if ws.len() > 2 {
        trim_chars(&ws[2], '(', ')')
    } else {
        trim_chars(&empty, '(', ')')
    };
    let channel = if ws.len() > 3 {
        trim_chars(&ws[3], '[', ']')
    } else {
        trim_chars(&empty, '[', ']')
    };
    assert(empty@ =~= Seq::<char>::empty());
    GrokCliIdentity { version, commit: string_of(&commit), channel: string_of(&channel) }
}

// ---------------------------------------------------------------------------
// Sessions
// ---------------------------------------------------------------------------

/// Words joined with single spaces.
pub open spec fn join_words(ws: Seq<Seq<char>>) -> Seq<char>
    decreases ws.len(),
{
    if ws.len() == 0 {
        Seq::empty()
    } else if ws.len() == 1 {
        ws[0]
    } else {
        join_words(ws.drop_last()) + " "@ + ws.last()
    }
}

/// A trimmed line of `grok sessions list` that describes a session: not
/// empty, not a heading or error, and with at least five words.
pub open spec fn session_line(l: Seq<char>) -> bool {
    &&& l.len() > 0
    &&& !"(no label)"@.is_prefix_of(l)
    &&& !"SESSION ID"@.is_prefix_of(l)
    &&& !"Error:"@.is_prefix_of(l)
    &&& words(l).len() >= 5
}

/// The session a line describes: id, creation, update, status, and the rest
/// of the words as the summary.
pub open spec fn session_of(l: Seq<char>) -> (Seq<char>, Seq<char>, Seq<char>, Seq<char>, Seq<char>) {
    let ws = words(l);
    (ws[0], ws[1], ws[2], ws[3], join_words(ws.skip(4)))
}

/// A listed session as a tuple of its fields.
pub open spec fn session_view(s: GrokCliSession) -> (Seq<char>, Seq<char>, Seq<char>, Seq<char>, Seq<char>) {
    (s.id@, s.created@, s.updated@, s.status@, s.summary@)
}

/// The sessions described by the lines `ls` (trimmed first), in order.
pub open spec fn sessions_in(ls: Seq<Seq<char>>) -> Seq<(Seq<char>, Seq<char>, Seq<char>, Seq<char>, Seq<char>)>
    decreases ls.len(),
{
    if ls.len() == 0 {
        Seq::empty()
    } else {
        let l = trim_ws(ls.last());
        sessions_in(ls.drop_last()) + if session_line(l) {
            seq![session_of(l)]
        } else {
            Seq::empty()
        }
    }
}

fn join_from(ws: &Vec<Vec<char>>, from: usize) -> (r: Vec<char>)
    requires
        from <= ws.len(),
    ensures
        r@ == join_words(views(ws@).skip(from as int)),
{
    let ghost vs = views(ws@);
    let mut out: Vec<char> = Vec::new();
    let mut i: usize = from;
    assert(vs.skip(from as int).take(0) =~= Seq::<Seq<char>>::empty());
    while i < ws.len()
        invariant
            from <= i <= ws.len(),
            vs == views(ws@),
            out@ == join_words(vs.skip(from as int).take(i - from)),
        decreases ws.len() - i,
    {
        let ghost before = vs.skip(from as int).take(i - from);
        let ghost after = vs.skip(from as int).take(i - from + 1);
        assert(after.drop_last() =~= before);
        assert(after.last() == ws@[i as int]@);
        if i > from {
            append_str(&mut out, " ");
        }
        append(&mut out, &ws[i]);
        i += 1;
    }
    assert(vs.skip(from as int).take(ws.len() - from) =~= vs.skip(from as int));
    out
}

fn session_line_exec(l: &Vec<char>, ws: &Vec<Vec<char>>) -> (r: bool)
    requires
        views(ws@) == words(l@),
    ensures
        r == session_line(l@),
{
    l.len() > 0 && !starts_with_str(l, "(no label)") && !starts_with_str(l, "SESSION ID")
        && !starts_with_str(l, "Error:") && ws.len() >= 5
}

/// The sessions in the text printed by `grok sessions list` (see `sessions_in`).
pub fn parse_sessions(text: &str) -> (r: Vec<GrokCliSession>)
    ensures
        r@.map_values(|s: GrokCliSession| session_view(s)) == sessions_in(lines(text@)),
{
    let tv = chars_of(text);
    let ls = split_lines(&tv);
    let ghost lv = views(ls@);
    let mut out: Vec<GrokCliSession> = Vec::new();
    let mut i: usize = 0;
    while i < ls.len()
        invariant
            i <= ls.len(),
            lv == views(ls@),
            lv == lines(text@),
            out@.map_values(|s: GrokCliSession| session_view(s)) == sessions_in(lv.take(i as int)),
        decreases ls.len() - i,
    {
        let l = trim(&ls[i]);
        let ws = split_words(&l);
        assert(lv.take(i + 1).drop_last() =~= lv.take(i as int));
        assert(lv.take(i + 1).last() == ls@[i as int]@);
        let ghost o0 = out@;
        if session_line_exec(&l, &ws) {
            let summary = join_from(&ws, 4);
            let s = GrokCliSession {
                id: string_of(&ws[0]),
                created: string_of(&ws[1]),
                updated: string_of(&ws[2]),
                status: string_of(&ws[3]),
                summary: string_of(&summary),
            };
            out.push(s);
            assert(out@.map_values(|s: GrokCliSession| session_view(s)) =~= o0.map_values(
                |s: GrokCliSession| session_view(s),
            ).push(session_of(l@)));
        } else {
            assert(out@ == o0);
        }
        i += 1;
    }
    assert(lv.take(ls.len() as int) =~= lv);
    out
}

// ---------------------------------------------------------------------------
// Worktrees
// ---------------------------------------------------------------------------

/// The first of the string members `a`, `b`, `c` of `item`; empty when none is a string.
pub open spec fn first_str(item: Json, a: Seq<char>, b: Seq<char>, c: Seq<char>) -> Seq<char> {
    match str_at(item, a) {
        Some(s) => s,
        None => match str_at(item, b) {
            Some(s) => s,
            None => match str_at(item, c) {
                Some(s) => s,
                None => Seq::empty(),
            },
        },
    }
}

fn value_string(item: &Json, a: &str, b: &str, c: &str) -> (r: String)
    ensures
        r@ == first_str(*item, a@, b@, c@),
{
    match item.str_at(a) {
        Some(s) => String::from_str(s),
        None => match item.str_at(b) {
            Some(s) => String::from_str(s),
            None => match item.str_at(c) {
                Some(s) => String::from_str(s),
                None => String::new(),
            },
        },
    }
}

/// The worktree described by `item`, each field read under its usual name or
/// an alternative one.
pub open spec fn worktree_of(item: Json) -> (Seq<char>, Seq<char>, Seq<char>, Seq<char>, Seq<char>) {
    (
        first_str(item, "id"@, "worktree_id"@, "uuid"@),
        first_str(item, "name"@, "label"@, "branch"@),
        first_str(item, "path"@, "worktree_path"@, "dir"@),
        first_str(item, "branch"@, "ref"@, "head"@),
        first_str(item, "status"@, "state"@, "state"@),
    )
}

/// A listed worktree as a tuple of its fields.
pub open spec fn worktree_view(w: GrokCliWorktree) -> (Seq<char>, Seq<char>, Seq<char>, Seq<char>, Seq<char>) {
    (w.id@, w.name@, w.path@, w.branch@, w.status@)
}

/// The worktrees in the output of `grok worktree list --json` (see
/// `parse_worktrees`); none when it is not JSON.
pub open spec fn listed_worktrees(stdout: Seq<u8>) -> Seq<(Seq<char>, Seq<char>, Seq<char>, Seq<char>, Seq<char>)> {
    match crate::json::json_tree(stdout) {
        Ok(j) => match array_spec(j) {
            Some(items) => items.map_values(|j: Json| worktree_of(j)),
            None => Seq::empty(),
        },
        Err(_) => Seq::empty(),
    }
}

/// Reads the output of `grok worktree list --json`: the error of output that
/// is not JSON (`parse worktrees: ...`), else its worktrees (see `parse_worktrees`).
pub fn parse_worktree_output(stdout: &[u8]) -> (r: Result<Vec<GrokCliWorktree>, String>)
    ensures
        match crate::json::json_tree(stdout@) {
            Err(e) => r matches Err(m) && m@ == "parse worktrees: "@ + e,
            Ok(j) => r matches Ok(v) && v@.map_values(|w: GrokCliWorktree| worktree_view(w))
                == listed_worktrees(stdout@),
        },
{
    match crate::json::parse_json(stdout) {
        Ok(j) => Ok(parse_worktrees(&j)),
        Err(e) => Err(crate::text::join2("parse worktrees: ", e.as_str())),
    }
}

/// The worktrees in the reply of `grok worktree list --json`: one per item of
/// the top-level array, none when the reply is not an array.
pub fn parse_worktrees(value: &Json) -> (r: Vec<GrokCliWorktree>)
    ensures
        r@.map_values(|w: GrokCliWorktree| worktree_view(w)) == match array_spec(*value) {
            Some(items) => items.map_values(|j: Json| worktree_of(j)),
            None => Seq::empty(),
        },
{
    let mut out: Vec<GrokCliWorktree> = Vec::new();
    match value.as_array() {
        None => {
            assert(out@.map_values(|w: GrokCliWorktree| worktree_view(w)) =~= Seq::<
                (Seq<char>, Seq<char>, Seq<char>, Seq<char>, Seq<char>),
            >::empty());
            out
        },
        Some(items) => {
            let mut i: usize = 0;
            while i < items.len()
                invariant
                    i <= items.len(),
                    out@.map_values(|w: GrokCliWorktree| worktree_view(w)) == items@.take(
                        i as int,
                    ).map_values(|j: Json| worktree_of(j)),
                decreases items.len() - i,
            {
                let item = &items[i];
                let w = GrokCliWorktree {
                    id: value_string(item, "id", "worktree_id", "uuid"),
                    name: value_string(item, "name", "label", "branch"),
                    path: value_string(item, "path", "worktree_path", "dir"),
                    branch: value_string(item, "branch", "ref", "head"),
                    status: value_string(item, "status", "state", "state"),
                };
                let ghost o0 = out@;
                out.push(w);
                assert(out@.map_values(|w: GrokCliWorktree| worktree_view(w)) =~= o0.map_values(
                    |w: GrokCliWorktree| worktree_view(w),
                ).push(worktree_of(items@[i as int])));
                assert(items@.take(i + 1).map_values(|j: Json| worktree_of(j)) =~= items@.take(
                    i as int,
                ).map_values(|j: Json| worktree_of(j)).push(worktree_of(items@[i as int])));
                i += 1;
            }
            assert(items@.take(items.len() as int) =~= items@);
            out
        },
    }
}


// ---------------------------------------------------------------------------
// Capabilities, command output and the overview
// ---------------------------------------------------------------------------

/// The CLI features listed in the overview, by name and detail.
pub open spec fn capability_list() -> Seq<(Seq<char>, Seq<char>)> {
    seq![
        ("Persistent agent transports"@, "grok agent stdio / serve / leader"@),
        ("Sessions"@, "grok sessions list/search/delete plus resume/continue"@),
        ("Worktrees"@, "grok --worktree and grok worktree list/show/rm/gc"@),
        ("MCP"@, "grok mcp list/add/remove/doctor"@),
        ("Plugins"@, "grok plugin install/update/enable/disable/details"@),
        ("Memory"@, "--experimental-memory / --no-memory / grok memory clear"@),
        ("Structured output"@, "--output-format json/streaming-json and --json-schema"@),
        ("Traces"@, "grok trace and grok export"@),
        ("Dashboard"@, "grok dashboard"@),
    ]
}

fn push_capability(v: &mut Vec<GrokCliCapability>, name: &str, detail: &str)
    ensures
        final(v)@.len() == old(v)@.len() + 1,
        forall|i: int| 0 <= i < old(v)@.len() ==> final(v)@[i] == old(v)@[i],
        final(v)@.last().name@ == name@,
        final(v)@.last().detail@ == detail@,
        final(v)@.last().available,
{
    v.push(GrokCliCapability {
        name: String::from_str(name),
        detail: String::from_str(detail),
        available: true,
    });
}

/// The features of the CLI (see `capability_list`), all available.
pub fn capabilities() -> (r: Vec<GrokCliCapability>)
    ensures
        r@.len() == capability_list().len(),
        forall|i: int|
            0 <= i < r@.len() ==> (#[trigger] r@[i]).name@ == capability_list()[i].0 && r@[i].detail@
                == capability_list()[i].1 && r@[i].available,
{
    let mut v: Vec<GrokCliCapability> = Vec::new();
    push_capability(&mut v, "Persistent agent transports", "grok agent stdio / serve / leader");
    push_capability(&mut v, "Sessions", "grok sessions list/search/delete plus resume/continue");
    push_capability(&mut v, "Worktrees", "grok --worktree and grok worktree list/show/rm/gc");
    push_capability(&mut v, "MCP", "grok mcp list/add/remove/doctor");
    push_capability(&mut v, "Plugins", "grok plugin install/update/enable/disable/details");
    push_capability(&mut v, "Memory", "--experimental-memory / --no-memory / grok memory clear");
    push_capability(
        &mut v,
        "Structured output",
        "--output-format json/streaming-json and --json-schema",
    );
    push_capability(&mut v, "Traces", "grok trace and grok export");
    push_capability(&mut v, "Dashboard", "grok dashboard");
    v
}

/// What a command printed, as one text: its trimmed output followed by its
/// trimmed error output, trimmed again.
pub open spec fn output_text_of(stdout: Seq<char>, stderr: Seq<char>) -> Seq<char> {
    trim_ws(trim_ws(stdout) + trim_ws(stderr))
}

/// Joins what a command printed (see `output_text_of`).
pub fn output_text(stdout: &str, stderr: &str) -> (r: String)
    ensures
        r@ == output_text_of(stdout@, stderr@),
{
    let a = chars_of(stdout);
    let b = chars_of(stderr);
    let mut t = trim(&a);
    let tb = trim(&b);
    append(&mut t, &tb);
    let r = trim(&t);
    string_of(&r)
}

/// How a listing command went: it succeeded or failed with what it printed
/// (see `output_text`), or could not be run.
pub enum CliRun {
    Succeeded(String),
    Failed(String),
    Error(String),
}

/// How the worktree listing went: its reply was read, its reply was not JSON
/// (with the reader's message), it failed with what it printed, or it could
/// not be run.
pub enum WorktreeRun {
    /// The listing succeeded with this output.
    Listed(Vec<u8>),
    /// The listing failed; what it printed.
    Failed(String),
    /// The listing could not be run.
    Error(String),
}

/// The text of the `grok overview` compatibility line.
pub open spec fn compatibility_text() -> Seq<char> {
    "ACP v1 \u{b7} direct billing/privacy \u{b7} legacy fallbacks"@
}

/// The errors an overview reports for the sessions listing.
pub open spec fn sessions_errors(run: CliRun) -> Seq<Seq<char>> {
    match run {
        CliRun::Succeeded(_) => Seq::empty(),
        CliRun::Failed(t) => seq!["sessions list failed: "@ + t@],
        CliRun::Error(e) => seq![e@],
    }
}

/// The errors an overview reports for the worktree listing.
pub open spec fn worktrees_errors(run: WorktreeRun) -> Seq<Seq<char>> {
    match run {
        WorktreeRun::Listed(b) => match crate::json::json_tree(b@) {
            Ok(_) => Seq::empty(),
            Err(e) => seq!["parse worktrees: "@ + e],
        },
        WorktreeRun::Failed(t) => seq!["worktree list failed: "@ + t@],
        WorktreeRun::Error(e) => seq![e@],
    }
}

/// The overview of the CLI: its identity from what `grok --version` printed
/// (empty when it did not succeed), the sessions of a successful listing, the
/// worktrees of a readable reply, the features, and the errors of the two
/// listings in order.
pub fn overview(version_text: Option<&str>, sessions: CliRun, worktrees: WorktreeRun) -> (r: Result<
    GrokCliOverview,
    String,
>)
    ensures
        r matches Ok(o) && {
            &&& match version_text {
                Some(t) => (o.version@, o.commit@, o.channel@) == identity_of(t@),
                None => o.version@.len() == 0 && o.commit@.len() == 0 && o.channel@.len() == 0,
            }
            &&& o.compatibility@ == compatibility_text()
            &&& o.sessions@.map_values(|s: GrokCliSession| session_view(s)) == match sessions {
                CliRun::Succeeded(t) => sessions_in(lines(t@)),
                _ => Seq::empty(),
            }
            &&& o.worktrees@.map_values(|w: GrokCliWorktree| worktree_view(w)) == match worktrees {
                WorktreeRun::Listed(b) => listed_worktrees(b@),
                _ => Seq::empty(),
            }
            &&& o.capabilities@.len() == capability_list().len()
            &&& forall|i: int|
                0 <= i < o.capabilities@.len() ==> (#[trigger] o.capabilities@[i]).name@
                    == capability_list()[i].0 && o.capabilities@[i].detail@
                    == capability_list()[i].1 && o.capabilities@[i].available
            &&& crate::text::str_views(o.errors@) == sessions_errors(sessions) + worktrees_errors(
                worktrees,
            )
        },
{
    let ghost sg = sessions;
    let ghost wg = worktrees;
    let identity = match version_text {
        Some(t) => parse_cli_identity(t),
        None => GrokCliIdentity {
            version: String::new(),
            commit: String::new(),
            channel: String::new(),
        },
    };
    let mut errors: Vec<String> = Vec::new();
    let listed = match sessions {
        CliRun::Succeeded(t) => parse_sessions(t.as_str()),
        CliRun::Failed(t) => {
            errors.push(crate::text::join2("sessions list failed: ", t.as_str()));
            Vec::new()
        },
        CliRun::Error(e) => {
            errors.push(e);
            Vec::new()
        },
    };
    assert(crate::text::str_views(errors@) =~= sessions_errors(sg));
    let ghost e0 = errors@;
    let trees = match worktrees {
        WorktreeRun::Listed(b) => match parse_worktree_output(b.as_slice()) {
            Ok(v) => v,
            Err(e) => {
                errors.push(e);
                Vec::new()
            },
        },
        WorktreeRun::Failed(t) => {
            errors.push(crate::text::join2("worktree list failed: ", t.as_str()));
            Vec::new()
        },
        WorktreeRun::Error(e) => {
            errors.push(e);
            Vec::new()
        },
    };
    assert(crate::text::str_views(errors@) =~= sessions_errors(sg) + worktrees_errors(wg));
    assert(listed@.map_values(|s: GrokCliSession| session_view(s)) == match sg {
        CliRun::Succeeded(t) => sessions_in(lines(t@)),
        _ => Seq::empty(),
    });
    Ok(
        GrokCliOverview {
            version: identity.version,
            commit: identity.commit,
            channel: identity.channel,
            compatibility: String::from_str("ACP v1 \u{b7} direct billing/privacy \u{b7} legacy fallbacks"),
            sessions: listed,
            worktrees: trees,
            capabilities: capabilities(),
            errors,
        },
    )
}

// ---------------------------------------------------------------------------
// Updates
// ---------------------------------------------------------------------------

/// Refuses an update report that carries a non-empty error.
pub fn check_update_status(status: GrokUpdateStatus) -> (r: Result<GrokUpdateStatus, String>)
    ensures
        match status.error {
            Some(e) if e@.len() > 0 => r matches Err(x) && x@ == "Grok CLI update check: "@ + e@,
            _ => r == Ok::<GrokUpdateStatus, String>(status),
        },
{
    match &status.error {
        Some(e) => {
            let ev = chars_of(e.as_str());
            if ev.len() > 0 {
                return Err(crate::text::join2("Grok CLI update check: ", e.as_str()));
            }
        },
        None => {},
    }
    Ok(status)
}

/// An install counts only if the installed version changed.
pub fn check_installed(before: &GrokUpdateStatus, after: GrokUpdateStatus) -> (r: Result<
    GrokUpdateStatus,
    String,
>)
    ensures
        after.current_version@ == before.current_version@ ==> (r matches Err(e) && e@
            == "Grok CLI updater finished but the installed version did not change"@),
        after.current_version@ != before.current_version@ ==> r == Ok::<GrokUpdateStatus, String>(
            after,
        ),
{
    let a = chars_of(after.current_version.as_str());
    if crate::text::eq_str(&a, before.current_version.as_str()) {
        return Err(String::from_str("Grok CLI updater finished but the installed version did not change"));
    }
    Ok(after)
}

} // verus!
