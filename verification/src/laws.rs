//! Properties that hold of every input, or that relate several operations of
//! the library, stated over the same specifications as the functions'
//! contracts.

use vstd::prelude::*;
use crate::agents::{agent_name_ok, dedup_names, definition_keys, DefinitionView};
use crate::attachments::{
    attachment_file_name, attachment_name_char, attachment_name_chars, image_file_name,
    image_name_char, image_name_chars,
};
use crate::capabilities::{
    config_entries, config_fold, config_server, distinct_names, doctor_fold, doctor_step,
    gathered_servers, inspect_fold, inspect_step, items_at, lemma_put_distinct,
    lemma_server_index, put_server, server_index, server_keys, ServerView,
};
use crate::chats::{
    appended, chats_for, distinct_message_ids, newest_first_keys, ChatMessage, ChatSession, Timestamp,
};
use crate::privacy::{bool_text, repo_lines, report_text, PrivacyAudit};
use crate::projects::{project_kind, ProjectMarkers};
use crate::session::{headless_args, opt_view, SessionConfig};
use crate::text::dec_nat;
use crate::config::{
    choices_error, id_error, lists_error, saved_settings, settings_error, AppSettings,
};
use crate::json::Json;
use crate::privacy::retention_phrase;
use crate::projects::{without_id, Project};
use crate::sort::{
    arranged_by, lemma_lex_irreflexive, lemma_lex_total, lemma_lex_transitive, lex_lt, stably_sorted,
    text_key,
};
use crate::launch::connection_error_page;
use crate::text::{
    ascii_lower_seq, has_sub, occurs_at,
    before_first, first_index, is_ascii_alnum, is_either, is_ws, lemma_first_index,
    lemma_trim_by, lemma_trim_by_fixed, lemma_trim_ws_idempotent, take_at_most, trim_by,
    trim_pair, trim_ws,
};

verus! {

// ---------------------------------------------------------------------------
// Confirmations
// ---------------------------------------------------------------------------

/// A confirmation typed for one direction of a retention change is refused
/// for the other: the two phrases differ.
pub proof fn retention_confirmations_are_directional(confirmation: Seq<char>)
    ensures
        !(confirmation == retention_phrase(true) && confirmation == retention_phrase(false)),
{
    reveal_strlit("DELETE PREVIOUSLY SYNCED DATA");
    reveal_strlit("ALLOW FUTURE DATA RETENTION");
    assert(retention_phrase(true)[0] != retention_phrase(false)[0]);
}

// ---------------------------------------------------------------------------
// Names written to disk
// ---------------------------------------------------------------------------

/// A character kept in a stored attachment name.
pub open spec fn attachment_char_safe(c: char) -> bool {
    is_ascii_alnum(c) || c == '.' || c == '-' || c == '_' || c == ' '
}

/// Stored attachment names are safe whatever the original name: not empty,
/// at most 120 characters, made only of ASCII letters, digits, `.`, `-`, `_`
/// and spaces, and neither beginning nor ending with a dot or a space (so
/// they are never `.`, `..` or a path).
pub proof fn stored_attachment_names_are_safe(name: Seq<char>)
    ensures
        0 < attachment_file_name(name).len() <= 120,
        forall|i: int|
            0 <= i < attachment_file_name(name).len() ==> attachment_char_safe(
                #[trigger] attachment_file_name(name)[i],
            ),
        attachment_file_name(name)[0] != '.' && attachment_file_name(name)[0] != ' ',
        attachment_file_name(name).last() != '.' && attachment_file_name(name).last() != ' ',
{
    let m = attachment_name_chars(take_at_most(name, 120));
    let q = |c: char| attachment_char_safe(c);
    assert forall|i: int| 0 <= i < m.len() implies q(#[trigger] m[i]) by {
        assert(m[i] == attachment_name_char(take_at_most(name, 120)[i]));
    }
    let p = |c: char| is_either(c, ' ', '.');
    let t1 = trim_pair(m, ' ', '.');
    assert(t1 == trim_by(m, p));
    lemma_trim_by(m, p, q);
    let w = |c: char| is_ws(c);
    if t1.len() > 0 {
        assert(!is_ws(t1[0]) && !is_ws(t1.last())) by {
            assert(q(t1[0]));
            assert(q(t1.last()));
        }
    }
    lemma_trim_by_fixed(t1, w);
    assert(trim_ws(t1) == t1);
    reveal_strlit("attachment");
}

/// A character of the stem of a stored image name.
pub open spec fn stem_char_safe(c: char) -> bool {
    is_ascii_alnum(c) || c == '-' || c == '_'
}

/// Stored image names keep to the managed folder whatever the suggested name:
/// they are a stem of 1 to 80 ASCII letters, digits, `-` and `_`, a dot, and
/// the extension chosen by the library.
pub proof fn stored_image_names_are_safe(name: Seq<char>, ext: Seq<char>)
    ensures
        exists|stem: Seq<char>|
            image_file_name(name, ext) == stem + "."@ + ext && 0 < stem.len() <= 80 && forall|i: int|
                0 <= i < stem.len() ==> stem_char_safe(#[trigger] stem[i]),
{
    let base = match crate::paths::file_name_of(name) {
        Some(n) => n,
        None => "image"@,
    };
    let m = image_name_chars(base);
    let q = |c: char| is_ascii_alnum(c) || c == '.' || c == '-' || c == '_';
    assert forall|i: int| 0 <= i < m.len() implies q(#[trigger] m[i]) by {
        assert(m[i] == image_name_char(base[i]));
    }
    let p = |c: char| is_either(c, '.', '.');
    let safe = trim_pair(m, '.', '.');
    assert(safe == trim_by(m, p));
    lemma_trim_by(m, p, q);
    reveal_strlit("image.");
    reveal_strlit("image");
    reveal_strlit(".");
    if safe.len() == 0 {
        let stem = "image"@;
        assert("image."@ =~= stem + "."@);
        assert(image_file_name(name, ext) == stem + "."@ + ext);
        assert(forall|i: int| 0 <= i < stem.len() ==> stem_char_safe(#[trigger] stem[i]));
    } else {
        lemma_first_index(safe, '.');
        let b = before_first(safe, '.');
        assert(safe[0] != '.');
        assert(first_index(safe, '.') != 0);
        assert forall|i: int| 0 <= i < b.len() implies stem_char_safe(#[trigger] b[i]) by {
            assert(b[i] == safe[i]);
            assert(q(safe[i]));
        }
        let stem = take_at_most(b, 80);
        assert(b.len() > 0);
        assert forall|i: int| 0 <= i < stem.len() implies stem_char_safe(#[trigger] stem[i]) by {
            assert(stem[i] == b[i]);
        }
        assert(image_file_name(name, ext) == stem + "."@ + ext);
    }
}

/// Ids accepted by `validate_id` are plain file names: no separators and no dots.
pub proof fn valid_ids_are_plain_file_names(id: Seq<char>, kind: Seq<char>)
    requires
        id_error(id, kind) is None,
    ensures
        !id.contains('/') && !id.contains('\\') && !id.contains('.'),
{
    assert forall|i: int| 0 <= i < id.len() implies #[trigger] id[i] != '/' && id[i] != '\\'
        && id[i] != '.' by {
        assert(crate::text::is_ascii_hex(id[i]) || id[i] == '-');
    }
}

/// Usable agent names are plain file names: no separators and no dots.
pub proof fn agent_names_are_plain_file_names(name: Seq<char>)
    requires
        agent_name_ok(name),
    ensures
        !name.contains('/') && !name.contains('\\') && !name.contains('.'),
{
    assert forall|i: int| 0 <= i < name.len() implies #[trigger] name[i] != '/' && name[i] != '\\'
        && name[i] != '.' by {
        assert(is_ascii_alnum(name[i]) || name[i] == '-' || name[i] == '_');
    }
}

// ---------------------------------------------------------------------------
// Agent definitions
// ---------------------------------------------------------------------------

/// The definitions come in order of their names' keys (equal names together).
spec fn names_in_order(s: Seq<DefinitionView>) -> bool {
    forall|a: int, b: int| 0 <= a < b < s.len() ==> !lex_lt(text_key(#[trigger] s[b].0), text_key(#[trigger] s[a].0))
}

proof fn lemma_text_key_injective(x: Seq<char>, y: Seq<char>)
    requires
        text_key(x) == text_key(y),
    ensures
        x == y,
{
    assert(x.len() == text_key(x).len());
    assert forall|i: int| 0 <= i < x.len() implies x[i] == y[i] by {
        assert(text_key(x)[i] == text_key(y)[i]);
        let cx = x[i];
        let cy = y[i];
        assert(text_key(x)[i] == (cx as u32) as i128);
        assert(text_key(y)[i] == (cy as u32) as i128);
        assert(cx as u32 == cy as u32);
        vstd::utf8::char_u32_cast(cx, cx as u32);
        vstd::utf8::char_u32_cast(cy, cy as u32);
    }
    assert(x =~= y);
}

proof fn lemma_sorted_names_in_order(items: Seq<DefinitionView>, sorted: Seq<DefinitionView>)
    requires
        stably_sorted(items, definition_keys(items), sorted),
    ensures
        names_in_order(sorted),
{
    let keys = definition_keys(items);
    let idx = choose|idx: Seq<int>| arranged_by(items, keys, sorted, idx);
    assert forall|a: int, b: int| 0 <= a < b < sorted.len() implies !lex_lt(
        text_key(#[trigger] sorted[b].0),
        text_key(#[trigger] sorted[a].0),
    ) by {
        let ka = keys[idx[a]];
        let kb = keys[idx[b]];
        assert(sorted[a] == items[idx[a]]);
        assert(sorted[b] == items[idx[b]]);
        assert(ka == text_key(sorted[a].0));
        assert(kb == text_key(sorted[b].0));
        lemma_lex_total(ka, kb);
        lemma_lex_irreflexive(ka);
    }
}

proof fn lemma_dedup_distinct(s: Seq<DefinitionView>)
    requires
        names_in_order(s),
    ensures
        forall|a: int, b: int|
            0 <= a < b < dedup_names(s).len() ==> (#[trigger] dedup_names(s)[a]).0
                != (#[trigger] dedup_names(s)[b]).0,
        s.len() > 0 ==> dedup_names(s).len() > 0 && dedup_names(s).last().0 == s.last().0,
        forall|a: int|
            0 <= a < dedup_names(s).len() ==> exists|j: int|
                0 <= j < s.len() && #[trigger] dedup_names(s)[a] == s[j],
    decreases s.len(),
{
    if s.len() > 0 {
        let t = s.drop_last();
        assert forall|a: int, b: int| 0 <= a < b < t.len() implies !lex_lt(
            text_key(#[trigger] t[b].0),
            text_key(#[trigger] t[a].0),
        ) by {
            assert(t[a] == s[a] && t[b] == s[b]);
        }
        lemma_dedup_distinct(t);
        let d = dedup_names(t);
        assert forall|a: int| 0 <= a < d.len() implies exists|j: int|
            0 <= j < s.len() - 1 && #[trigger] d[a] == s[j] by {
            let j = choose|j: int| 0 <= j < t.len() && d[a] == t[j];
            assert(d[a] == s[j]);
        }
        if !(d.len() > 0 && d.last().0 == s.last().0) {
            let r = dedup_names(s);
            assert(r == d.push(s.last()));
            assert forall|a: int| 0 <= a < d.len() implies (#[trigger] d[a]).0 != s.last().0 by {
                let j = choose|j: int| 0 <= j < s.len() - 1 && d[a] == s[j];
                if d[a].0 == s.last().0 {
                    let m = s.len() - 2;
                    let kj = text_key(s[j].0);
                    let km = text_key(s[m].0);
                    let kl = text_key(s.last().0);
                    assert(kj == kl);
                    if j < m {
                        assert(!lex_lt(text_key(s[m].0), text_key(s[j].0)));
                    }
                    assert(!lex_lt(text_key(s[s.len() - 1].0), text_key(s[m].0)));
                    lemma_lex_total(km, kj);
                    lemma_text_key_injective(s[m].0, s[j].0);
                    assert(t.last() == s[m]);
                }
            }
            assert forall|a: int, b: int| 0 <= a < b < r.len() implies (#[trigger] r[a]).0
                != (#[trigger] r[b]).0 by {
                if b < d.len() {
                    assert(r[a] == d[a] && r[b] == d[b]);
                } else {
                    assert(r[a] == d[a] && r[b] == s.last());
                }
            }
            assert forall|a: int| 0 <= a < r.len() implies exists|j: int|
                0 <= j < s.len() && #[trigger] r[a] == s[j] by {
                if a < d.len() {
                    assert(r[a] == d[a]);
                } else {
                    assert(r[a] == s[s.len() - 1]);
                }
            }
        }
    }
}

/// Each agent is listed once: the definitions, ordered by name, keep only the
/// first of each name, so no two listed definitions share a name.
pub proof fn agents_are_listed_once(items: Seq<DefinitionView>, sorted: Seq<DefinitionView>)
    requires
        stably_sorted(items, definition_keys(items), sorted),
    ensures
        forall|a: int, b: int|
            0 <= a < b < dedup_names(sorted).len() ==> (#[trigger] dedup_names(sorted)[a]).0
                != (#[trigger] dedup_names(sorted)[b]).0,
{
    lemma_sorted_names_in_order(items, sorted);
    lemma_dedup_distinct(sorted);
}

// ---------------------------------------------------------------------------
// Settings, chats and projects
// ---------------------------------------------------------------------------

/// Saving settings that were just saved accepts them and gives them back
/// unchanged.
pub proof fn saved_settings_save_unchanged(s: AppSettings, n: AppSettings, m: AppSettings)
    requires
        settings_error(s) is None,
        saved_settings(s, n),
        saved_settings(n, m),
    ensures
        settings_error(n) is None,
        saved_settings(s, m),
{
    lemma_trim_ws_idempotent(s.grok_binary@);
    lemma_trim_ws_idempotent(s.temp_images_dir@);
    lemma_trim_ws_idempotent(s.permission_mode@);
    lemma_trim_ws_idempotent(s.reasoning_effort@);
    lemma_trim_ws_idempotent(s.tools@);
    lemma_trim_ws_idempotent(s.disallowed_tools@);
    lemma_trim_ws_idempotent(s.allow_rules@);
    lemma_trim_ws_idempotent(s.deny_rules@);
    lemma_trim_ws_idempotent(s.extra_rules@);
    lemma_trim_ws_idempotent(s.max_turns@);
    assert(choices_error(n) == choices_error(s));
    assert(lists_error(n) == lists_error(s));
}

/// Retrying an append (the same message again) changes nothing: the chat
/// after the first append is given back as it is.
pub proof fn retried_append_changes_nothing(
    s0: ChatSession,
    m: ChatMessage,
    now: Timestamp,
    s1: ChatSession,
    later: Timestamp,
    r2: Result<ChatSession, String>,
)
    requires
        appended(s0, m, now, Ok(s1)),
        appended(s1, m, later, r2),
    ensures
        r2 == Ok::<ChatSession, String>(s1),
{
    if !(exists|i: int| 0 <= i < s0.messages@.len() && (#[trigger] s0.messages@[i]).id@ == m.id@) {
        assert(s1.messages@[s1.messages@.len() - 1] == m);
        assert(exists|i: int|
            0 <= i < s1.messages@.len() && (#[trigger] s1.messages@[i]).id@ == m.id@);
    }
}

/// A chat never holds two messages with the same id: appending keeps the ids
/// of its messages distinct.
pub proof fn appending_keeps_message_ids_distinct(
    s0: ChatSession,
    m: ChatMessage,
    now: Timestamp,
    s1: ChatSession,
)
    requires
        distinct_message_ids(s0.messages@),
        appended(s0, m, now, Ok(s1)),
    ensures
        distinct_message_ids(s1.messages@),
{
    if !(exists|i: int| 0 <= i < s0.messages@.len() && (#[trigger] s0.messages@[i]).id@ == m.id@) {
        let ms = s1.messages@;
        assert forall|a: int, b: int| 0 <= a < b < ms.len() implies (#[trigger] ms[a]).id@
            != (#[trigger] ms[b]).id@ by {
            assert(ms[a] == s0.messages@[a]);
            if b < s0.messages@.len() {
                assert(ms[b] == s0.messages@[b]);
            } else {
                assert(ms[b] == m);
            }
        }
    }
}

/// A removed project is gone: no project left has its id.
pub proof fn removed_project_is_gone(ps: Seq<Project>, id: Seq<char>)
    ensures
        forall|k: int| 0 <= k < without_id(ps, id).len() ==> (#[trigger] without_id(ps, id)[k]).id@ != id,
    decreases ps.len(),
{
    if ps.len() > 0 {
        removed_project_is_gone(ps.drop_last(), id);
        let prev = without_id(ps.drop_last(), id);
        let w = without_id(ps, id);
        assert forall|k: int| 0 <= k < w.len() implies (#[trigger] w[k]).id@ != id by {
            if k < prev.len() {
                assert(w[k] == prev[k]);
            }
        }
    }
}

// ---------------------------------------------------------------------------
// The capabilities inventory
// ---------------------------------------------------------------------------

proof fn lemma_config_fold_distinct(ss: Seq<ServerView>, es: Seq<(String, Json)>, source: Seq<char>)
    requires
        distinct_names(ss),
    ensures
        distinct_names(config_fold(ss, es, source)),
    decreases es.len(),
{
    if es.len() > 0 {
        lemma_config_fold_distinct(ss, es.drop_last(), source);
        let prev = config_fold(ss, es.drop_last(), source);
        match es.last().1 {
            Json::Object(_) => lemma_put_distinct(
                prev,
                config_server(es.last().0@, es.last().1, source),
            ),
            _ => {},
        }
    }
}

proof fn lemma_update_same_name(ss: Seq<ServerView>, i: int, s: ServerView)
    requires
        distinct_names(ss),
        0 <= i < ss.len(),
        s.0 == ss[i].0,
    ensures
        distinct_names(ss.update(i, s)),
{
    let u = ss.update(i, s);
    assert forall|a: int, b: int| 0 <= a < b < u.len() implies #[trigger] u[a].0 != #[trigger] u[b].0 by {
        assert(ss[a].0 != ss[b].0);
    }
}

proof fn lemma_push_new_name(ss: Seq<ServerView>, s: ServerView)
    requires
        distinct_names(ss),
        forall|j: int| 0 <= j < ss.len() ==> #[trigger] ss[j].0 != s.0,
    ensures
        distinct_names(ss.push(s)),
{
    let u = ss.push(s);
    assert forall|a: int, b: int| 0 <= a < b < u.len() implies #[trigger] u[a].0 != #[trigger] u[b].0 by {
        if b < ss.len() {
            assert(ss[a].0 != ss[b].0);
        }
    }
}

proof fn lemma_inspect_fold_distinct(ss: Seq<ServerView>, items: Seq<Json>)
    requires
        distinct_names(ss),
    ensures
        distinct_names(inspect_fold(ss, items)),
    decreases items.len(),
{
    if items.len() > 0 {
        lemma_inspect_fold_distinct(ss, items.drop_last());
        let prev = inspect_fold(ss, items.drop_last());
        let item = items.last();
        match crate::json::str_at(item, "name"@) {
            None => {},
            Some(name) => {
                lemma_server_index(prev, name);
                let step = inspect_step(prev, item);
                match server_index(prev, name) {
                    Some(i) => {
                        lemma_update_same_name(prev, i, step[i]);
                        assert(step == prev.update(i, step[i]));
                    },
                    None => {
                        lemma_push_new_name(prev, step.last());
                        assert(step == prev.push(step.last()));
                    },
                }
            },
        }
    }
}

proof fn lemma_doctor_fold_distinct(ss: Seq<ServerView>, items: Seq<Json>)
    requires
        distinct_names(ss),
    ensures
        distinct_names(doctor_fold(ss, items)),
    decreases items.len(),
{
    if items.len() > 0 {
        lemma_doctor_fold_distinct(ss, items.drop_last());
        let prev = doctor_fold(ss, items.drop_last());
        let item = items.last();
        match crate::json::str_at(item, "name"@) {
            None => {},
            Some(name) => {
                lemma_server_index(prev, name);
                let step = doctor_step(prev, item);
                match server_index(prev, name) {
                    Some(i) => {
                        lemma_update_same_name(prev, i, step[i]);
                        assert(step == prev.update(i, step[i]));
                    },
                    None => {
                        lemma_push_new_name(prev, step.last());
                        assert(step == prev.push(step.last()));
                    },
                }
            },
        }
    }
}

/// Each MCP server is listed once in the inventory: whatever the configuration
/// and the CLI report, the servers gathered, and so the servers listed (a
/// rearrangement of them), have distinct names.
pub proof fn inventory_lists_each_server_once(
    doc: Json,
    config_path: Seq<char>,
    inspect: Option<Json>,
    doctor: Option<Json>,
    listed: Seq<ServerView>,
)
    requires
        stably_sorted(
            gathered_servers(doc, config_path, inspect, doctor),
            server_keys(gathered_servers(doc, config_path, inspect, doctor)),
            listed,
        ),
    ensures
        distinct_names(gathered_servers(doc, config_path, inspect, doctor)),
        distinct_names(listed),
{
    let empty = Seq::<ServerView>::empty();
    lemma_config_fold_distinct(empty, config_entries(doc), config_path);
    let from_config = config_fold(empty, config_entries(doc), config_path);
    match inspect {
        Some(i) => lemma_inspect_fold_distinct(from_config, items_at(i, "mcpServers"@)),
        None => {},
    }
    let from_inspect = match inspect {
        Some(i) => inspect_fold(from_config, items_at(i, "mcpServers"@)),
        None => from_config,
    };
    match doctor {
        Some(d) => lemma_doctor_fold_distinct(from_inspect, items_at(d, "servers"@)),
        None => {},
    }
    let g = gathered_servers(doc, config_path, inspect, doctor);
    let idx = choose|idx: Seq<int>| arranged_by(g, server_keys(g), listed, idx);
    assert forall|a: int, b: int| 0 <= a < b < listed.len() implies #[trigger] listed[a].0
        != #[trigger] listed[b].0 by {
        assert(listed[a] == g[idx[a]]);
        assert(listed[b] == g[idx[b]]);
        assert(idx[a] != idx[b]);
        if idx[a] < idx[b] {
            assert(g[idx[a]].0 != g[idx[b]].0);
        } else {
            assert(g[idx[b]].0 != g[idx[a]].0);
        }
    }
}

// ---------------------------------------------------------------------------
// Connection-error pages
// ---------------------------------------------------------------------------

/// `s` in ASCII upper case.
pub open spec fn ascii_upper_seq(s: Seq<char>) -> Seq<char> {
    s.map_values(|c: char| crate::config::ascii_upper(c))
}

proof fn lemma_lower_of_upper(s: Seq<char>)
    ensures
        ascii_lower_seq(ascii_upper_seq(s)) == ascii_lower_seq(s),
{
    assert forall|i: int| 0 <= i < s.len() implies ascii_lower_seq(ascii_upper_seq(s))[i]
        == ascii_lower_seq(s)[i] by {
        let c = s[i];
        if 'a' <= c && c <= 'z' {
            let u = ((c as u32) - 32) as char;
            assert(u as u32 == (c as u32) - 32);
            vstd::utf8::char_u32_cast(c, c as u32);
            assert((((u as u32) + 32) as char) == c);
        }
    }
    assert(ascii_lower_seq(ascii_upper_seq(s)) =~= ascii_lower_seq(s));
}

proof fn lemma_has_sub_append(s: Seq<char>, t: Seq<char>, x: Seq<char>)
    requires
        has_sub(s, t),
    ensures
        has_sub(s + x, t),
{
    let i = choose|i: int| occurs_at(s, t, i);
    assert((s + x).subrange(i, i + t.len()) =~= s.subrange(i, i + t.len()));
    assert(occurs_at(s + x, t, i));
}

/// Detecting a connection-error page ignores ASCII case: the page in upper
/// case is judged the same.
pub proof fn connection_errors_ignore_case(url: Seq<char>, title: Seq<char>, body: Seq<char>)
    ensures
        connection_error_page(url, title, body) == connection_error_page(
            ascii_upper_seq(url),
            ascii_upper_seq(title),
            ascii_upper_seq(body),
        ),
{
    lemma_lower_of_upper(url);
    lemma_lower_of_upper(title);
    lemma_lower_of_upper(body);
}

/// A connection-error page stays one when more text follows its address,
/// title or text.
pub proof fn connection_errors_survive_appended_text(
    url: Seq<char>,
    title: Seq<char>,
    body: Seq<char>,
    x: Seq<char>,
    y: Seq<char>,
    z: Seq<char>,
)
    requires
        connection_error_page(url, title, body),
    ensures
        connection_error_page(url + x, title + y, body + z),
{
    let (u, t, b) = (ascii_lower_seq(url), ascii_lower_seq(title), ascii_lower_seq(body));
    assert(ascii_lower_seq(url + x) =~= u + ascii_lower_seq(x));
    assert(ascii_lower_seq(title + y) =~= t + ascii_lower_seq(y));
    assert(ascii_lower_seq(body + z) =~= b + ascii_lower_seq(z));
    let (ux, ty, bz) = (ascii_lower_seq(x), ascii_lower_seq(y), ascii_lower_seq(z));
    assert forall|n: Seq<char>| has_sub(u, n) implies has_sub(u + ux, n) by {
        lemma_has_sub_append(u, n, ux);
    }
    assert forall|n: Seq<char>| has_sub(t, n) implies has_sub(t + ty, n) by {
        lemma_has_sub_append(t, n, ty);
    }
    assert forall|n: Seq<char>| has_sub(b, n) implies has_sub(b + bz, n) by {
        lemma_has_sub_append(b, n, bz);
    }
    if "data:text/html,"@.is_prefix_of(u) {
        assert("data:text/html,"@.is_prefix_of(u + ux));
    }
}

// ---------------------------------------------------------------------------
// What the operations are for
// ---------------------------------------------------------------------------

/// The last `n` items of `s`.
pub open spec fn last_items<T>(s: Seq<T>, n: int) -> Seq<T> {
    s.subrange(s.len() - n, s.len() as int)
}

/// A headless turn of an existing chat resumes the chat's own session: after
/// its first turn the command line ends with `--resume` and the chat id, and
/// its first turn names the session after the chat (`--session-id`). A turn
/// without a chat id continues the latest session once there has been one.
pub proof fn turns_resume_their_chat_session(prompt: Seq<char>, cfg: SessionConfig, s: AppSettings)
    ensures
        cfg.chat_id is Some && cfg.has_prior_turn ==> last_items(headless_args(prompt, cfg, s), 2)
            == seq!["--resume"@, cfg.chat_id->0@],
        cfg.chat_id is Some && !cfg.has_prior_turn ==> last_items(
            headless_args(prompt, cfg, s),
            2,
        ) == seq!["--session-id"@, cfg.chat_id->0@],
        cfg.chat_id is None && cfg.has_prior_turn ==> last_items(headless_args(prompt, cfg, s), 1)
            == seq!["--continue"@],
{
    let a = headless_args(prompt, cfg, s);
    match cfg.chat_id {
        Some(id) => {
            assert(last_items(a, 2) =~= (if cfg.has_prior_turn {
                seq!["--resume"@, id@]
            } else {
                seq!["--session-id"@, id@]
            }));
        },
        None => {
            if cfg.has_prior_turn {
                assert(last_items(a, 1) =~= seq!["--continue"@]);
            }
        },
    }
}

/// Every permission mode the CLI offers (`default`, `acceptEdits`, `auto`,
/// `dontAsk`, `bypassPermissions`, `plan`) is accepted when settings are
/// saved: whatever else is wrong with them, the mode is never the error.
pub proof fn offered_permission_modes_are_accepted(s: AppSettings)
    requires
        ({
            let m = trim_ws(s.permission_mode@);
            m == "default"@ || m == "acceptEdits"@ || m == "auto"@ || m == "dontAsk"@ || m
                == "bypassPermissions"@ || m == "plan"@
        }),
    ensures
        settings_error(s) != Some("Invalid permission mode"@),
{
    reveal_strlit("Invalid permission mode");
    reveal_strlit("Invalid ");
    reveal_strlit(" value");
    reveal_strlit("tools");
    reveal_strlit("disallowed tools");
    reveal_strlit("allow rules");
    reveal_strlit("deny rules");
    reveal_strlit("Invalid extra rules value");
    reveal_strlit("Invalid default model");
    reveal_strlit("Invalid reasoning effort");
    reveal_strlit("Max turns must be a number");
    reveal_strlit("Max turns must be between 1 and 200");
    let target = "Invalid permission mode"@;
    assert(target.len() == 23);
    assert(("Invalid "@ + "tools"@ + " value"@).len() != 23);
    assert(("Invalid "@ + "disallowed tools"@ + " value"@).len() != 23);
    assert(("Invalid "@ + "allow rules"@ + " value"@).len() != 23);
    assert(("Invalid "@ + "deny rules"@ + " value"@).len() != 23);
    assert("Invalid extra rules value"@.len() != 23);
    assert("Invalid default model"@.len() != 23);
    assert("Invalid reasoning effort"@.len() != 23);
    assert("Max turns must be a number"@.len() != 23);
    assert("Max turns must be between 1 and 200"@.len() != 23);
}

/// A project's chat listing holds only that project's chats (and the
/// workspace listing only chats of no project): every chat listed for
/// `project_id` has exactly that project id.
pub proof fn listings_hold_only_their_projects_chats(
    sessions: Seq<ChatSession>,
    project_id: Option<Seq<char>>,
    listed: Seq<ChatSession>,
)
    requires
        stably_sorted(
            chats_for(sessions, project_id),
            newest_first_keys(chats_for(sessions, project_id)),
            listed,
        ),
    ensures
        forall|k: int| 0 <= k < listed.len() ==> opt_view((#[trigger] listed[k]).project_id) == project_id,
{
    lemma_chats_for_project(sessions, project_id);
    let c = chats_for(sessions, project_id);
    let idx = choose|idx: Seq<int>| arranged_by(c, newest_first_keys(c), listed, idx);
    assert forall|k: int| 0 <= k < listed.len() implies opt_view((#[trigger] listed[k]).project_id)
        == project_id by {
        assert(listed[k] == c[idx[k]]);
    }
}

proof fn lemma_chats_for_project(sessions: Seq<ChatSession>, project_id: Option<Seq<char>>)
    ensures
        forall|k: int|
            0 <= k < chats_for(sessions, project_id).len() ==> opt_view(
                (#[trigger] chats_for(sessions, project_id)[k]).project_id,
            ) == project_id,
    decreases sessions.len(),
{
    if sessions.len() > 0 {
        lemma_chats_for_project(sessions.drop_last(), project_id);
        let prev = chats_for(sessions.drop_last(), project_id);
        let c = chats_for(sessions, project_id);
        assert forall|k: int| 0 <= k < c.len() implies opt_view((#[trigger] c[k]).project_id)
            == project_id by {
            if k < prev.len() {
                assert(c[k] == prev[k]);
            } else {
                assert(c[k] == sessions.last());
            }
        }
    }
}

/// A folder with a `src-tauri` folder or a `tauri.conf.json` is a Tauri
/// project, whatever other markers (a `package.json`, a `Cargo.toml`, git) it
/// also has.
pub proof fn tauri_markers_win(m: ProjectMarkers)
    requires
        m.src_tauri || m.tauri_conf_json,
    ensures
        project_kind(m) == "Tauri"@,
{
}

/// The report's "Largest logged upload" line shows the largest single upload
/// (`largest_upload_bytes`), right after the line with the logged total.
pub proof fn report_shows_the_largest_upload(a: PrivacyAudit, generated: Seq<char>)
    ensures
        exists|before: Seq<char>, after: Seq<char>|
            report_text(a, generated) == before + "\n- Logged upload bytes: "@ + dec_nat(
                a.upload_bytes as nat,
            ) + "\n- Largest logged upload: "@ + dec_nat(a.largest_upload_bytes as nat)
                + "\n- First upload event: "@ + after,
{
    let before = "# Grok Desktop Privacy Audit\n\nGenerated: "@ + generated + "\n\n- Privacy Guard: "@
        + bool_text(a.guard_enabled) + "\n- Account coding-data retention opt-out: "@ + match a.account_retention_opt_out {
        Some(b) => bool_text(b),
        None => "unknown"@,
    } + "\n- Telemetry disabled in config: "@ + bool_text(a.telemetry_disabled_in_config)
        + "\n- Trace upload disabled in config: "@ + bool_text(a.trace_upload_disabled_in_config)
        + "\n- Upload start events: "@ + dec_nat(a.upload_start_events as nat)
        + "\n- Upload enqueued events: "@ + dec_nat(a.upload_enqueued_events as nat);
    let after = match a.first_upload_at {
        Some(s) => s@,
        None => "none"@,
    } + "\n- Last upload event: "@ + match a.last_upload_at {
        Some(s) => s@,
        None => "none"@,
    } + "\n\n## Repositories\n\n"@ + if a.repositories@.len() == 0 {
        "No repository upload events found.\n"@
    } else {
        repo_lines(a.repositories@)
    };
    assert(report_text(a, generated) =~= before + "\n- Logged upload bytes: "@ + dec_nat(
        a.upload_bytes as nat,
    ) + "\n- Largest logged upload: "@ + dec_nat(a.largest_upload_bytes as nat)
        + "\n- First upload event: "@ + after);
}

} // verus!
