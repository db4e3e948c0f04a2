//! The store of known project folders.

use vstd::prelude::*;
use vstd::string::StringSliceAdditionalSpecFns;
use crate::chats::Timestamp;
use crate::config::{paths_equal, same_path};
use crate::paths::{file_name, file_name_of};
use crate::session::opt_view;
use crate::text::{byte_len, chars_eq, chars_of, eq_str, join2, string_of, trim, trim_ws};

verus! {

/// A pinned or recent project folder.
pub struct Project {
    pub id: String,
    pub name: String,
    pub path: String,
    pub pinned: bool,
    pub archived: bool,
    pub notes: String,
    pub project_type: String,
    pub last_modified: Option<Timestamp>,
    pub last_opened: Timestamp,
    pub last_chat_id: Option<String>,
}

/// The known projects, in the order they were added.
pub struct ProjectStore {
    pub projects: Vec<Project>,
}

/// Which marker files and folders a project folder holds.
pub struct ProjectMarkers {
    pub tauri_conf_json: bool,
    pub src_tauri: bool,
    pub package_json: bool,
    pub cargo_toml: bool,
    pub pyproject_toml: bool,
    pub requirements_txt: bool,
    pub go_mod: bool,
    pub deno_json: bool,
    pub deno_jsonc: bool,
    pub git: bool,
}

/// The kind of project that its markers show; the first matching rule wins.
pub open spec fn project_kind(m: ProjectMarkers) -> Seq<char> {
    if m.tauri_conf_json || m.src_tauri {
        "Tauri"@
    } else if m.package_json {
        "Node"@
    } else if m.cargo_toml {
        "Rust"@
    } else if m.pyproject_toml || m.requirements_txt {
        "Python"@
    } else if m.go_mod {
        "Go"@
    } else if m.deno_json || m.deno_jsonc {
        "Deno"@
    } else if m.git {
        "Git"@
    } else {
        "Folder"@
    }
}

/// The kind of a project folder (see `project_kind`).
pub fn detect_project_type(m: &ProjectMarkers) -> (r: &'static str)
    ensures
        r@ == project_kind(*m),
{
    if m.tauri_conf_json || m.src_tauri {
        "Tauri"
    } else if m.package_json {
        "Node"
    } else if m.cargo_toml {
        "Rust"
    } else if m.pyproject_toml || m.requirements_txt {
        "Python"
    } else if m.go_mod {
        "Go"
    } else if m.deno_json || m.deno_jsonc {
        "Deno"
    } else if m.git {
        "Git"
    } else {
        "Folder"
    }
}

/// The index of the first project with id `id`, if any.
pub open spec fn index_of_id(ps: Seq<Project>, id: Seq<char>) -> Option<int>
    decreases ps.len(),
{
    if ps.len() == 0 {
        None
    } else if ps[0].id@ == id {
        Some(0)
    } else {
        match index_of_id(ps.drop_first(), id) {
            Some(i) => Some(i + 1),
            None => None,
        }
    }
}

/// The index of the first project whose path names the same folder as `path`.
pub open spec fn index_of_path(ps: Seq<Project>, path: Seq<char>, windows: bool) -> Option<int>
    decreases ps.len(),
{
    if ps.len() == 0 {
        None
    } else if same_path(ps[0].path@, path, windows) {
        Some(0)
    } else {
        match index_of_path(ps.drop_first(), path, windows) {
            Some(i) => Some(i + 1),
            None => None,
        }
    }
}

proof fn lemma_index_of_id(ps: Seq<Project>, id: Seq<char>)
    ensures
        match index_of_id(ps, id) {
            Some(i) => 0 <= i < ps.len() && ps[i].id@ == id && forall|j: int|
                0 <= j < i ==> (#[trigger] ps[j]).id@ != id,
            None => forall|j: int| 0 <= j < ps.len() ==> (#[trigger] ps[j]).id@ != id,
        },
    decreases ps.len(),
{
    if ps.len() > 0 && ps[0].id@ != id {
        lemma_index_of_id(ps.drop_first(), id);
        assert forall|j: int| 1 <= j < ps.len() implies ps[j] == ps.drop_first()[j - 1] by {}
    }
}

proof fn lemma_index_of_path(ps: Seq<Project>, path: Seq<char>, windows: bool)
    ensures
        match index_of_path(ps, path, windows) {
            Some(i) => 0 <= i < ps.len() && same_path(ps[i].path@, path, windows) && forall|j: int|
                0 <= j < i ==> !same_path((#[trigger] ps[j]).path@, path, windows),
            None => forall|j: int|
                0 <= j < ps.len() ==> !same_path((#[trigger] ps[j]).path@, path, windows),
        },
    decreases ps.len(),
{
    if ps.len() > 0 && !same_path(ps[0].path@, path, windows) {
        lemma_index_of_path(ps.drop_first(), path, windows);
        assert forall|j: int| 1 <= j < ps.len() implies ps[j] == ps.drop_first()[j - 1] by {}
    }
}

fn find_id(ps: &Vec<Project>, id: &str) -> (r: Option<usize>)
    ensures
        match r {
            Some(i) => index_of_id(ps@, id@) == Some(i as int) && i < ps@.len(),
            None => index_of_id(ps@, id@) is None,
        },
{
    proof {
        lemma_index_of_id(ps@, id@);
    }
    let mut i: usize = 0;
    while i < ps.len()
        invariant
            i <= ps@.len(),
            forall|j: int| 0 <= j < i ==> (#[trigger] ps@[j]).id@ != id@,
            match index_of_id(ps@, id@) {
                Some(k) => 0 <= k < ps@.len() && ps@[k].id@ == id@ && forall|j: int|
                    0 <= j < k ==> (#[trigger] ps@[j]).id@ != id@,
                None => forall|j: int| 0 <= j < ps@.len() ==> (#[trigger] ps@[j]).id@ != id@,
            },
        decreases ps.len() - i,
    {
        let v = chars_of(ps[i].id.as_str());
        if eq_str(&v, id) {
            return Some(i);
        }
        i += 1;
    }
    None
}

fn find_path(ps: &Vec<Project>, path: &str, windows: bool) -> (r: Option<usize>)
    ensures
        match r {
            Some(i) => index_of_path(ps@, path@, windows) == Some(i as int) && i < ps@.len(),
            None => index_of_path(ps@, path@, windows) is None,
        },
{
    proof {
        lemma_index_of_path(ps@, path@, windows);
    }
    let mut i: usize = 0;
    while i < ps.len()
        invariant
            i <= ps@.len(),
            forall|j: int| 0 <= j < i ==> !same_path((#[trigger] ps@[j]).path@, path@, windows),
            match index_of_path(ps@, path@, windows) {
                Some(k) => 0 <= k < ps@.len() && same_path(ps@[k].path@, path@, windows) && forall|
                    j: int,
                | 0 <= j < k ==> !same_path((#[trigger] ps@[j]).path@, path@, windows),
                None => forall|j: int|
                    0 <= j < ps@.len() ==> !same_path((#[trigger] ps@[j]).path@, path@, windows),
            },
        decreases ps.len() - i,
    {
        if paths_equal(ps[i].path.as_str(), path, windows) {
            return Some(i);
        }
        i += 1;
    }
    None
}

/// The message for an unknown project id.
pub open spec fn not_found(id: Seq<char>) -> Seq<char> {
    "Project not found: "@ + id
}

/// Sets the pinned flag of the project with id `id`; fails, changing nothing,
/// when there is none. Every other project is left as it was.
pub fn set_project_pinned(store: &mut ProjectStore, id: &str, pinned: bool) -> (r: Result<(), String>)
    ensures
        match index_of_id(old(store).projects@, id@) {
            Some(i) => r is Ok && final(store).projects@ == old(store).projects@.update(
                i,
                Project { pinned, ..old(store).projects@[i] },
            ),
            None => final(store).projects@ == old(store).projects@ && (r matches Err(e) && e@
                == not_found(id@)),
        },
{
    match find_id(&store.projects, id) {
        Some(i) => {
            let mut p = store.projects.remove(i);
            p.pinned = pinned;
            store.projects.insert(i, p);
            assert(store.projects@ =~= old(store).projects@.update(
                i as int,
                Project { pinned, ..old(store).projects@[i as int] },
            ));
            Ok(())
        },
        None => Err(join2("Project not found: ", id)),
    }
}

/// Sets the archived flag of the project with id `id`; archiving also unpins
/// it. Fails, changing nothing, when there is no such project.
pub fn set_project_archived(store: &mut ProjectStore, id: &str, archived: bool) -> (r: Result<(), String>)
    ensures
        match index_of_id(old(store).projects@, id@) {
            Some(i) => r is Ok && final(store).projects@ == old(store).projects@.update(
                i,
                Project {
                    archived,
                    pinned: if archived { false } else { old(store).projects@[i].pinned },
                    ..old(store).projects@[i]
                },
            ),
            None => final(store).projects@ == old(store).projects@ && (r matches Err(e) && e@
                == not_found(id@)),
        },
{
    match find_id(&store.projects, id) {
        Some(i) => {
            let mut p = store.projects.remove(i);
            p.archived = archived;
            if archived {
                p.pinned = false;
            }
            store.projects.insert(i, p);
            assert(store.projects@ =~= old(store).projects@.update(
                i as int,
                Project {
                    archived,
                    pinned: if archived { false } else { old(store).projects@[i as int].pinned },
                    ..old(store).projects@[i as int]
                },
            ));
            Ok(())
        },
        None => Err(join2("Project not found: ", id)),
    }
}

/// Replaces the notes of the project with id `id` by the trimmed `notes`.
/// Notes over 2000 bytes are refused before the store is looked at; an unknown
/// id fails. The other fields and projects are left as they were.
pub fn update_project_notes(store: &mut ProjectStore, id: &str, notes: &str) -> (r: Result<(), String>)
    ensures
        vstd::utf8::encode_utf8(notes@).len() > 2000 ==> final(store).projects@ == old(
            store,
        ).projects@ && (r matches Err(e) && e@ == "Project notes are too long"@),
        vstd::utf8::encode_utf8(notes@).len() <= 2000 ==> match index_of_id(
            old(store).projects@,
            id@,
        ) {
            Some(i) => r is Ok && final(store).projects@.len() == old(store).projects@.len()
                && final(store).projects@[i].notes@ == trim_ws(notes@) && (forall|j: int|
                0 <= j < old(store).projects@.len() && j != i ==> final(store).projects@[j]
                    == old(store).projects@[j]) && {
                let a = final(store).projects@[i];
                let b = old(store).projects@[i];
                a.id == b.id && a.name == b.name && a.path == b.path && a.pinned == b.pinned
                    && a.archived == b.archived && a.project_type == b.project_type
                    && a.last_modified == b.last_modified && a.last_opened == b.last_opened
                    && a.last_chat_id == b.last_chat_id
            },
            None => final(store).projects@ == old(store).projects@ && (r matches Err(e) && e@
                == not_found(id@)),
        },
{
    if byte_len(notes) > 2000 {
        return Err(String::from_str("Project notes are too long"));
    }
    match find_id(&store.projects, id) {
        Some(i) => {
            let mut p = store.projects.remove(i);
            let nv = chars_of(notes);
            let t = trim(&nv);
            p.notes = string_of(&t);
            store.projects.insert(i, p);
            Ok(())
        },
        None => Err(join2("Project not found: ", id)),
    }
}

/// The projects whose id is not `id`, in order.
pub open spec fn without_id(ps: Seq<Project>, id: Seq<char>) -> Seq<Project>
    decreases ps.len(),
{
    if ps.len() == 0 {
        seq![]
    } else {
        without_id(ps.drop_last(), id) + (if ps.last().id@ == id {
            seq![]
        } else {
            seq![ps.last()]
        })
    }
}

/// Removes every project with id `id`.
pub fn remove_project(store: &mut ProjectStore, id: &str)
    ensures
        final(store).projects@ == without_id(old(store).projects@, id@),
{
    let ghost orig = store.projects@;
    let mut rest: Vec<Project> = Vec::new();
    core::mem::swap(&mut rest, &mut store.projects);
    let n = rest.len();
    let mut kept: Vec<Project> = Vec::new();
    let mut i: usize = 0;
    while i < n
        invariant
            n == orig.len(),
            i <= n,
            rest@ == orig.subrange(i as int, n as int),
            kept@ == without_id(orig.subrange(0, i as int), id@),
        decreases n - i,
    {
        let p = rest.remove(0);
        let ghost pg = p;
        assert(pg == orig[i as int]);
        assert(orig.subrange(0, i + 1).drop_last() =~= orig.subrange(0, i as int));
        assert(orig.subrange(0, i + 1).last() == pg);
        let v = chars_of(p.id.as_str());
        if !eq_str(&v, id) {
            kept.push(p);
        }
        assert(kept@ =~= without_id(orig.subrange(0, i + 1), id@));
        assert(rest@ =~= orig.subrange(i + 1, n as int));
        i += 1;
    }
    assert(orig.subrange(0, n as int) =~= orig);
    store.projects = kept;
}

/// Records that the project with id `id` was opened at `now`, with its folder's
/// current modification time and kind, and the chat last used when one is given.
/// Returns whether there was such a project; nothing changes when there was not.
pub fn touch_project(
    store: &mut ProjectStore,
    id: &str,
    last_chat_id: Option<String>,
    now: &Timestamp,
    last_modified: Option<Timestamp>,
    project_type: String,
) -> (r: bool)
    ensures
        match index_of_id(old(store).projects@, id@) {
            Some(i) => r && final(store).projects@.len() == old(store).projects@.len() && (forall|
                j: int,
            | 0 <= j < old(store).projects@.len() && j != i ==> final(store).projects@[j] == old(
                store,
            ).projects@[j]) && {
                let a = final(store).projects@[i];
                let b = old(store).projects@[i];
                &&& a.id == b.id && a.name == b.name && a.path == b.path && a.pinned == b.pinned
                &&& a.archived == b.archived && a.notes == b.notes
                &&& a.last_opened.seconds() == now.seconds()
                &&& a.last_opened.subsec_nanos() == now.subsec_nanos()
                &&& a.last_modified == last_modified
                &&& a.project_type == project_type
                &&& a.last_chat_id == (if last_chat_id is Some {
                    last_chat_id
                } else {
                    b.last_chat_id
                })
            },
            None => !r && final(store).projects@ == old(store).projects@,
        },
{
    match find_id(&store.projects, id) {
        Some(i) => {
            let mut p = store.projects.remove(i);
            p.last_opened = now.copy();
            p.last_modified = last_modified;
            p.project_type = project_type;
            if last_chat_id.is_some() {
                p.last_chat_id = last_chat_id;
            }
            store.projects.insert(i, p);
            true
        },
        None => false,
    }
}

/// The name shown for a project folder: the given name, else the folder's
/// final path component, else the whole path.
pub open spec fn display_name(path: Seq<char>, name: Option<Seq<char>>) -> Seq<char> {
    match name {
        Some(n) => n,
        None => match file_name_of(path) {
            Some(f) => f,
            None => path,
        },
    }
}

/// No two projects name the same folder.
pub open spec fn distinct_folders(ps: Seq<Project>, windows: bool) -> bool {
    forall|a: int, b: int|
        0 <= a < b < ps.len() ==> !same_path(#[trigger] ps[a].path@, #[trigger] ps[b].path@, windows)
}

/// Adds a project folder, or refreshes the project that already names the same
/// folder (the first one): it is reopened at `now`, renamed, unarchived, and its
/// path, kind and modification time updated. A new project gets `new_id`, is
/// neither pinned nor archived and has no notes. Returns the added or updated project.
pub fn add_or_update_project(
    store: &mut ProjectStore,
    path: &str,
    name: Option<String>,
    project_type: &str,
    last_modified: Option<Timestamp>,
    now: &Timestamp,
    new_id: String,
    windows: bool,
) -> (r: Project)
    ensures
        match index_of_path(old(store).projects@, path@, windows) {
            Some(i) => {
                &&& final(store).projects@.len() == old(store).projects@.len()
                &&& forall|j: int|
                    0 <= j < old(store).projects@.len() && j != i ==> final(store).projects@[j]
                        == old(store).projects@[j]
                &&& final(store).projects@[i].id == old(store).projects@[i].id
                &&& final(store).projects@[i].pinned == old(store).projects@[i].pinned
                &&& final(store).projects@[i].notes == old(store).projects@[i].notes
                &&& final(store).projects@[i].last_chat_id == old(store).projects@[i].last_chat_id
                &&& final(store).projects@[i].name@ == display_name(path@, opt_view(name))
                &&& final(store).projects@[i].path@ == path@
                &&& !final(store).projects@[i].archived
                &&& final(store).projects@[i].project_type@ == project_type@
                &&& final(store).projects@[i].last_modified == last_modified
                &&& final(store).projects@[i].last_opened.seconds() == now.seconds()
                &&& final(store).projects@[i].last_opened.subsec_nanos() == now.subsec_nanos()
                &&& same_project(r, final(store).projects@[i])
            },
            None => {
                &&& final(store).projects@.len() == old(store).projects@.len() + 1
                &&& forall|j: int|
                    0 <= j < old(store).projects@.len() ==> final(store).projects@[j] == old(
                        store,
                    ).projects@[j]
                &&& {
                    let p = final(store).projects@.last();
                    &&& p.id@ == new_id@
                    &&& p.name@ == display_name(path@, opt_view(name))
                    &&& p.path@ == path@
                    &&& !p.pinned && !p.archived
                    &&& p.notes@ == Seq::<char>::empty()
                    &&& p.project_type@ == project_type@
                    &&& p.last_modified == last_modified
                    &&& p.last_opened.seconds() == now.seconds()
                    &&& p.last_opened.subsec_nanos() == now.subsec_nanos()
                    &&& p.last_chat_id is None
                    &&& same_project(r, p)
                }
            },
        },
        distinct_folders(old(store).projects@, windows) ==> distinct_folders(
            final(store).projects@,
            windows,
        ),
{
    let display: String = match name {
        Some(n) => n,
        None => {
            let pv = chars_of(path);
            match file_name(&pv) {
                Some(f) => string_of(&f),
                None => String::from_str(path),
            }
        },
    };
    match find_path(&store.projects, path, windows) {
        Some(i) => {
            let mut p = store.projects.remove(i);
            p.last_opened = now.copy();
            p.name = display;
            p.path = String::from_str(path);
            p.archived = false;
            p.project_type = String::from_str(project_type);
            p.last_modified = last_modified;
            let copy = copy_project(&p);
            store.projects.insert(i, p);
            proof {
                let before = old(store).projects@;
                let after = store.projects@;
                lemma_index_of_path(before, path@, windows);
                if distinct_folders(before, windows) {
                    assert forall|a: int, b: int| 0 <= a < b < after.len() implies !same_path(
                        #[trigger] after[a].path@,
                        #[trigger] after[b].path@,
                        windows,
                    ) by {
                        if a != i {
                            assert(after[a] == before[a]);
                        }
                        if b != i {
                            assert(after[b] == before[b]);
                        }
                        assert(!same_path(before[a].path@, before[b].path@, windows));
                    }
                }
            }
            copy
        },
        None => {
            let p = Project {
                id: new_id,
                name: display,
                path: String::from_str(path),
                pinned: false,
                archived: false,
                notes: String::new(),
                project_type: String::from_str(project_type),
                last_modified,
                last_opened: now.copy(),
                last_chat_id: None,
            };
            let copy = copy_project(&p);
            store.projects.push(p);
            proof {
                let before = old(store).projects@;
                let after = store.projects@;
                lemma_index_of_path(before, path@, windows);
                if distinct_folders(before, windows) {
                    assert forall|a: int, b: int| 0 <= a < b < after.len() implies !same_path(
                        #[trigger] after[a].path@,
                        #[trigger] after[b].path@,
                        windows,
                    ) by {
                        assert(after[a] == before[a]);
                        if b < before.len() {
                            assert(after[b] == before[b]);
                        } else {
                            assert(!same_path(before[a].path@, path@, windows));
                        }
                    }
                }
            }
            copy
        },
    }
}

/// Two projects hold the same values.
pub open spec fn same_project(a: Project, b: Project) -> bool {
    &&& a.id@ == b.id@ && a.name@ == b.name@ && a.path@ == b.path@
    &&& a.pinned == b.pinned && a.archived == b.archived && a.notes@ == b.notes@
    &&& a.project_type@ == b.project_type@
    &&& opt_view(a.last_chat_id) == opt_view(b.last_chat_id)
    &&& a.last_opened.seconds() == b.last_opened.seconds()
    &&& a.last_opened.subsec_nanos() == b.last_opened.subsec_nanos()
    &&& match (a.last_modified, b.last_modified) {
        (Some(x), Some(y)) => x.seconds() == y.seconds() && x.subsec_nanos() == y.subsec_nanos(),
        (None, None) => true,
        _ => false,
    }
}

/// A copy of a project.
pub fn copy_project(p: &Project) -> (r: Project)
    ensures
        same_project(r, *p),
{
    Project {
        id: String::from_str(p.id.as_str()),
        name: String::from_str(p.name.as_str()),
        path: String::from_str(p.path.as_str()),
        pinned: p.pinned,
        archived: p.archived,
        notes: String::from_str(p.notes.as_str()),
        project_type: String::from_str(p.project_type.as_str()),
        last_modified: match &p.last_modified {
            Some(t) => Some(t.copy()),
            None => None,
        },
        last_opened: p.last_opened.copy(),
        last_chat_id: match &p.last_chat_id {
            Some(c) => Some(String::from_str(c.as_str())),
            None => None,
        },
    }
}

} // verus!
