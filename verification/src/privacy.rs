//! Privacy safeguards around the Grok CLI: confirmations for retention
//! changes, detection of repository uploads in Grok's log, the upload audit and
//! its report, and how risky a project folder is.
//!
//! Reading the log and the folders is left to the caller; what it read is
//! handed in here.

use vstd::prelude::*;
use crate::text::{
    append, append_str, chars_of, dec_nat, eq_str, has_sub, str_is, string_of, u64_text,
};

verus! {

/// Text of the log event that starts a repository upload.
pub open spec fn upload_start() -> Seq<char> {
    "repo_state.upload.start"@
}

/// Text of the log event that queues a repository upload.
pub open spec fn upload_enqueued() -> Seq<char> {
    "repo_state.upload.enqueued"@
}

/// Uploads of one repository seen in the log.
pub struct RepositoryUploadSummary {
    pub path: String,
    pub events: u64,
    pub bytes: u64,
}

/// What the log and Grok's configuration tell about uploads.
pub struct PrivacyAudit {
    pub guard_enabled: bool,
    pub account_retention_opt_out: Option<bool>,
    pub telemetry_disabled_in_config: bool,
    pub trace_upload_disabled_in_config: bool,
    pub log_exists: bool,
    pub log_bytes: u64,
    pub upload_start_events: u64,
    pub upload_enqueued_events: u64,
    pub upload_bytes: u64,
    pub largest_upload_bytes: u64,
    pub first_upload_at: Option<String>,
    pub last_upload_at: Option<String>,
    pub repositories: Vec<RepositoryUploadSummary>,
}

/// How risky it is to open a folder as a project.
pub struct ProjectPathRisk {
    pub risky: bool,
    pub severity: String,
    pub reason: String,
}

// ---------------------------------------------------------------------------
// Confirmations
// ---------------------------------------------------------------------------

/// The phrase the user must type to change coding-data retention.
pub open spec fn retention_phrase(opt_out: bool) -> Seq<char> {
    if opt_out {
        "DELETE PREVIOUSLY SYNCED DATA"@
    } else {
        "ALLOW FUTURE DATA RETENTION"@
    }
}

/// The confirmation phrase for opting out of (or back into) retention.
pub fn expected_retention_confirmation(opt_out: bool) -> (r: &'static str)
    ensures
        r@ == retention_phrase(opt_out),
{
    if opt_out {
        "DELETE PREVIOUSLY SYNCED DATA"
    } else {
        "ALLOW FUTURE DATA RETENTION"
    }
}

/// Refuses a retention change whose confirmation is not the phrase for its direction.
pub fn check_retention_confirmation(opt_out: bool, confirmation: &str) -> (r: Result<(), String>)
    ensures
        r is Ok <==> confirmation@ == retention_phrase(opt_out),
        r matches Err(e) ==> e@ == "Data-retention confirmation did not match"@,
{
    if !str_is(confirmation, expected_retention_confirmation(opt_out)) {
        return Err(String::from_str("Data-retention confirmation did not match"));
    }
    Ok(())
}

/// A retention change is needed unless the account already has the wanted setting.
pub fn retention_change_needed(current: Option<bool>, opt_out: bool) -> (r: bool)
    ensures
        r == (current != Some(opt_out)),
{
    match current {
        Some(c) => c != opt_out,
        None => true,
    }
}

/// Checks the setting that Grok reports after a retention change.
pub fn check_retention_response(confirmed: Option<bool>, opt_out: bool) -> (r: Result<(), String>)
    ensures
        r is Ok <==> confirmed == Some(opt_out),
        r matches Err(e) ==> e@ == "Grok returned an unexpected data-retention state"@,
{
    if retention_change_needed(confirmed, opt_out) {
        return Err(String::from_str("Grok returned an unexpected data-retention state"));
    }
    Ok(())
}

/// The interactive command that changes retention on older Grok versions.
pub fn retention_slash_command(opt_out: bool) -> (r: &'static str)
    ensures
        r@ == (if opt_out {
            "/privacy opt-out"@
        } else {
            "/privacy opt-in"@
        }),
{
    if opt_out {
        "/privacy opt-out"
    } else {
        "/privacy opt-in"
    }
}

/// Refuses to archive and clear the log unless the phrase was typed.
pub fn check_archive_confirmation(confirmation: &str) -> (r: Result<(), String>)
    ensures
        r is Ok <==> confirmation@ == "ARCHIVE AND CLEAR"@,
        r matches Err(e) ==> e@ == "Confirmation phrase did not match"@,
{
    if !str_is(confirmation, "ARCHIVE AND CLEAR") {
        return Err(String::from_str("Confirmation phrase did not match"));
    }
    Ok(())
}

/// The name of the archive of the log made at `stamp`.
pub fn archive_file_name(stamp: &str) -> (r: String)
    ensures
        r@ == "unified-"@ + stamp@ + ".jsonl"@,
{
    crate::text::join3("unified-", stamp, ".jsonl")
}

/// The name of the backup of Grok's configuration made at `stamp`.
pub fn config_backup_name(stamp: &str) -> (r: String)
    ensures
        r@ == "config.privacy-backup-"@ + stamp@ + ".toml"@,
{
    crate::text::join3("config.privacy-backup-", stamp, ".toml")
}

// ---------------------------------------------------------------------------
// Upload detection while a turn runs
// ---------------------------------------------------------------------------

/// The characters of `needle` (ASCII) stand at byte `i` of `b`.
pub open spec fn bytes_match_at(b: Seq<u8>, needle: Seq<char>, i: int) -> bool {
    &&& 0 <= i
    &&& i + needle.len() <= b.len()
    &&& forall|j: int| 0 <= j < needle.len() ==> (#[trigger] b[i + j]) as u32 == needle[j] as u32
}

/// `needle` occurs in `text` (read from byte `from` of the log) so that it
/// ends after byte `prev`, that is, beyond what was checked before.
pub open spec fn ends_after(text: Seq<u8>, needle: Seq<char>, from: int, prev: int) -> bool {
    exists|i: int| #[trigger] bytes_match_at(text, needle, i) && from + i + needle.len() > prev
}

/// An upload event ends in the new part of the log.
pub open spec fn new_upload_in(text: Seq<u8>, from: int, prev: int) -> bool {
    ends_after(text, upload_start(), from, prev) || ends_after(text, upload_enqueued(), from, prev)
}

fn match_at(b: &Vec<u8>, needle: &Vec<char>, i: usize) -> (r: bool)
    requires
        i + needle.len() <= b.len(),
    ensures
        r == bytes_match_at(b@, needle@, i as int),
{
    let mut j: usize = 0;
    while j < needle.len()
        invariant
            i + needle.len() <= b.len(),
            j <= needle.len(),
            forall|k: int| 0 <= k < j ==> (#[trigger] b@[i + k]) as u32 == needle@[k] as u32,
        decreases needle.len() - j,
    {
        if (b[i + j] as u32) != (needle[j] as u32) {
            return false;
        }
        j += 1;
    }
    true
}

fn ends_after_exec(text: &Vec<u8>, needle: &str, from: u64, prev: u64) -> (r: bool)
    requires
        needle@.len() > 0,
    ensures
        r == ends_after(text@, needle@, from as int, prev as int),
{
    let nv = chars_of(needle);
    let mut i: usize = 0;
    while i < text.len()
        invariant
            nv@ == needle@,
            nv@.len() > 0,
            i <= text.len(),
            forall|k: int|
                0 <= k < i ==> !(#[trigger] bytes_match_at(text@, needle@, k) && from + k
                    + needle@.len() > prev),
        decreases text.len() - i,
    {
        if nv.len() <= text.len() - i && match_at(text, &nv, i) && (from as u128) + (i as u128) + (
        nv.len() as u128) > (prev as u128) {
            return true;
        }
        i += 1;
    }
    assert forall|k: int| !(#[trigger] bytes_match_at(text@, needle@, k) && from + k
        + needle@.len() > prev) by {
        if k >= text.len() {
            assert(!bytes_match_at(text@, needle@, k));
        }
    }
    false
}

/// What a check of the log does to the cursor: back to 0 when the log is
/// shorter than the cursor (it was cleared), else unchanged.
pub open spec fn rewound(cursor: u64, length: u64) -> u64 {
    if length < cursor {
        0
    } else {
        cursor
    }
}

/// Where the next read of the log starts: a little before the cursor, so that
/// an event written in two pieces is still seen whole.
pub open spec fn read_start(cursor: u64) -> u64 {
    if cursor < 26 {
        0
    } else {
        (cursor - 26) as u64
    }
}

/// Whether a repository upload began in the log since `cursor`, which is
/// moved past what was read. `length` is the log's length (none when it could
/// not be opened); `read_from(offset)` gives the log from that byte on, when it
/// could be read as text. An upload is reported when an upload event ends after
/// the old cursor (see `new_upload_in`). After a read the cursor stands at
/// the log's length, so a log that has not changed since is not reported again.
pub fn upload_started_since<F: Fn(u64) -> Option<Vec<u8>>>(
    cursor: &mut u64,
    length: Option<u64>,
    read_from: F,
) -> (r: bool)
    requires
        forall|o: u64| #[trigger] read_from.requires((o,)),
    ensures
        length is None ==> !r && *final(cursor) == *old(cursor),
        length == Some(*old(cursor)) ==> !r && *final(cursor) == *old(cursor),
        length is Some && length->0 <= rewound(*old(cursor), length->0) ==> !r && *final(cursor)
            == rewound(*old(cursor), length->0),
        length is Some && length->0 > rewound(*old(cursor), length->0) ==> exists|t: Option<
            Vec<u8>,
        >|
            #[trigger] read_from.ensures((read_start(rewound(*old(cursor), length->0)),), t)
                && match t {
                None => !r && *final(cursor) == rewound(*old(cursor), length->0),
                Some(text) => *final(cursor) == length->0 && r == new_upload_in(
                    text@,
                    read_start(rewound(*old(cursor), length->0)) as int,
                    rewound(*old(cursor), length->0) as int,
                ),
            },
{
    let len = match length {
        None => {
            return false;
        },
        Some(l) => l,
    };
    if len < *cursor {
        *cursor = 0;
    }
    if len <= *cursor {
        return false;
    }
    let previous = *cursor;
    let from: u64 = if previous < 26 {
        0
    } else {
        previous - 26
    };
    let read = read_from(from);
    let ghost got = read;
    assert(previous == rewound(*old(cursor), len));
    assert(from == read_start(rewound(*old(cursor), len)));
    assert(read_from.ensures((read_start(rewound(*old(cursor), len)),), got));
    proof {
        reveal_strlit("repo_state.upload.start");
        reveal_strlit("repo_state.upload.enqueued");
    }
    match read {
        None => false,
        Some(text) => {
            *cursor = len;
            let found = ends_after_exec(&text, "repo_state.upload.start", from, previous)
                || ends_after_exec(&text, "repo_state.upload.enqueued", from, previous);
            found
        },
    }
}


// ---------------------------------------------------------------------------
// The upload audit
// ---------------------------------------------------------------------------

/// The fields of a log record that the audit reads.
pub struct LogContext {
    pub repo_path: Option<String>,
    pub size_bytes: Option<u64>,
}

/// A log record, as far as the audit reads it.
pub struct LogEvent {
    pub ts: Option<String>,
    pub msg: Option<String>,
    pub ctx: Option<LogContext>,
}

/// Whether a log line may be an upload record (only those are parsed).
pub fn is_upload_line(line: &str) -> (r: bool)
    ensures
        r == has_sub(line@, "repo_state.upload"@),
{
    let v = chars_of(line);
    crate::text::contains_str(&v, "repo_state.upload")
}

/// `a + b`, or the largest `u64` when the sum does not fit.
pub open spec fn sat_add(a: u64, b: u64) -> u64 {
    if a + b > u64::MAX {
        u64::MAX
    } else {
        (a + b) as u64
    }
}

/// A repository summary as a triple of path, events and bytes.
pub open spec fn repo_view(r: RepositoryUploadSummary) -> (Seq<char>, u64, u64) {
    (r.path@, r.events, r.bytes)
}

/// The triples of a list of repository summaries.
pub open spec fn repos_view(rs: Seq<RepositoryUploadSummary>) -> Seq<(Seq<char>, u64, u64)> {
    rs.map_values(|r: RepositoryUploadSummary| repo_view(r))
}

/// The position of the summary for path `p`, if there is one.
pub open spec fn repo_index(rs: Seq<(Seq<char>, u64, u64)>, p: Seq<char>) -> Option<int>
    decreases rs.len(),
{
    if rs.len() == 0 {
        None
    } else if rs.last().0 == p {
        Some(rs.len() - 1)
    } else {
        repo_index(rs.drop_last(), p)
    }
}

/// No two summaries are for the same path.
pub open spec fn distinct_paths(rs: Seq<(Seq<char>, u64, u64)>) -> bool {
    forall|i: int, j: int| 0 <= i < j < rs.len() ==> #[trigger] rs[i].0 != #[trigger] rs[j].0
}

/// The summaries after one more upload event of `bytes` bytes for path `p`:
/// its summary counts one event more and adds the bytes (saturating); a path
/// seen for the first time gets a summary at the end.
pub open spec fn repos_after(rs: Seq<(Seq<char>, u64, u64)>, p: Seq<char>, bytes: u64) -> Seq<
    (Seq<char>, u64, u64),
> {
    match repo_index(rs, p) {
        Some(i) => rs.update(i, (p, (rs[i].1 + 1) as u64, sat_add(rs[i].2, bytes))),
        None => rs.push((p, 1u64, bytes)),
    }
}

pub proof fn lemma_repo_index(rs: Seq<(Seq<char>, u64, u64)>, p: Seq<char>)
    ensures
        match repo_index(rs, p) {
            Some(i) => 0 <= i < rs.len() && rs[i].0 == p,
            None => forall|j: int| 0 <= j < rs.len() ==> #[trigger] rs[j].0 != p,
        },
    decreases rs.len(),
{
    if rs.len() > 0 && rs.last().0 != p {
        lemma_repo_index(rs.drop_last(), p);
        assert forall|j: int| 0 <= j < rs.len() - 1 implies #[trigger] rs[j] == rs.drop_last()[j] by {}
    }
}

/// The message of a record, empty when it has none.
pub open spec fn event_msg(e: LogEvent) -> Seq<char> {
    match e.msg {
        Some(m) => m@,
        None => Seq::empty(),
    }
}

/// The bytes an upload record accounts for: the size of a queued upload.
pub open spec fn event_bytes(e: LogEvent) -> u64 {
    if event_msg(e) == upload_enqueued() && e.ctx is Some {
        match e.ctx->0.size_bytes {
            Some(b) => b,
            None => 0,
        }
    } else {
        0
    }
}

/// The audit fields that recording an event leaves as they were.
pub open spec fn same_settings(a: PrivacyAudit, b: PrivacyAudit) -> bool {
    &&& b.guard_enabled == a.guard_enabled
    &&& b.account_retention_opt_out == a.account_retention_opt_out
    &&& b.telemetry_disabled_in_config == a.telemetry_disabled_in_config
    &&& b.trace_upload_disabled_in_config == a.trace_upload_disabled_in_config
    &&& b.log_exists == a.log_exists
    &&& b.log_bytes == a.log_bytes
}

/// `b` is the audit `a` after the log record `e`. Only upload starts and
/// queued uploads count; each is counted and moves the first and last upload
/// time; with a context, its bytes (see `event_bytes`) are added to the total
/// (saturating) and may raise the largest upload, and a non-empty repository
/// path gets the event and bytes (see `repos_after`).
pub open spec fn recorded(a: PrivacyAudit, b: PrivacyAudit, e: LogEvent) -> bool {
    let m = event_msg(e);
    &&& same_settings(a, b)
    &&& if m != upload_start() && m != upload_enqueued() {
        &&& b.upload_start_events == a.upload_start_events
        &&& b.upload_enqueued_events == a.upload_enqueued_events
        &&& b.upload_bytes == a.upload_bytes
        &&& b.largest_upload_bytes == a.largest_upload_bytes
        &&& crate::session::opt_view(b.first_upload_at) == crate::session::opt_view(a.first_upload_at)
        &&& crate::session::opt_view(b.last_upload_at) == crate::session::opt_view(a.last_upload_at)
        &&& repos_view(b.repositories@) == repos_view(a.repositories@)
    } else {
        &&& b.upload_start_events == a.upload_start_events + (if m == upload_start() {
            1int
        } else {
            0int
        })
        &&& b.upload_enqueued_events == a.upload_enqueued_events + (if m == upload_enqueued() {
            1int
        } else {
            0int
        })
        &&& crate::session::opt_view(b.first_upload_at) == (if e.ts is Some && a.first_upload_at is None {
            crate::session::opt_view(e.ts)
        } else {
            crate::session::opt_view(a.first_upload_at)
        })
        &&& crate::session::opt_view(b.last_upload_at) == (if e.ts is Some {
            crate::session::opt_view(e.ts)
        } else {
            crate::session::opt_view(a.last_upload_at)
        })
        &&& if e.ctx is None {
            &&& b.upload_bytes == a.upload_bytes
            &&& b.largest_upload_bytes == a.largest_upload_bytes
            &&& repos_view(b.repositories@) == repos_view(a.repositories@)
        } else {
            &&& b.upload_bytes == sat_add(a.upload_bytes, event_bytes(e))
            &&& b.largest_upload_bytes == (if event_bytes(e) > a.largest_upload_bytes {
                event_bytes(e)
            } else {
                a.largest_upload_bytes
            })
            &&& repos_view(b.repositories@) == match e.ctx->0.repo_path {
                Some(p) => if p@.len() > 0 {
                    repos_after(repos_view(a.repositories@), p@, event_bytes(e))
                } else {
                    repos_view(a.repositories@)
                },
                None => repos_view(a.repositories@),
            }
        }
    }
}

/// An audit of a log with no upload records.
pub fn new_audit(
    guard_enabled: bool,
    account_retention_opt_out: Option<bool>,
    telemetry_disabled_in_config: bool,
    trace_upload_disabled_in_config: bool,
    log_exists: bool,
    log_bytes: u64,
) -> (r: PrivacyAudit)
    ensures
        r.guard_enabled == guard_enabled,
        r.account_retention_opt_out == account_retention_opt_out,
        r.telemetry_disabled_in_config == telemetry_disabled_in_config,
        r.trace_upload_disabled_in_config == trace_upload_disabled_in_config,
        r.log_exists == log_exists,
        r.log_bytes == log_bytes,
        r.upload_start_events == 0,
        r.upload_enqueued_events == 0,
        r.upload_bytes == 0,
        r.largest_upload_bytes == 0,
        r.first_upload_at is None,
        r.last_upload_at is None,
        r.repositories@.len() == 0,
{
    PrivacyAudit {
        guard_enabled,
        account_retention_opt_out,
        telemetry_disabled_in_config,
        trace_upload_disabled_in_config,
        log_exists,
        log_bytes,
        upload_start_events: 0,
        upload_enqueued_events: 0,
        upload_bytes: 0,
        largest_upload_bytes: 0,
        first_upload_at: None,
        last_upload_at: None,
        repositories: Vec::new(),
    }
}

fn copy_opt(s: &Option<String>) -> (r: Option<String>)
    ensures
        crate::session::opt_view(r) == crate::session::opt_view(*s),
{
    match s {
        Some(v) => Some(String::from_str(v.as_str())),
        None => None,
    }
}

fn find_repo(rs: &Vec<RepositoryUploadSummary>, p: &str) -> (r: Option<usize>)
    ensures
        match r {
            Some(i) => repo_index(repos_view(rs@), p@) == Some(i as int),
            None => repo_index(repos_view(rs@), p@) is None,
        },
{
    let ghost v = repos_view(rs@);
    let mut i: usize = rs.len();
    assert(v.subrange(0, i as int) =~= v);
    while i > 0
        invariant
            i <= rs.len(),
            v == repos_view(rs@),
            repo_index(v, p@) == repo_index(v.subrange(0, i as int), p@),
        decreases i,
    {
        let a = chars_of(rs[i - 1].path.as_str());
        assert(v.subrange(0, i as int).last() == v[i - 1]);
        if eq_str(&a, p) {
            return Some(i - 1);
        }
        assert(v.subrange(0, i as int).drop_last() =~= v.subrange(0, i - 1));
        i -= 1;
    }
    None
}

/// Records one parsed log record in the audit (see `recorded`). The counter
/// that the record raises must not be at its limit yet.
pub fn record_upload_event(audit: &mut PrivacyAudit, event: &LogEvent)
    requires
        old(audit).upload_start_events < u64::MAX,
        old(audit).upload_enqueued_events < u64::MAX,
        forall|i: int| 0 <= i < old(audit).repositories@.len() ==> #[trigger] old(audit).repositories@[i].events < u64::MAX,
    ensures
        recorded(*old(audit), *final(audit), *event),
        distinct_paths(repos_view(old(audit).repositories@)) ==> distinct_paths(
            repos_view(final(audit).repositories@),
        ),
{
    let ghost a0 = *audit;
    proof {
        reveal_strlit("repo_state.upload.start");
        reveal_strlit("repo_state.upload.enqueued");
        assert(upload_start() != upload_enqueued()) by {
            assert(upload_start().len() != upload_enqueued().len());
        }
    }
    let empty = String::new();
    let msg: &str = match &event.msg {
        Some(m) => m.as_str(),
        None => empty.as_str(),
    };
    let is_start = str_is(msg, "repo_state.upload.start");
    let is_enqueued = str_is(msg, "repo_state.upload.enqueued");
    if !is_start && !is_enqueued {
        return;
    }
    if is_start {
        audit.upload_start_events = audit.upload_start_events + 1;
    } else {
        audit.upload_enqueued_events = audit.upload_enqueued_events + 1;
    }
    if event.ts.is_some() {
        if audit.first_upload_at.is_none() {
            audit.first_upload_at = copy_opt(&event.ts);
        }
        audit.last_upload_at = copy_opt(&event.ts);
    }
    match &event.ctx {
        None => {},
        Some(ctx) => {
            let bytes: u64 = if is_enqueued {
                match ctx.size_bytes {
                    Some(b) => b,
                    None => 0,
                }
            } else {
                0
            };
            assert(bytes == event_bytes(*event));
            audit.upload_bytes = audit.upload_bytes.saturating_add(bytes);
            if bytes > audit.largest_upload_bytes {
                audit.largest_upload_bytes = bytes;
            }
            match &ctx.repo_path {
                None => {},
                Some(p) => {
                    let pv = chars_of(p.as_str());
                    if pv.len() > 0 {
                        proof {
                            lemma_repo_index(repos_view(a0.repositories@), p@);
                        }
                        match find_repo(&audit.repositories, p.as_str()) {
                            Some(i) => {
                                let ghost before = audit.repositories@;
                                let old_entry = &audit.repositories[i];
                                let updated = RepositoryUploadSummary {
                                    path: String::from_str(p.as_str()),
                                    events: old_entry.events + 1,
                                    bytes: old_entry.bytes.saturating_add(bytes),
                                };
                                audit.repositories.set(i, updated);
                                assert(repos_view(audit.repositories@) =~= repos_after(
                                    repos_view(before),
                                    p@,
                                    bytes,
                                ));
                            },
                            None => {
                                let ghost before = audit.repositories@;
                                audit.repositories.push(
                                    RepositoryUploadSummary {
                                        path: String::from_str(p.as_str()),
                                        events: 1,
                                        bytes,
                                    },
                                );
                                assert(repos_view(audit.repositories@) =~= repos_after(
                                    repos_view(before),
                                    p@,
                                    bytes,
                                ));
                            },
                        }
                    }
                },
            }
        },
    }
}

/// The sorting key of a repository summary: more bytes first, then paths in
/// character-code order.
pub open spec fn repo_key(r: RepositoryUploadSummary) -> Seq<i128> {
    seq![(-(r.bytes as int)) as i128] + r.path@.map_values(|c: char| (c as u32) as i128)
}

/// The sorting keys of a list of summaries.
pub open spec fn repo_keys(rs: Seq<RepositoryUploadSummary>) -> Seq<Seq<i128>> {
    rs.map_values(|r: RepositoryUploadSummary| repo_key(r))
}

fn repo_key_exec(r: &RepositoryUploadSummary) -> (k: Vec<i128>)
    ensures
        k@ == repo_key(*r),
{
    let mut k: Vec<i128> = Vec::new();
    k.push(-(r.bytes as i128));
    let cs = chars_of(r.path.as_str());
    let mut i: usize = 0;
    while i < cs.len()
        invariant
            i <= cs.len(),
            cs@ == r.path@,
            k@ == seq![(-(r.bytes as int)) as i128] + cs@.take(i as int).map_values(
                |c: char| (c as u32) as i128,
            ),
        decreases cs.len() - i,
    {
        k.push((cs[i] as u32) as i128);
        assert(cs@.take(i + 1).map_values(|c: char| (c as u32) as i128) =~= cs@.take(
            i as int,
        ).map_values(|c: char| (c as u32) as i128).push((cs@[i as int] as u32) as i128));
        i += 1;
    }
    assert(cs@.take(cs.len() as int) =~= cs@);
    k
}

/// The finished audit: the repositories ordered by uploaded bytes, largest
/// first, and by path among equal sizes; the rest as it was.
pub fn finish_audit(audit: PrivacyAudit) -> (r: PrivacyAudit)
    ensures
        same_settings(audit, r),
        r.upload_start_events == audit.upload_start_events,
        r.upload_enqueued_events == audit.upload_enqueued_events,
        r.upload_bytes == audit.upload_bytes,
        r.largest_upload_bytes == audit.largest_upload_bytes,
        r.first_upload_at == audit.first_upload_at,
        r.last_upload_at == audit.last_upload_at,
        crate::sort::stably_sorted(audit.repositories@, repo_keys(audit.repositories@), r.repositories@),
        distinct_paths(repos_view(audit.repositories@)) ==> distinct_paths(repos_view(r.repositories@)),
{
    let mut a = audit;
    let mut repos: Vec<RepositoryUploadSummary> = Vec::new();
    core::mem::swap(&mut repos, &mut a.repositories);
    let ghost orig = repos@;
    let mut keys: Vec<Vec<i128>> = Vec::new();
    let mut i: usize = 0;
    while i < repos.len()
        invariant
            repos@ == orig,
            i <= repos.len(),
            keys@.len() == i,
            forall|j: int| 0 <= j < i ==> #[trigger] keys@[j]@ == repo_key(orig[j]),
        decreases repos.len() - i,
    {
        let k = repo_key_exec(&repos[i]);
        keys.push(k);
        i += 1;
    }
    assert(keys@.map_values(|k: Vec<i128>| k@) =~= repo_keys(orig));
    let sorted = crate::sort::stable_sort(repos, keys);
    proof {
        if distinct_paths(repos_view(orig)) {
            let f = |r: RepositoryUploadSummary| r.path@;
            assert forall|x: int, y: int| 0 <= x < y < orig.len() implies f(#[trigger] orig[x])
                != f(#[trigger] orig[y]) by {
                assert(repos_view(orig)[x].0 != repos_view(orig)[y].0);
            }
            crate::sort::lemma_sorted_distinct(orig, repo_keys(orig), sorted@, f);
            let v = repos_view(sorted@);
            assert forall|x: int, y: int| 0 <= x < y < v.len() implies #[trigger] v[x].0
                != #[trigger] v[y].0 by {
                assert(f(sorted@[x]) != f(sorted@[y]));
            }
        }
    }
    a.repositories = sorted;
    a
}


// ---------------------------------------------------------------------------
// The audit report
// ---------------------------------------------------------------------------

/// `true` or `false`.
pub open spec fn bool_text(b: bool) -> Seq<char> {
    if b {
        "true"@
    } else {
        "false"@
    }
}

/// `s` with back-ticks replaced by apostrophes.
pub open spec fn no_backticks(s: Seq<char>) -> Seq<char> {
    s.map_values(|c: char| if c == '`' { '\'' } else { c })
}

/// The report line of one repository.
pub open spec fn repo_line(r: RepositoryUploadSummary) -> Seq<char> {
    "- `"@ + no_backticks(r.path@) + "` \u{2014} "@ + dec_nat(r.events as nat) + " events, "@
        + dec_nat(r.bytes as nat) + " bytes\n"@
}

/// The report lines of the repositories, in order.
pub open spec fn repo_lines(rs: Seq<RepositoryUploadSummary>) -> Seq<char>
    decreases rs.len(),
{
    if rs.len() == 0 {
        Seq::empty()
    } else {
        repo_lines(rs.drop_last()) + repo_line(rs.last())
    }
}

/// The header of the report, with the time it was made.
pub open spec fn report_head(a: PrivacyAudit, generated: Seq<char>) -> Seq<char> {
    "# Grok Desktop Privacy Audit\n\nGenerated: "@ + generated + "\n\n- Privacy Guard: "@
        + bool_text(a.guard_enabled) + "\n- Account coding-data retention opt-out: "@ + match a.account_retention_opt_out {
        Some(b) => bool_text(b),
        None => "unknown"@,
    } + "\n- Telemetry disabled in config: "@ + bool_text(a.telemetry_disabled_in_config)
        + "\n- Trace upload disabled in config: "@ + bool_text(a.trace_upload_disabled_in_config)
        + "\n- Upload start events: "@ + dec_nat(a.upload_start_events as nat)
        + "\n- Upload enqueued events: "@ + dec_nat(a.upload_enqueued_events as nat)
        + "\n- Logged upload bytes: "@ + dec_nat(a.upload_bytes as nat)
        + "\n- Largest logged upload: "@ + dec_nat(a.largest_upload_bytes as nat)
        + "\n- First upload event: "@ + match a.first_upload_at {
        Some(s) => s@,
        None => "none"@,
    } + "\n- Last upload event: "@ + match a.last_upload_at {
        Some(s) => s@,
        None => "none"@,
    } + "\n\n## Repositories\n\n"@
}

/// The Markdown report of an audit made at `generated`.
pub open spec fn report_text(a: PrivacyAudit, generated: Seq<char>) -> Seq<char> {
    report_head(a, generated) + if a.repositories@.len() == 0 {
        "No repository upload events found.\n"@
    } else {
        repo_lines(a.repositories@)
    }
}

fn append_bool(out: &mut Vec<char>, b: bool)
    ensures
        final(out)@ == old(out)@ + bool_text(b),
{
    if b {
        append_str(out, "true");
    } else {
        append_str(out, "false");
    }
}

fn append_u64(out: &mut Vec<char>, n: u64)
    ensures
        final(out)@ == old(out)@ + dec_nat(n as nat),
{
    let d = u64_text(n);
    append(out, &d);
}

fn append_opt(out: &mut Vec<char>, s: &Option<String>)
    ensures
        final(out)@ == old(out)@ + match *s {
            Some(v) => v@,
            None => "none"@,
        },
{
    match s {
        Some(v) => append_str(out, v.as_str()),
        None => append_str(out, "none"),
    }
}

fn report_head_exec(a: &PrivacyAudit, generated: &str) -> (r: Vec<char>)
    ensures
        r@ == report_head(*a, generated@),
{
    let mut out: Vec<char> = Vec::new();
    append_str(&mut out, "# Grok Desktop Privacy Audit\n\nGenerated: ");
    append_str(&mut out, generated);
    append_str(&mut out, "\n\n- Privacy Guard: ");
    append_bool(&mut out, a.guard_enabled);
    append_str(&mut out, "\n- Account coding-data retention opt-out: ");
    match a.account_retention_opt_out {
        Some(b) => append_bool(&mut out, b),
        None => append_str(&mut out, "unknown"),
    }
    append_str(&mut out, "\n- Telemetry disabled in config: ");
    append_bool(&mut out, a.telemetry_disabled_in_config);
    append_str(&mut out, "\n- Trace upload disabled in config: ");
    append_bool(&mut out, a.trace_upload_disabled_in_config);
    append_str(&mut out, "\n- Upload start events: ");
    append_u64(&mut out, a.upload_start_events);
    append_str(&mut out, "\n- Upload enqueued events: ");
    append_u64(&mut out, a.upload_enqueued_events);
    append_str(&mut out, "\n- Logged upload bytes: ");
    append_u64(&mut out, a.upload_bytes);
    append_str(&mut out, "\n- Largest logged upload: ");
    append_u64(&mut out, a.largest_upload_bytes);
    append_str(&mut out, "\n- First upload event: ");
    append_opt(&mut out, &a.first_upload_at);
    append_str(&mut out, "\n- Last upload event: ");
    append_opt(&mut out, &a.last_upload_at);
    append_str(&mut out, "\n\n## Repositories\n\n");
    out
}

fn append_no_backticks(out: &mut Vec<char>, s: &str)
    ensures
        final(out)@ == old(out)@ + no_backticks(s@),
{
    let v = chars_of(s);
    let ghost o0 = out@;
    let mut i: usize = 0;
    while i < v.len()
        invariant
            i <= v.len(),
            v@ == s@,
            out@ == o0 + no_backticks(v@.take(i as int)),
        decreases v.len() - i,
    {
        let c = v[i];
        out.push(if c == '`' { '\'' } else { c });
        assert(no_backticks(v@.take(i + 1)) =~= no_backticks(v@.take(i as int)).push(
            if v@[i as int] == '`' { '\'' } else { v@[i as int] },
        ));
        i += 1;
    }
    assert(v@.take(v.len() as int) =~= v@);
}

/// The Markdown privacy report of an audit made at `generated` (see `report_text`).
pub fn privacy_report(a: &PrivacyAudit, generated: &str) -> (r: String)
    ensures
        r@ == report_text(*a, generated@),
{
    let mut out = report_head_exec(a, generated);
    let ghost head = out@;
    if a.repositories.len() == 0 {
        append_str(&mut out, "No repository upload events found.\n");
    } else {
        let mut i: usize = 0;
        while i < a.repositories.len()
            invariant
                i <= a.repositories.len(),
                out@ == head + repo_lines(a.repositories@.take(i as int)),
            decreases a.repositories.len() - i,
        {
            let r = &a.repositories[i];
            append_str(&mut out, "- `");
            append_no_backticks(&mut out, r.path.as_str());
            append_str(&mut out, "` \u{2014} ");
            append_u64(&mut out, r.events);
            append_str(&mut out, " events, ");
            append_u64(&mut out, r.bytes);
            append_str(&mut out, " bytes\n");
            assert(a.repositories@.take(i + 1).drop_last() =~= a.repositories@.take(i as int));
            i += 1;
        }
        assert(a.repositories@.take(a.repositories.len() as int) =~= a.repositories@);
    }
    string_of(&out)
}


// ---------------------------------------------------------------------------
// How risky a project folder is
// ---------------------------------------------------------------------------

/// The reason given for opening the home folder itself.
pub open spec fn home_reason() -> Seq<char> {
    "This is your entire home folder. It may contain SSH keys, credentials, documents, and unrelated private data."@
}

/// The reason given for a folder at or next to the root, or holding the home folder.
pub open spec fn broad_reason() -> Seq<char> {
    "This folder is unusually broad and may expose unrelated projects and private files to Grok."@
}

/// The sensitive entries looked for in a project folder, in order.
pub open spec fn sensitive_name(k: int) -> Seq<char> {
    if k == 0 {
        ".ssh"@
    } else if k == 1 {
        ".gnupg"@
    } else {
        "AppData"@
    }
}

/// The reason given for a folder holding the sensitive entry `name`.
pub open spec fn sensitive_reason(name: Seq<char>) -> Seq<char> {
    "This folder contains a sensitive '"@ + name
        + "' directory. Choose a narrower project folder when possible."@
}

/// A resolved path, given as its anchor (root or drive) and then its names, is
/// the root or directly under it.
pub open spec fn root_like(path: Seq<Seq<char>>) -> bool {
    path.len() <= 2
}

/// `path` is the folder that holds the home folder `home`.
pub open spec fn holds_home(path: Seq<Seq<char>>, home: Seq<Seq<char>>) -> bool {
    home.len() >= 2 && home.drop_last() == path
}

fn same_components(a: &Vec<String>, b: &Vec<String>, n: usize) -> (r: bool)
    requires
        n <= a.len(),
        n <= b.len(),
    ensures
        r == (crate::text::str_views(a@).take(n as int) == crate::text::str_views(b@).take(n as int)),
{
    let ghost av = crate::text::str_views(a@);
    let ghost bv = crate::text::str_views(b@);
    let mut i: usize = 0;
    while i < n
        invariant
            n <= a.len(),
            n <= b.len(),
            i <= n,
            av == crate::text::str_views(a@),
            bv == crate::text::str_views(b@),
            forall|j: int| 0 <= j < i ==> av[j] == bv[j],
        decreases n - i,
    {
        let x = chars_of(a[i].as_str());
        if !eq_str(&x, b[i].as_str()) {
            assert(av.take(n as int)[i as int] != bv.take(n as int)[i as int]);
            return false;
        }
        i += 1;
    }
    assert(av.take(n as int) =~= bv.take(n as int));
    true
}

fn risk(risky: bool, severity: &str, reason: &str) -> (r: ProjectPathRisk)
    ensures
        r.risky == risky,
        r.severity@ == severity@,
        r.reason@ == reason@,
{
    ProjectPathRisk {
        risky,
        severity: String::from_str(severity),
        reason: String::from_str(reason),
    }
}

/// How risky it is to open the resolved folder `path` as a project: critical
/// for the home folder itself, and for a folder at or next to the root or
/// holding the home folder; a warning when `has_entry` reports `.ssh`,
/// `.gnupg` or `AppData` inside it (the first one found is named); safe
/// otherwise. Paths are given as their anchor followed by their names.
pub fn assess_project_path<F: Fn(&str) -> bool>(
    path: &Vec<String>,
    home: Option<&Vec<String>>,
    has_entry: F,
) -> (r: ProjectPathRisk)
    requires
        forall|s: &str| #[trigger] has_entry.requires((s,)),
    ensures
        ({
            let p = crate::text::str_views(path@);
            match home {
                Some(h) if crate::text::str_views(h@) == p => r.risky && r.severity@ == "critical"@
                    && r.reason@ == home_reason(),
                _ => if root_like(p) || (home is Some && holds_home(
                    p,
                    crate::text::str_views(home->0@),
                )) {
                    r.risky && r.severity@ == "critical"@ && r.reason@ == broad_reason()
                } else if r.risky {
                    r.severity@ == "warning"@ && exists|k: int|
                        0 <= k < 3 && r.reason@ == sensitive_reason(sensitive_name(k)) && (exists|
                            s: &str,
                        | s@ == sensitive_name(k) && #[trigger] has_entry.ensures((s,), true))
                            && forall|j: int|
                            0 <= j < k ==> exists|s: &str|
                                s@ == #[trigger] sensitive_name(j) && #[trigger] has_entry.ensures(
                                    (s,),
                                    false,
                                )
                } else {
                    &&& r.severity@ == "safe"@
                    &&& r.reason@.len() == 0
                    &&& exists|s: &str| s@ == sensitive_name(0) && #[trigger] has_entry.ensures((s,), false)
                    &&& exists|s: &str| s@ == sensitive_name(1) && #[trigger] has_entry.ensures((s,), false)
                    &&& exists|s: &str| s@ == sensitive_name(2) && #[trigger] has_entry.ensures((s,), false)
                }
            }
        }),
{
    let ghost p = crate::text::str_views(path@);
    match home {
        Some(h) => {
            if h.len() == path.len() && same_components(h, path, path.len()) {
                assert(crate::text::str_views(h@) =~= p) by {
                    assert(crate::text::str_views(h@).take(path.len() as int) =~= crate::text::str_views(h@));
                    assert(p.take(path.len() as int) =~= p);
                }
                return risk(true, "critical", "This is your entire home folder. It may contain SSH keys, credentials, documents, and unrelated private data.");
            }
            assert(crate::text::str_views(h@) != p) by {
                if crate::text::str_views(h@) == p {
                    assert(crate::text::str_views(h@).take(path.len() as int) =~= crate::text::str_views(h@));
                    assert(p.take(path.len() as int) =~= p);
                }
            }
        },
        None => {},
    }
    let holds = match home {
        Some(h) => {
            if h.len() >= 2 && h.len() - 1 == path.len() {
                let same = same_components(h, path, path.len());
                assert(same == holds_home(p, crate::text::str_views(h@))) by {
                    assert(p.take(path.len() as int) =~= p);
                    assert(crate::text::str_views(h@).take(path.len() as int) =~= crate::text::str_views(
                        h@,
                    ).drop_last());
                }
                same
            } else {
                false
            }
        },
        None => false,
    };
    if path.len() <= 2 || holds {
        return risk(true, "critical", "This folder is unusually broad and may expose unrelated projects and private files to Grok.");
    }
    proof {
        reveal_strlit(".ssh");
        reveal_strlit(".gnupg");
        reveal_strlit("AppData");
    }
    let ssh = ".ssh";
    if has_entry(ssh) {
        assert(ssh@ == sensitive_name(0));
        let reason = crate::text::join3(
            "This folder contains a sensitive '",
            ssh,
            "' directory. Choose a narrower project folder when possible.",
        );
        return risk(true, "warning", reason.as_str());
    }
    let gnupg = ".gnupg";
    if has_entry(gnupg) {
        assert(gnupg@ == sensitive_name(1));
        let reason = crate::text::join3(
            "This folder contains a sensitive '",
            gnupg,
            "' directory. Choose a narrower project folder when possible.",
        );
        return risk(true, "warning", reason.as_str());
    }
    let appdata = "AppData";
    if has_entry(appdata) {
        assert(appdata@ == sensitive_name(2));
        let reason = crate::text::join3(
            "This folder contains a sensitive '",
            appdata,
            "' directory. Choose a narrower project folder when possible.",
        );
        return risk(true, "warning", reason.as_str());
    }
    assert(ssh@ == sensitive_name(0));
    assert(gnupg@ == sensitive_name(1));
    assert(appdata@ == sensitive_name(2));
    proof {
        reveal_strlit("");
    }
    risk(false, "safe", "")
}


/// Refuses a report destination with a `..` component.
pub fn check_export_destination(destination: &str) -> (r: Result<(), String>)
    ensures
        r is Ok <==> !crate::paths::has_parent_dir(destination@),
        r matches Err(e) ==> e@ == "Export path must not contain '..'"@,
{
    if crate::paths::has_parent_component(destination) {
        return Err(String::from_str("Export path must not contain '..'"));
    }
    Ok(())
}


// ---------------------------------------------------------------------------
// What Grok's files say about privacy
// ---------------------------------------------------------------------------

/// The retention setting of the first account in Grok's `auth.json` that has
/// one.
pub open spec fn retention_in(entries: Seq<(String, crate::json::Json)>) -> Option<bool>
    decreases entries.len(),
{
    if entries.len() == 0 {
        None
    } else {
        match crate::json::bool_at(entries[0].1, "coding_data_retention_opt_out"@) {
            Some(b) => Some(b),
            None => retention_in(entries.drop_first()),
        }
    }
}

/// Whether the account opted out of coding-data retention, as Grok's
/// `auth.json` (an object of accounts) records it.
pub fn account_retention_opt_out(auth: &crate::json::Json) -> (r: Option<bool>)
    ensures
        r == match *auth {
            crate::json::Json::Object(es) => retention_in(es@),
            _ => None,
        },
{
    match auth {
        crate::json::Json::Object(es) => {
            let mut i: usize = 0;
            assert(es@.skip(0) =~= es@);
            while i < es.len()
                invariant
                    i <= es.len(),
                    *auth == crate::json::Json::Object(*es),
                    retention_in(es@) == retention_in(es@.skip(i as int)),
                decreases es.len() - i,
            {
                assert(es@.skip(i as int)[0] == es@[i as int]);
                match es[i].1.bool_at("coding_data_retention_opt_out") {
                    Some(b) => {
                        return Some(b);
                    },
                    None => {},
                }
                assert(es@.skip(i as int).drop_first() =~= es@.skip(i + 1));
                i += 1;
            }
            assert(es@.skip(es.len() as int) =~= Seq::<(String, crate::json::Json)>::empty());
            None
        },
        _ => None,
    }
}

/// Reads Grok's `auth.json` (see `account_retention_opt_out`); unknown when it
/// is not JSON.
pub fn retention_opt_out_from_auth(raw: &[u8]) -> (r: Option<bool>)
    ensures
        r == match crate::json::json_tree(raw@) {
            Ok(crate::json::Json::Object(es)) => retention_in(es@),
            _ => None,
        },
{
    match crate::json::parse_json(raw) {
        Ok(auth) => account_retention_opt_out(&auth),
        Err(_) => None,
    }
}

/// The boolean at `table.key` of a configuration document.
pub open spec fn config_flag(doc: crate::json::Json, table: Seq<char>, key: Seq<char>) -> Option<bool> {
    match crate::json::get_spec(doc, table) {
        Some(t) => crate::json::bool_at(t, key),
        None => None,
    }
}

fn config_flag_exec(doc: &crate::json::Json, table: &str, key: &str) -> (r: Option<bool>)
    ensures
        r == config_flag(*doc, table@, key@),
{
    match doc.get(table) {
        Some(t) => t.bool_at(key),
        None => None,
    }
}

/// Whether Grok's configuration turns telemetry off and turns trace uploads
/// off.
pub fn config_privacy_state(doc: &crate::json::Json) -> (r: (bool, bool))
    ensures
        r.0 == (config_flag(*doc, "features"@, "telemetry"@) == Some(false)),
        r.1 == (config_flag(*doc, "telemetry"@, "trace_upload"@) == Some(false)),
{
    (
        config_flag_exec(doc, "features", "telemetry") == Some(false),
        config_flag_exec(doc, "telemetry", "trace_upload") == Some(false),
    )
}

/// Whether Grok's configuration already turns off telemetry, trace uploads
/// and Mixpanel, so that protecting it changes nothing.
pub fn config_already_protected(doc: &crate::json::Json) -> (r: bool)
    ensures
        r == (config_flag(*doc, "features"@, "telemetry"@) == Some(false) && config_flag(
            *doc,
            "telemetry"@,
            "trace_upload"@,
        ) == Some(false) && config_flag(*doc, "telemetry"@, "mixpanel_enabled"@) == Some(false)),
{
    config_flag_exec(doc, "features", "telemetry") == Some(false) && config_flag_exec(
        doc,
        "telemetry",
        "trace_upload",
    ) == Some(false) && config_flag_exec(doc, "telemetry", "mixpanel_enabled") == Some(false)
}

// ---------------------------------------------------------------------------
// Protecting Grok's configuration
// ---------------------------------------------------------------------------

/// The configuration turns off telemetry, trace uploads and Mixpanel.
pub open spec fn protected_config(doc: crate::json::Json) -> bool {
    &&& config_flag(doc, "features"@, "telemetry"@) == Some(false)
    &&& config_flag(doc, "telemetry"@, "trace_upload"@) == Some(false)
    &&& config_flag(doc, "telemetry"@, "mixpanel_enabled"@) == Some(false)
}

/// The edits that protect the configuration: `features.telemetry`,
/// `telemetry.trace_upload` and `telemetry.mixpanel_enabled` set to false.
pub open spec fn protection_edits() -> Seq<(Seq<Seq<char>>, bool)> {
    seq![
        (seq!["features"@, "telemetry"@], false),
        (seq!["telemetry"@, "trace_upload"@], false),
        (seq!["telemetry"@, "mixpanel_enabled"@], false),
    ]
}

/// The `features` and `telemetry` entries of the document are absent or tables,
/// so that the protection edits can be made.
pub open spec fn protection_possible(doc: crate::json::Json) -> bool {
    &&& crate::toml_doc::indexable(crate::json::get_spec(doc, "features"@))
    &&& crate::toml_doc::indexable(crate::json::get_spec(doc, "telemetry"@))
}

proof fn lemma_protection_safe(doc: crate::json::Json)
    requires
        protection_possible(doc),
    ensures
        crate::toml_doc::edits_safe(doc, protection_edits()),
{
    let es = protection_edits();
    assert forall|i: int, k: int| 0 <= i < es.len() && 1 <= k < es[i].0.len() implies
        #[trigger] crate::toml_doc::indexable(crate::json::pointer_spec(doc, es[i].0.take(k))) by {
        assert(k == 1);
        let key = es[i].0[0];
        assert(es[i].0.take(1) =~= seq![key]);
        assert(seq![key].drop_first() =~= Seq::<Seq<char>>::empty());
        reveal_with_fuel(crate::json::pointer_spec, 2);
        match crate::json::get_spec(doc, key) {
            Some(v) => assert(crate::json::pointer_spec(doc, seq![key]) == Some(v)),
            None => {},
        }
    }
    reveal_strlit("features");
    reveal_strlit("telemetry");
    assert("features"@.len() != "telemetry"@.len());
}

fn protection_edit_list() -> (r: Vec<(Vec<String>, bool)>)
    ensures
        crate::toml_doc::edits_view(r@) == protection_edits(),
{
    let mut a: Vec<String> = Vec::new();
    assert(crate::text::str_views(a@) =~= Seq::<Seq<char>>::empty());
    crate::text::push_str(&mut a, "features");
    crate::text::push_str(&mut a, "telemetry");
    assert(crate::text::str_views(a@) =~= seq!["features"@, "telemetry"@]);
    let mut b: Vec<String> = Vec::new();
    assert(crate::text::str_views(b@) =~= Seq::<Seq<char>>::empty());
    crate::text::push_str(&mut b, "telemetry");
    crate::text::push_str(&mut b, "trace_upload");
    assert(crate::text::str_views(b@) =~= seq!["telemetry"@, "trace_upload"@]);
    let mut c: Vec<String> = Vec::new();
    assert(crate::text::str_views(c@) =~= Seq::<Seq<char>>::empty());
    crate::text::push_str(&mut c, "telemetry");
    crate::text::push_str(&mut c, "mixpanel_enabled");
    assert(crate::text::str_views(c@) =~= seq!["telemetry"@, "mixpanel_enabled"@]);
    let mut r: Vec<(Vec<String>, bool)> = Vec::new();
    r.push((a, false));
    r.push((b, false));
    r.push((c, false));
    assert(crate::toml_doc::edits_view(r@) =~= protection_edits());
    r
}

/// The configuration text after protecting `raw`: its parse error (as
/// `Parse Grok config: ...`), nothing when it already turns off telemetry,
/// trace uploads and Mixpanel, else the text with those three keys set to false.
pub fn protected_config_text(raw: &str) -> (r: Result<Option<String>, String>)
    requires
        crate::toml_doc::toml_tree(raw@) matches Ok(t) ==> protection_possible(t),
    ensures
        match crate::toml_doc::toml_tree(raw@) {
            Err(e) => r matches Err(m) && m@ == "Parse Grok config: "@ + e,
            Ok(t) => if protected_config(t) {
                r matches Ok(None)
            } else {
                r matches Ok(Some(text)) && text@ == crate::toml_doc::toml_with_bools(
                    raw@,
                    protection_edits(),
                )
            },
        },
{
    let doc = match crate::toml_doc::parse_toml(raw) {
        Ok(t) => t,
        Err(e) => {
            return Err(crate::text::join2("Parse Grok config: ", e.as_str()));
        },
    };
    if config_already_protected(&doc) {
        return Ok(None);
    }
    let edits = protection_edit_list();
    proof {
        lemma_protection_safe(doc);
    }
    Ok(Some(crate::toml_doc::set_toml_bools(raw, &edits)))
}

/// Protects the configuration `raw` (see `protected_config_text`) when its
/// `features` and `telemetry` entries are absent or tables; nothing when one
/// of them is another kind of value, on which the edit cannot be made.
pub fn protect_config(raw: &str) -> (r: Option<Result<Option<String>, String>>)
    ensures
        match crate::toml_doc::toml_tree(raw@) {
            Ok(t) if !protection_possible(t) => r is None,
            _ => r matches Some(x) && match crate::toml_doc::toml_tree(raw@) {
                Err(e) => x matches Err(m) && m@ == "Parse Grok config: "@ + e,
                Ok(t) => if protected_config(t) {
                    x matches Ok(None)
                } else {
                    x matches Ok(Some(text)) && text@ == crate::toml_doc::toml_with_bools(
                        raw@,
                        protection_edits(),
                    )
                },
            },
        },
{
    match crate::toml_doc::parse_toml(raw) {
        Ok(t) => {
            let features = t.get("features");
            let telemetry = t.get("telemetry");
            let ok = indexable_exec(features) && indexable_exec(telemetry);
            if !ok {
                return None;
            }
        },
        Err(_) => {},
    }
    Some(protected_config_text(raw))
}

fn indexable_exec(o: Option<&crate::json::Json>) -> (r: bool)
    ensures
        r == crate::toml_doc::indexable(
            match o {
                Some(j) => Some(*j),
                None => None,
            },
        ),
{
    match o {
        None => true,
        Some(crate::json::Json::Object(_)) => true,
        Some(crate::json::Json::InlineTable(_)) => true,
        _ => false,
    }
}

} // verus!
