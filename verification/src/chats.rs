//! Chat histories: timestamps, the Markdown transcript, listing order, and
//! appending messages.

use vstd::prelude::*;
use vstd::string::StringSliceAdditionalSpecFns;
use crate::config::{id_error, validate_id};
use crate::paths::{extension_of, file_name, file_name_of, file_name_str, split_extension};
use crate::session::{opt_view, uuid_id_error, validate_uuid_id};
use crate::text::{to_lowercase, unicode_lowercase};
use crate::sort::{stable_sort, stably_sorted};
use crate::text::{
    append, append_str, byte_len, chars_of, contains_str, eq_str, has_sub, join2, slice,
    str_views, string_of, trim, trim_ws,
};

verus! {

/// Largest number of seconds from the Unix epoch that a timestamp may hold, in
/// either direction (well inside the range of `chrono::DateTime<Utc>`).
pub const MAX_TIMESTAMP_SECS: i64 = 8_000_000_000_000;

/// An instant in UTC: seconds from the Unix epoch and nanoseconds within the second.
pub struct Timestamp {
    pub(crate) secs: i64,
    pub(crate) nanos: u32,
}

impl Timestamp {
    #[verifier::type_invariant]
    spec fn in_range(self) -> bool {
        -MAX_TIMESTAMP_SECS <= self.secs <= MAX_TIMESTAMP_SECS && self.nanos < 1_000_000_000
    }

    /// Seconds from the Unix epoch.
    pub closed spec fn seconds(self) -> int {
        self.secs as int
    }

    /// Nanoseconds within the second.
    pub closed spec fn subsec_nanos(self) -> int {
        self.nanos as int
    }

    /// A timestamp, when the values are in range: at most 8e12 seconds from the
    /// epoch either way, and fewer than 1e9 nanoseconds.
    pub fn new(secs: i64, nanos: u32) -> (r: Option<Timestamp>)
        ensures
            r is Some <==> (-MAX_TIMESTAMP_SECS <= secs <= MAX_TIMESTAMP_SECS && nanos
                < 1_000_000_000),
            r matches Some(t) ==> t.seconds() == secs && t.subsec_nanos() == nanos,
    {
        if -MAX_TIMESTAMP_SECS <= secs && secs <= MAX_TIMESTAMP_SECS && nanos < 1_000_000_000 {
            Some(Timestamp { secs, nanos })
        } else {
            None
        }
    }

    pub fn secs(&self) -> (r: i64)
        ensures
            r == self.seconds(),
    {
        self.secs
    }

    pub fn nanos(&self) -> (r: u32)
        ensures
            r == self.subsec_nanos(),
    {
        self.nanos
    }

    pub fn copy(&self) -> (r: Timestamp)
        ensures
            r.seconds() == self.seconds(),
            r.subsec_nanos() == self.subsec_nanos(),
    {
        proof {
            use_type_invariant(self);
        }
        Timestamp { secs: self.secs, nanos: self.nanos }
    }
}

/// The RFC 3339 text of an instant, as `chrono::DateTime::<Utc>::to_rfc3339` writes it.
pub uninterp spec fn rfc3339_text(secs: int, nanos: int) -> Seq<char>;

/// `chrono::DateTime::from_timestamp(secs, nanos)` followed by `to_rfc3339`.
#[verifier::external_body]
fn rfc3339(secs: i64, nanos: u32) -> (r: String)
    requires
        -MAX_TIMESTAMP_SECS <= secs <= MAX_TIMESTAMP_SECS,
        nanos < 1_000_000_000,
    ensures
        r@ == rfc3339_text(secs as int, nanos as int),
{
    match chrono::DateTime::from_timestamp(secs, nanos) {
        Some(instant) => instant.to_rfc3339(),
        None => String::new(),
    }
}

/// The RFC 3339 text of a timestamp.
pub fn timestamp_text(t: &Timestamp) -> (r: String)
    ensures
        r@ == rfc3339_text(t.seconds(), t.subsec_nanos()),
{
    proof {
        use_type_invariant(t);
    }
    rfc3339(t.secs, t.nanos)
}

/// A single chat message stored for history.
pub struct ChatMessage {
    pub id: String,
    pub role: String,
    pub content: String,
    pub images: Vec<String>,
    pub timestamp: Timestamp,
    pub status: Option<String>,
}

/// One chat within a project (or the global workspace).
pub struct ChatSession {
    pub id: String,
    pub project_id: Option<String>,
    pub title: String,
    pub created_at: Timestamp,
    pub updated_at: Timestamp,
    pub messages: Vec<ChatMessage>,
}

// ---------------------------------------------------------------------------
// Markdown transcript
// ---------------------------------------------------------------------------

/// The heading used for a message's role.
pub open spec fn role_label(role: Seq<char>) -> Seq<char> {
    if role == "user"@ {
        "You"@
    } else if role == "assistant"@ {
        "Grok"@
    } else {
        "System"@
    }
}

/// `t` with carriage returns and line feeds replaced by spaces.
pub open spec fn one_line(t: Seq<char>) -> Seq<char> {
    t.map_values(|c: char| if c == '\r' || c == '\n' { ' ' } else { c })
}

/// The name shown for an attachment: its file name, or `attachment`.
pub open spec fn attachment_name(path: Seq<char>) -> Seq<char> {
    match file_name_of(path) {
        Some(n) => n,
        None => "attachment"@,
    }
}

/// One ``- `name` `` line per attachment.
pub open spec fn attachment_list(paths: Seq<Seq<char>>) -> Seq<char>
    decreases paths.len(),
{
    if paths.len() == 0 {
        seq![]
    } else {
        attachment_list(paths.drop_last()) + "- `"@ + attachment_name(paths.last()) + "`\n"@
    }
}

/// The Markdown of one message.
pub open spec fn message_markdown(m: ChatMessage) -> Seq<char> {
    "## "@ + role_label(m.role@) + "\n\n"@ + (if m.content@.len() > 0 {
        m.content@ + "\n\n"@
    } else {
        seq![]
    }) + (if m.images@.len() > 0 {
        "Attachments:\n\n"@ + attachment_list(str_views(m.images@)) + "\n"@
    } else {
        seq![]
    })
}

/// The Markdown of a sequence of messages.
pub open spec fn messages_markdown(ms: Seq<ChatMessage>) -> Seq<char>
    decreases ms.len(),
{
    if ms.len() == 0 {
        seq![]
    } else {
        messages_markdown(ms.drop_last()) + message_markdown(ms.last())
    }
}

/// The Markdown transcript of a chat: a title line, the creation and update
/// times, then each message under its role.
pub open spec fn transcript(s: ChatSession) -> Seq<char> {
    "# "@ + one_line(s.title@) + "\n\n- Created: "@ + rfc3339_text(
        s.created_at.seconds(),
        s.created_at.subsec_nanos(),
    ) + "\n- Updated: "@ + rfc3339_text(s.updated_at.seconds(), s.updated_at.subsec_nanos())
        + "\n\n"@ + messages_markdown(s.messages@)
}

fn one_line_exec(t: &str) -> (r: Vec<char>)
    ensures
        r@ == one_line(t@),
{
    let v = chars_of(t);
    let mut r: Vec<char> = Vec::new();
    let mut i: usize = 0;
    while i < v.len()
        invariant
            v@ == t@,
            i <= v.len(),
            r@ == one_line(v@.subrange(0, i as int)),
        decreases v.len() - i,
    {
        let c = if v[i] == '\r' || v[i] == '\n' { ' ' } else { v[i] };
        r.push(c);
        assert(one_line(v@.subrange(0, i + 1)) =~= one_line(v@.subrange(0, i as int)).push(c));
        i += 1;
    }
    assert(v@.subrange(0, v.len() as int) =~= v@);
    r
}

fn append_message_markdown(out: &mut Vec<char>, m: &ChatMessage)
    ensures
        final(out)@ == old(out)@ + message_markdown(*m),
{
    append_str(out, "## ");
    let role = chars_of(m.role.as_str());
    let label = if eq_str(&role, "user") {
        "You"
    } else if eq_str(&role, "assistant") {
        "Grok"
    } else {
        "System"
    };
    append_str(out, label);
    append_str(out, "\n\n");
    let ghost g1 = out@;
    let content = chars_of(m.content.as_str());
    if content.len() > 0 {
        append(out, &content);
        append_str(out, "\n\n");
    }
    let ghost g2 = out@;
    if m.images.len() > 0 {
        append_str(out, "Attachments:\n\n");
        let ghost g3 = out@;
        let mut k: usize = 0;
        while k < m.images.len()
            invariant
                k <= m.images.len(),
                out@ == g3 + attachment_list(str_views(m.images@).subrange(0, k as int)),
            decreases m.images.len() - k,
        {
            append_str(out, "- `");
            match file_name_str(m.images[k].as_str()) {
                Some(n) => append(out, &n),
                None => append_str(out, "attachment"),
            }
            append_str(out, "`\n");
            assert(str_views(m.images@).subrange(0, k + 1).drop_last() =~= str_views(
                m.images@,
            ).subrange(0, k as int));
            assert(out@ =~= g3 + attachment_list(str_views(m.images@).subrange(0, k + 1)));
            k += 1;
        }
        assert(str_views(m.images@).subrange(0, m.images.len() as int) =~= str_views(m.images@));
        append_str(out, "\n");
    }
    assert(out@ =~= old(out)@ + message_markdown(*m));
}

/// The Markdown transcript of a chat (see `transcript`).
pub fn chat_markdown(session: &ChatSession) -> (r: String)
    ensures
        r@ == transcript(*session),
{
    let mut out = chars_of("# ");
    let title = one_line_exec(session.title.as_str());
    append(&mut out, &title);
    append_str(&mut out, "\n\n- Created: ");
    let created = timestamp_text(&session.created_at);
    append_str(&mut out, created.as_str());
    append_str(&mut out, "\n- Updated: ");
    let updated = timestamp_text(&session.updated_at);
    append_str(&mut out, updated.as_str());
    append_str(&mut out, "\n\n");
    let ghost head = out@;
    let mut k: usize = 0;
    while k < session.messages.len()
        invariant
            k <= session.messages.len(),
            out@ == head + messages_markdown(session.messages@.subrange(0, k as int)),
        decreases session.messages.len() - k,
    {
        append_message_markdown(&mut out, &session.messages[k]);
        assert(session.messages@.subrange(0, k + 1).drop_last() =~= session.messages@.subrange(
            0,
            k as int,
        ));
        k += 1;
    }
    assert(session.messages@.subrange(0, session.messages.len() as int) =~= session.messages@);
    string_of(&out)
}

/// The error for an export destination, if any: blank, longer than 4096 bytes,
/// holding a NUL, or without the `.md` extension.
pub open spec fn export_destination_error(destination: Seq<char>) -> Option<Seq<char>> {
    if trim_ws(destination).len() == 0 || vstd::utf8::encode_utf8(destination).len() > 4096 || destination.contains('\0') {
        Some("Invalid export path"@)
    } else if (match file_name_of(destination) {
        Some(n) => extension_of(n),
        None => None,
    }) != Some("md"@) {
        Some("Chat exports must use a .md extension"@)
    } else {
        None
    }
}

fn has_nul(v: &Vec<char>) -> (r: bool)
    ensures
        r == v@.contains('\0'),
{
    let mut i: usize = 0;
    while i < v.len()
        invariant
            i <= v.len(),
            forall|j: int| 0 <= j < i ==> v@[j] != '\0',
        decreases v.len() - i,
    {
        if v[i] == '\0' {
            assert(v@[i as int] == '\0');
            return true;
        }
        i += 1;
    }
    false
}

/// Checks an export destination and gives the transcript to write there.
pub fn export_chat_markdown(session: &ChatSession, destination: &str) -> (r: Result<String, String>)
    ensures
        match export_destination_error(destination@) {
            Some(e) => r matches Err(x) && x@ == e,
            None => r matches Ok(t) && t@ == transcript(*session),
        },
{
    let d = chars_of(destination);
    let t = trim(&d);
    if t.len() == 0 || byte_len(destination) > 4096 || has_nul(&d) {
        return Err(String::from_str("Invalid export path"));
    }
    let ext_ok = match file_name(&d) {
        Some(n) => {
            let (_stem, ext) = split_extension(&n);
            match ext {
                Some(e) => eq_str(&e, "md"),
                None => false,
            }
        },
        None => false,
    };
    if !ext_ok {
        return Err(String::from_str("Chat exports must use a .md extension"));
    }
    Ok(chat_markdown(session))
}

/// The file name of a chat's history: the checked id followed by `.json`.
pub fn chat_file_name(chat_id: &str) -> (r: Result<String, String>)
    ensures
        match id_error(chat_id@, "chat"@) {
            Some(e) => r matches Err(x) && x@ == e,
            None => r matches Ok(n) && n@ == chat_id@ + ".json"@,
        },
{
    validate_id(chat_id, "chat")?;
    Ok(join2(chat_id, ".json"))
}

// ---------------------------------------------------------------------------
// Listing
// ---------------------------------------------------------------------------

/// A chat is listed for `project_id` when it belongs to that project, or, for
/// the global workspace (`None`), when it belongs to no project.
pub open spec fn listed_for(s: ChatSession, project_id: Option<Seq<char>>) -> bool {
    opt_view(s.project_id) == project_id
}

/// The chats listed for `project_id`, in their original order.
pub open spec fn chats_for(sessions: Seq<ChatSession>, project_id: Option<Seq<char>>) -> Seq<ChatSession>
    decreases sessions.len(),
{
    if sessions.len() == 0 {
        seq![]
    } else {
        chats_for(sessions.drop_last(), project_id) + (if listed_for(sessions.last(), project_id) {
            seq![sessions.last()]
        } else {
            seq![]
        })
    }
}

/// The listing key of a chat: later updates first.
pub open spec fn newest_first_key(s: ChatSession) -> Seq<i128> {
    seq![(-s.updated_at.seconds()) as i128, (-s.updated_at.subsec_nanos()) as i128]
}

/// The listing keys of a sequence of chats.
pub open spec fn newest_first_keys(ss: Seq<ChatSession>) -> Seq<Seq<i128>> {
    ss.map_values(|s: ChatSession| newest_first_key(s))
}

fn newest_first_key_exec(s: &ChatSession) -> (k: Vec<i128>)
    ensures
        k@ == newest_first_key(*s),
{
    let mut k: Vec<i128> = Vec::new();
    k.push(-(s.updated_at.secs() as i128));
    k.push(-(s.updated_at.nanos() as i128));
    assert(k@ =~= newest_first_key(*s));
    k
}

fn listed_for_exec(s: &ChatSession, project_id: Option<&str>) -> (r: bool)
    ensures
        r == listed_for(*s, crate::session::opt_str_view(project_id)),
{
    match (&s.project_id, project_id) {
        (Some(a), Some(b)) => {
            let av = chars_of(a.as_str());
            eq_str(&av, b)
        },
        (None, None) => true,
        _ => false,
    }
}

/// The chats of a project (or of the global workspace for `None`), most
/// recently updated first; chats updated at the same instant keep their order.
pub fn select_chats(sessions: Vec<ChatSession>, project_id: Option<&str>) -> (r: Vec<ChatSession>)
    ensures
        stably_sorted(
            chats_for(sessions@, crate::session::opt_str_view(project_id)),
            newest_first_keys(chats_for(sessions@, crate::session::opt_str_view(project_id))),
            r@,
        ),
{
    let ghost pid = crate::session::opt_str_view(project_id);
    let ghost orig = sessions@;
    let mut rest = sessions;
    let mut kept: Vec<ChatSession> = Vec::new();
    let mut keys: Vec<Vec<i128>> = Vec::new();
    let n = rest.len();
    let mut i: usize = 0;
    while i < n
        invariant
            n == orig.len(),
            i <= n,
            pid == crate::session::opt_str_view(project_id),
            rest@ == orig.subrange(i as int, n as int),
            kept@ == chats_for(orig.subrange(0, i as int), pid),
            keys@.len() == kept@.len(),
            forall|j: int| 0 <= j < keys@.len() ==> #[trigger] keys@[j]@ == newest_first_key(kept@[j]),
        decreases n - i,
    {
        let s = rest.remove(0);
        assert(s == orig[i as int]);
        let ghost sg = s;
        assert(orig.subrange(0, i + 1).drop_last() =~= orig.subrange(0, i as int));
        assert(orig.subrange(0, i + 1).last() == sg);
        if listed_for_exec(&s, project_id) {
            let k = newest_first_key_exec(&s);
            kept.push(s);
            keys.push(k);
        }
        assert(kept@ =~= chats_for(orig.subrange(0, i + 1), pid));
        assert(rest@ =~= orig.subrange(i + 1, n as int));
        i += 1;
    }
    assert(orig.subrange(0, n as int) =~= orig);
    assert(keys@.map_values(|k: Vec<i128>| k@) =~= newest_first_keys(kept@));
    stable_sort(kept, keys)
}

// ---------------------------------------------------------------------------
// New chats and new messages
// ---------------------------------------------------------------------------

/// Largest number of messages kept in one chat.
pub const MAX_CHAT_MESSAGES: usize = 2000;

/// Largest size of one message, in bytes.
pub const MAX_MESSAGE_CHARS: usize = 500000;

/// A new, empty chat. Its title is `New Chat` unless one is given; the chat id
/// and the project id (when there is one) must be file-name safe.
pub fn new_chat(
    id: String,
    project_id: Option<String>,
    title: Option<String>,
    now: &Timestamp,
) -> (r: Result<ChatSession, String>)
    ensures
        match id_error(id@, "chat"@) {
            Some(e) => r matches Err(x) && x@ == e,
            None => match project_id {
                Some(p) => match id_error(p@, "project"@) {
                    Some(e) => r matches Err(x) && x@ == e,
                    None => r is Ok,
                },
                None => r is Ok,
            },
        },
        r matches Ok(s) ==> {
            &&& s.id@ == id@
            &&& opt_view(s.project_id) == opt_view(project_id)
            &&& s.title@ == (match title {
                Some(t) => t@,
                None => "New Chat"@,
            })
            &&& s.created_at.seconds() == now.seconds()
            &&& s.created_at.subsec_nanos() == now.subsec_nanos()
            &&& s.updated_at.seconds() == now.seconds()
            &&& s.updated_at.subsec_nanos() == now.subsec_nanos()
            &&& s.messages@.len() == 0
        },
{
    validate_id(id.as_str(), "chat")?;
    if let Some(p) = &project_id {
        validate_id(p.as_str(), "project")?;
    }
    let title = match title {
        Some(t) => t,
        None => String::from_str("New Chat"),
    };
    Ok(ChatSession {
        id,
        project_id,
        title,
        created_at: now.copy(),
        updated_at: now.copy(),
        messages: Vec::new(),
    })
}

/// A role that a stored message may have.
pub open spec fn known_role(role: Seq<char>) -> bool {
    role == "user"@ || role == "assistant"@ || role == "system"@
}

/// The error for a message to append, if any: the chat id and message id
/// checks, an unknown role (compared in lower case), content over 500000 bytes,
/// or more than 16 attachments.
pub open spec fn new_message_error(
    chat_id: Seq<char>,
    message_id: Seq<char>,
    role: Seq<char>,
    content: Seq<char>,
    images: nat,
) -> Option<Seq<char>> {
    match id_error(chat_id, "chat"@) {
        Some(e) => Some(e),
        None => match uuid_id_error(message_id, "message"@) {
            Some(e) => Some(e),
            None => if !known_role(unicode_lowercase(role)) {
                Some("Invalid message role"@)
            } else if vstd::utf8::encode_utf8(content).len() > MAX_MESSAGE_CHARS {
                Some("Message too large to persist"@)
            } else if images > 16 {
                Some("Too many attachments"@)
            } else {
                None
            },
        },
    }
}

/// Checks a message before it is appended; gives the lower-cased role.
pub fn check_new_message(
    chat_id: &str,
    message_id: &str,
    role: &str,
    content: &str,
    image_count: usize,
) -> (r: Result<String, String>)
    ensures
        match new_message_error(chat_id@, message_id@, role@, content@, image_count as nat) {
            Some(e) => r matches Err(x) && x@ == e,
            None => r matches Ok(l) && l@ == unicode_lowercase(role@),
        },
{
    validate_id(chat_id, "chat")?;
    validate_uuid_id(message_id, "message")?;
    let lower = to_lowercase(role);
    let lv = chars_of(lower.as_str());
    if !(eq_str(&lv, "user") || eq_str(&lv, "assistant") || eq_str(&lv, "system")) {
        return Err(String::from_str("Invalid message role"));
    }
    if byte_len(content) > MAX_MESSAGE_CHARS {
        return Err(String::from_str("Message too large to persist"));
    }
    if image_count > 16 {
        return Err(String::from_str("Too many attachments"));
    }
    Ok(lower)
}

/// The content of the first user message, if any.
pub open spec fn first_user_content(ms: Seq<ChatMessage>) -> Option<Seq<char>>
    decreases ms.len(),
{
    if ms.len() == 0 {
        None
    } else if ms[0].role@ == "user"@ {
        Some(ms[0].content@)
    } else {
        first_user_content(ms.drop_first())
    }
}

/// The title after a message was appended: a chat still titled `New Chat`
/// takes the first 48 characters of its first user message, unless they are blank.
pub open spec fn auto_title(title: Seq<char>, ms: Seq<ChatMessage>) -> Seq<char> {
    if title == "New Chat"@ {
        match first_user_content(ms) {
            Some(c) => {
                let t = if c.len() > 48 { c.take(48) } else { c };
                if trim_ws(t).len() > 0 {
                    t
                } else {
                    title
                }
            },
            None => title,
        }
    } else {
        title
    }
}

fn find_first_user(ms: &Vec<ChatMessage>) -> (r: Option<usize>)
    ensures
        match r {
            Some(i) => i < ms@.len() && first_user_content(ms@) == Some(ms@[i as int].content@),
            None => first_user_content(ms@) is None,
        },
{
    let mut i: usize = 0;
    assert(ms@.skip(0) =~= ms@);
    while i < ms.len()
        invariant
            i <= ms@.len(),
            first_user_content(ms@) == first_user_content(ms@.skip(i as int)),
        decreases ms.len() - i,
    {
        let role = chars_of(ms[i].role.as_str());
        assert(ms@.skip(i as int)[0] == ms@[i as int]);
        if eq_str(&role, "user") {
            return Some(i);
        }
        assert(ms@.skip(i as int).drop_first() =~= ms@.skip(i + 1));
        i += 1;
    }
    assert(ms@.skip(i as int) =~= Seq::<ChatMessage>::empty());
    None
}

fn has_message_id(ms: &Vec<ChatMessage>, id: &str) -> (r: bool)
    ensures
        r == exists|i: int| 0 <= i < ms@.len() && (#[trigger] ms@[i]).id@ == id@,
{
    let mut i: usize = 0;
    while i < ms.len()
        invariant
            i <= ms@.len(),
            forall|j: int| 0 <= j < i ==> (#[trigger] ms@[j]).id@ != id@,
        decreases ms.len() - i,
    {
        let v = chars_of(ms[i].id.as_str());
        if eq_str(&v, id) {
            return true;
        }
        i += 1;
    }
    false
}

/// No two messages share an id.
pub open spec fn distinct_message_ids(ms: Seq<ChatMessage>) -> bool {
    forall|a: int, b: int| 0 <= a < b < ms.len() ==> (#[trigger] ms[a]).id@ != (#[trigger] ms[b]).id@
}

/// `r` is what appending `message` to `session` at `now` gives (see
/// `append_message`).
pub open spec fn appended(
    session: ChatSession,
    message: ChatMessage,
    now: Timestamp,
    r: Result<ChatSession, String>,
) -> bool {
    let known = exists|i: int|
        0 <= i < session.messages@.len() && (#[trigger] session.messages@[i]).id@ == message.id@;
    if known {
        r == Ok::<ChatSession, String>(session)
    } else if session.messages@.len() > MAX_CHAT_MESSAGES {
        r matches Err(e) && e@ == "Chat history limit reached; start a new chat"@
    } else {
        r matches Ok(s) && {
            &&& s.id == session.id
            &&& s.project_id == session.project_id
            &&& s.created_at == session.created_at
            &&& s.messages@ == session.messages@.push(message)
            &&& s.title@ == auto_title(session.title@, session.messages@.push(message))
            &&& s.updated_at.seconds() == now.seconds()
            &&& s.updated_at.subsec_nanos() == now.subsec_nanos()
        }
    }
}

/// Appends a checked message to a chat. Appending a message whose id the chat
/// already holds changes nothing (a retried request); a chat that already holds
/// more than 2000 messages refuses new ones. Otherwise the message is added,
/// the title is filled in (see `auto_title`) and the update time set to `now`.
pub fn append_message(session: ChatSession, message: ChatMessage, now: &Timestamp) -> (r: Result<
    ChatSession,
    String,
>)
    ensures
        appended(session, message, *now, r),
{
    if has_message_id(&session.messages, message.id.as_str()) {
        return Ok(session);
    }
    if session.messages.len() > MAX_CHAT_MESSAGES {
        return Err(String::from_str("Chat history limit reached; start a new chat"));
    }
    let ChatSession { id, project_id, title, created_at, updated_at: _, messages } = session;
    let mut messages = messages;
    messages.push(message);
    let tv = chars_of(title.as_str());
    let mut new_title = title;
    if eq_str(&tv, "New Chat") {
        match find_first_user(&messages) {
            Some(i) => {
                let c = chars_of(messages[i].content.as_str());
                let n = if c.len() > 48 { 48 } else { c.len() };
                let t = slice(&c, 0, n);
                assert(t@ =~= (if c@.len() > 48 { c@.take(48) } else { c@ }));
                let tt = trim(&t);
                if tt.len() > 0 {
                    new_title = string_of(&t);
                }
            },
            None => {},
        }
    }
    Ok(ChatSession {
        id,
        project_id,
        title: new_title,
        created_at,
        updated_at: now.copy(),
        messages,
    })
}

/// Checks one message of a chat being saved, given the content bytes of the
/// messages before it; gives the new running total. A message fails when the
/// running total passes 2000000 bytes, when it is over 500000 bytes itself, when
/// its role is unknown, or when it has more than 16 attachments.
pub fn check_saved_message(m: &ChatMessage, total_before: usize) -> (r: Result<usize, String>)
    ensures
        ({
            let total = if total_before + encode_len(*m) > usize::MAX {
                usize::MAX as int
            } else {
                total_before + encode_len(*m)
            };
            if total > 4 * MAX_MESSAGE_CHARS {
                r matches Err(e) && e@ == "Chat payload too large"@
            } else if encode_len(*m) > MAX_MESSAGE_CHARS {
                r matches Err(e) && e@ == "Message too large"@
            } else if !known_role(m.role@) {
                r matches Err(e) && e@ == "Invalid message role"@
            } else if m.images@.len() > 16 {
                r matches Err(e) && e@ == "Too many attachments in a message"@
            } else {
                r == Ok::<usize, String>(total as usize)
            }
        }),
{
    let len = byte_len(m.content.as_str());
    let total = total_before.saturating_add(len);
    if total > 4 * MAX_MESSAGE_CHARS {
        return Err(String::from_str("Chat payload too large"));
    }
    if len > MAX_MESSAGE_CHARS {
        return Err(String::from_str("Message too large"));
    }
    let role = chars_of(m.role.as_str());
    if !(eq_str(&role, "user") || eq_str(&role, "assistant") || eq_str(&role, "system")) {
        return Err(String::from_str("Invalid message role"));
    }
    if m.images.len() > 16 {
        return Err(String::from_str("Too many attachments in a message"));
    }
    Ok(total)
}

/// The content size of a message, in bytes.
pub open spec fn encode_len(m: ChatMessage) -> int {
    vstd::utf8::encode_utf8(m.content@).len() as int
}

} // verus!
