//! The Agent Client Protocol spoken with `grok agent stdio`: the JSON-RPC
//! messages the application sends, and what it makes of the messages it
//! receives.
//!
//! Writing and reading the lines is left to the caller, which hands in the
//! parsed messages.

use vstd::prelude::*;
use crate::json::{
    array_at, bool_at, get_spec, i64_at, int_value, is_text, member, object1, object2, object3,
    object4, object_named, pointer_spec, str_at, text_value, Json,
};
use crate::text::{append_str, chars_of, eq_str, is_ws, string_of, whitespace};
use vstd::string::StringSliceAdditionalSpecFns;

verus! {

// ---------------------------------------------------------------------------
// Authentication and extension requests
// ---------------------------------------------------------------------------

/// The ids of the authentication methods `ms`, in order (items without a
/// string id are skipped).
pub open spec fn method_ids(ms: Seq<Json>) -> Seq<Seq<char>>
    decreases ms.len(),
{
    if ms.len() == 0 {
        Seq::empty()
    } else {
        method_ids(ms.drop_last()) + match str_at(ms.last(), "id"@) {
            Some(id) => seq![id],
            None => Seq::empty(),
        }
    }
}

/// The authentication method to use after `initialize`: the agent's preferred
/// one if it offers it, else `cached_token` if offered, else the first offered;
/// none when the reply lists no methods.
pub open spec fn auth_choice(init: Json) -> Option<Seq<char>> {
    match array_at(init, "authMethods"@) {
        None => None,
        Some(ms) => {
            let ids = method_ids(ms);
            let preferred = match get_spec(init, "_meta"@) {
                Some(m) => str_at(m, "defaultAuthMethodId"@),
                None => None,
            };
            if preferred is Some && ids.contains(preferred->0) {
                preferred
            } else if ids.contains("cached_token"@) {
                Some("cached_token"@)
            } else if ids.len() > 0 {
                Some(ids[0])
            } else {
                None
            }
        },
    }
}

fn contains_text(ids: &Vec<Vec<char>>, t: &str) -> (r: bool)
    ensures
        r == crate::text::views(ids@).contains(t@),
{
    let ghost vs = crate::text::views(ids@);
    let mut i: usize = 0;
    while i < ids.len()
        invariant
            i <= ids.len(),
            vs == crate::text::views(ids@),
            forall|j: int| 0 <= j < i ==> vs[j] != t@,
        decreases ids.len() - i,
    {
        if eq_str(&ids[i], t) {
            assert(vs[i as int] == t@);
            return true;
        }
        i += 1;
    }
    false
}

/// Chooses how to authenticate after `initialize` (see `auth_choice`).
pub fn select_auth_method(initialize: &Json) -> (r: Option<String>)
    ensures
        crate::session::opt_view(r) == auth_choice(*initialize),
{
    let ms = match initialize.array_at("authMethods") {
        Some(m) => m,
        None => {
            return None;
        },
    };
    let mut ids: Vec<Vec<char>> = Vec::new();
    let mut i: usize = 0;
    while i < ms.len()
        invariant
            i <= ms.len(),
            crate::text::views(ids@) == method_ids(ms@.take(i as int)),
        decreases ms.len() - i,
    {
        assert(ms@.take(i + 1).drop_last() =~= ms@.take(i as int));
        assert(ms@.take(i + 1).last() == ms@[i as int]);
        let ghost before = crate::text::views(ids@);
        match ms[i].str_at("id") {
            Some(id) => {
                ids.push(chars_of(id));
                assert(crate::text::views(ids@) =~= before.push(id@));
            },
            None => {},
        }
        assert(crate::text::views(ids@) =~= method_ids(ms@.take(i + 1)));
        i += 1;
    }
    assert(ms@.take(ms.len() as int) =~= ms@);
    let preferred = match initialize.get("_meta") {
        Some(m) => m.str_at("defaultAuthMethodId"),
        None => None,
    };
    match preferred {
        Some(p) => {
            if contains_text(&ids, p) {
                return Some(String::from_str(p));
            }
        },
        None => {},
    }
    if contains_text(&ids, "cached_token") {
        return Some(String::from_str("cached_token"));
    }
    if ids.len() > 0 {
        assert(crate::text::views(ids@)[0] == ids@[0]@);
        return Some(string_of(&ids[0]));
    }
    None
}

/// The payload of an extension reply: its `result` member, or the reply itself.
pub fn unwrap_extension_result(value: Json) -> (r: Json)
    ensures
        r == match get_spec(value, "result"@) {
            Some(v) => v,
            None => value,
        },
{
    crate::json::into_member_or_self(value, "result")
}

/// The JSON-RPC method of a vendor extension: the method behind `_`; an error
/// for an empty method, one that already begins with `_`, or one holding white
/// space.
pub fn extension_wire_method(method: &str) -> (r: Result<String, String>)
    ensures
        (method@.len() == 0 || method@[0] == '_' || exists|i: int| 0 <= i < method@.len() && is_ws(
            #[trigger] method@[i],
        )) ==> (r matches Err(e) && e@ == "Invalid ACP extension method"@),
        !(method@.len() == 0 || method@[0] == '_' || exists|i: int| 0 <= i < method@.len() && is_ws(
            #[trigger] method@[i],
        )) ==> (r matches Ok(m) && m@ == "_"@ + method@),
{
    let v = chars_of(method);
    let mut bad = v.len() == 0 || v[0] == '_';
    let mut i: usize = 0;
    while i < v.len() && !bad
        invariant
            i <= v.len(),
            v@ == method@,
            bad ==> (v@.len() == 0 || v@[0] == '_' || exists|k: int| 0 <= k < v@.len() && is_ws(
                #[trigger] v@[k],
            )),
            !bad ==> (v@.len() > 0 && v@[0] != '_' && forall|k: int| 0 <= k < i ==> !is_ws(
                #[trigger] v@[k],
            )),
        decreases v.len() - i,
    {
        if whitespace(v[i]) {
            bad = true;
        }
        i += 1;
    }
    if bad {
        return Err(String::from_str("Invalid ACP extension method"));
    }
    Ok(crate::text::join2("_", method))
}

// ---------------------------------------------------------------------------
// Messages sent to the agent
// ---------------------------------------------------------------------------

/// `r` is the JSON-RPC request `id` for `method` with `params`.
pub open spec fn is_request(r: Json, id: i64, method: Seq<char>, params: Json) -> bool {
    &&& object_named(r, seq!["jsonrpc"@, "id"@, "method"@, "params"@])
    &&& is_text(member(r, 0), "2.0"@)
    &&& crate::json::i64_spec(member(r, 1)) == Some(id)
    &&& is_text(member(r, 2), method)
    &&& member(r, 3) == params
}

/// A JSON-RPC request (see `is_request`).
pub fn rpc_request(id: i64, method: &str, params: Json) -> (r: Json)
    ensures
        is_request(r, id, method@, params),
{
    object4("jsonrpc", text_value("2.0"), "id", int_value(id), "method", text_value(method), "params", params)
}

/// `c` is the client capabilities announced: no file access, no terminal.
pub open spec fn is_client_capabilities(c: Json) -> bool {
    &&& object_named(c, seq!["fs"@, "terminal"@])
    &&& object_named(member(c, 0), seq!["readTextFile"@, "writeTextFile"@])
    &&& member(member(c, 0), 0) == Json::Bool(false)
    &&& member(member(c, 0), 1) == Json::Bool(false)
    &&& member(c, 1) == Json::Bool(false)
}

fn client_capabilities() -> (r: Json)
    ensures
        is_client_capabilities(r),
{
    let fs = object2("readTextFile", Json::Bool(false), "writeTextFile", Json::Bool(false));
    object2("fs", fs, "terminal", Json::Bool(false))
}

/// `p` is the parameters of `initialize`: protocol version `"1"` (as text),
/// the client capabilities, and `_meta` naming the desktop client and its version.
pub open spec fn is_initialize_params(p: Json, client_version: Seq<char>) -> bool {
    &&& object_named(p, seq!["protocolVersion"@, "clientCapabilities"@, "_meta"@])
    &&& is_text(member(p, 0), "1"@)
    &&& is_client_capabilities(member(p, 1))
    &&& object_named(member(p, 2), seq!["clientType"@, "clientVersion"@])
    &&& is_text(member(member(p, 2), 0), "desktop"@)
    &&& is_text(member(member(p, 2), 1), client_version)
}

/// The parameters of `initialize` (see `is_initialize_params`), for chat
/// turns and extension requests alike.
pub fn initialize_params(client_version: &str) -> (r: Json)
    ensures
        is_initialize_params(r, client_version@),
{
    let meta = object2("clientType", text_value("desktop"), "clientVersion", text_value(client_version));
    object3("protocolVersion", text_value("1"), "clientCapabilities", client_capabilities(), "_meta", meta)
}

/// `p` is the parameters of `authenticate` with the method `method_id`.
pub open spec fn is_authenticate_params(p: Json, method_id: Seq<char>) -> bool {
    object_named(p, seq!["methodId"@]) && is_text(member(p, 0), method_id)
}

/// The parameters of `authenticate`.
pub fn authenticate_params(method_id: &str) -> (r: Json)
    ensures
        is_authenticate_params(r, method_id@),
{
    object1("methodId", text_value(method_id))
}

/// The parameters of the retention extension request.
pub fn retention_params(opt_out: bool) -> (r: Json)
    ensures
        object_named(r, seq!["codingDataRetentionOptOut"@]),
        member(r, 0) == Json::Bool(opt_out),
{
    object1("codingDataRetentionOptOut", Json::Bool(opt_out))
}

/// `p` is the parameters of `session/load`: the session, the folder and no
/// MCP servers.
pub open spec fn is_load_params(p: Json, session_id: Seq<char>, cwd: Seq<char>) -> bool {
    &&& object_named(p, seq!["sessionId"@, "cwd"@, "mcpServers"@])
    &&& is_text(member(p, 0), session_id)
    &&& is_text(member(p, 1), cwd)
    &&& member(p, 2) matches Json::Array(a) && a@.len() == 0
}

/// The parameters of `session/load` (see `is_load_params`).
pub fn load_session_params(session_id: &str, cwd: &str) -> (r: Json)
    ensures
        is_load_params(r, session_id@, cwd@),
{
    object3(
        "sessionId",
        text_value(session_id),
        "cwd",
        text_value(cwd),
        "mcpServers",
        Json::Array(Vec::new()),
    )
}

/// `p` is the parameters of `session/new`: the folder, no MCP servers, and
/// the rules.
pub open spec fn is_new_session_params(p: Json, cwd: Seq<char>, rules: Seq<char>) -> bool {
    &&& object_named(p, seq!["cwd"@, "mcpServers"@, "_meta"@])
    &&& is_text(member(p, 0), cwd)
    &&& member(p, 1) matches Json::Array(a) && a@.len() == 0
    &&& object_named(member(p, 2), seq!["rules"@])
    &&& is_text(member(member(p, 2), 0), rules)
}

/// The parameters of `session/new` (see `is_new_session_params`).
pub fn new_session_params(cwd: &str, rules: &str) -> (r: Json)
    ensures
        is_new_session_params(r, cwd@, rules@),
{
    object3(
        "cwd",
        text_value(cwd),
        "mcpServers",
        Json::Array(Vec::new()),
        "_meta",
        object1("rules", text_value(rules)),
    )
}

/// The parameters of `session/prompt`: the session and one text block.
pub fn prompt_params(session_id: &str, prompt: &str) -> (r: Json)
    ensures
        object_named(r, seq!["sessionId"@, "prompt"@]),
        is_text(member(r, 0), session_id@),
        member(r, 1) matches Json::Array(a) && a@.len() == 1 && object_named(a@[0], seq!["type"@, "text"@])
            && is_text(member(a@[0], 0), "text"@) && is_text(member(a@[0], 1), prompt@),
{
    let block = object2("type", text_value("text"), "text", text_value(prompt));
    let mut blocks: Vec<Json> = Vec::new();
    blocks.push(block);
    object2("sessionId", text_value(session_id), "prompt", Json::Array(blocks))
}

/// The answer to a permission request `rpc_id`: the chosen option, or
/// `cancelled` when there is none.
pub fn permission_reply(rpc_id: Json, decision: Option<String>) -> (r: Json)
    ensures
        object_named(r, seq!["jsonrpc"@, "id"@, "result"@]),
        is_text(member(r, 0), "2.0"@),
        member(r, 1) == rpc_id,
        object_named(member(r, 2), seq!["outcome"@]),
        match decision {
            Some(o) => object_named(member(member(r, 2), 0), seq!["outcome"@, "optionId"@])
                && is_text(member(member(member(r, 2), 0), 0), "selected"@) && is_text(
                member(member(member(r, 2), 0), 1),
                o@,
            ),
            None => object_named(member(member(r, 2), 0), seq!["outcome"@]) && is_text(
                member(member(member(r, 2), 0), 0),
                "cancelled"@,
            ),
        },
{
    let outcome = match decision {
        Some(o) => object2("outcome", text_value("selected"), "optionId", text_value(o.as_str())),
        None => object1("outcome", text_value("cancelled")),
    };
    object3("jsonrpc", text_value("2.0"), "id", rpc_id, "result", object1("outcome", outcome))
}

// ---------------------------------------------------------------------------
// Messages received from the agent
// ---------------------------------------------------------------------------

/// What a message means to a caller waiting for the reply to request `id`.
pub enum RpcReply {
    /// Not the reply to that request.
    Unrelated,
    /// The request failed with this error.
    Failed(Json),
    /// The request's result (`null` when the reply has none).
    Answered(Json),
}

/// Reads a message while waiting for the reply to request `expected_id`.
pub fn rpc_reply(value: Json, expected_id: i64) -> (r: RpcReply)
    ensures
        i64_at(value, "id"@) != Some(expected_id) ==> r is Unrelated,
        i64_at(value, "id"@) == Some(expected_id) ==> match get_spec(value, "error"@) {
            Some(e) => r == RpcReply::Failed(e),
            None => r == RpcReply::Answered(
                match get_spec(value, "result"@) {
                    Some(x) => x,
                    None => Json::Null,
                },
            ),
        },
{
    if value.i64_at("id") != Some(expected_id) {
        return RpcReply::Unrelated;
    }
    if value.get("error").is_some() {
        return RpcReply::Failed(crate::json::into_member(value, "error"));
    }
    RpcReply::Answered(crate::json::into_member(value, "result"))
}

/// Whether the `initialize` reply says the agent can load sessions.
pub open spec fn can_load(initialized: Json) -> bool {
    match pointer_spec(initialized, seq!["agentCapabilities"@, "loadSession"@]) {
        Some(Json::Bool(b)) => b,
        _ => false,
    }
}

/// Whether the agent can reload an earlier session.
pub fn can_load_session(initialized: &Json) -> (r: bool)
    ensures
        r == can_load(*initialized),
{
    proof {
        let keys = seq!["agentCapabilities"@, "loadSession"@];
        assert(keys.drop_first() =~= seq!["loadSession"@]);
        assert(keys.drop_first().drop_first() =~= Seq::<Seq<char>>::empty());
        reveal_with_fuel(pointer_spec, 3);
    }
    match initialized.get("agentCapabilities") {
        Some(c) => match c.bool_at("loadSession") {
            Some(b) => b,
            None => false,
        },
        None => false,
    }
}

/// The key under which a chat's agent session is remembered: the chat id, or
/// `cwd:{folder}` without one.
pub fn acp_chat_key(chat_id: Option<&str>, cwd: &str) -> (r: String)
    ensures
        r@ == match chat_id {
            Some(c) => c@,
            None => "cwd:"@ + cwd@,
        },
{
    match chat_id {
        Some(c) => String::from_str(c),
        None => crate::text::join2("cwd:", cwd),
    }
}

/// The id of the session created by `session/new`, if its result names one.
pub fn created_session_id(result: &Json) -> (r: Option<String>)
    ensures
        crate::session::opt_view(r) == str_at(*result, "sessionId"@),
{
    match result.str_at("sessionId") {
        Some(s) => Some(String::from_str(s)),
        None => None,
    }
}


// ---------------------------------------------------------------------------
// Opening a chat session
// ---------------------------------------------------------------------------

/// The request ids of the handshake and of the prompt that follows it.
pub const INITIALIZE_ID: i64 = 1;
pub const AUTHENTICATE_ID: i64 = 2;
pub const LOAD_ID: i64 = 3;
pub const NEW_SESSION_ID: i64 = 4;
pub const PROMPT_ID: i64 = 5;

/// What the handshake of a chat turn knows before it starts.
pub struct HandshakeContext {
    /// The session this chat used last time, if any.
    pub prior: Option<String>,
    /// The folder the session works in.
    pub cwd: String,
    /// The rules for a new session.
    pub rules: String,
    /// The client's version, announced in `initialize`.
    pub client_version: String,
}

/// Where the handshake stands: which reply it waits for, or how it ended.
pub enum HandshakeState {
    /// Waiting for the reply to `initialize`.
    Initializing,
    /// Waiting for the reply to `authenticate`; whether the agent can load sessions.
    Authenticating(bool),
    /// Waiting for the reply to `session/load` of this session.
    Loading(String),
    /// Waiting for the reply to `session/new`.
    Creating,
    /// The session to prompt.
    Ready(String),
    /// The handshake failed with this error.
    Failed(String),
}

/// What to do after a step of the handshake.
pub enum HandshakeAction {
    /// Send this request and come back with the reply to request `id`.
    Send { id: i64, request: Json },
    /// The session is open: prompt it.
    Done(String),
    /// The handshake failed with this error.
    Fail(String),
}

/// `a` sends the JSON-RPC request `id` for `method`.
pub open spec fn sends(a: HandshakeAction, id: i64, method: Seq<char>) -> bool {
    a matches HandshakeAction::Send { id: i, request } && i == id && is_request(
        request,
        id,
        method,
        member(request, 3),
    )
}

/// The parameters of the request that `a` sends.
pub open spec fn sent_params(a: HandshakeAction) -> Json {
    match a {
        HandshakeAction::Send { id, request } => member(request, 3),
        _ => Json::Null,
    }
}

/// `r` is the step that opens a session once the agent has been initialized
/// (and authenticated where it asked to be): load the prior session when the
/// agent can load sessions and there is one, else create a new session.
pub open spec fn opens_session(ctx: HandshakeContext, can_load: bool, r: (HandshakeState, HandshakeAction)) -> bool {
    match ctx.prior {
        Some(p) if can_load => {
            &&& r.0 matches HandshakeState::Loading(q) && q@ == p@
            &&& sends(r.1, LOAD_ID, "session/load"@)
            &&& is_load_params(sent_params(r.1), p@, ctx.cwd@)
        },
        _ => creates_session(ctx, r),
    }
}

/// `r` is the step that asks for a new session.
pub open spec fn creates_session(ctx: HandshakeContext, r: (HandshakeState, HandshakeAction)) -> bool {
    &&& r.0 is Creating
    &&& sends(r.1, NEW_SESSION_ID, "session/new"@)
    &&& is_new_session_params(sent_params(r.1), ctx.cwd@, ctx.rules@)
}

/// `r` ends the handshake with the error `e`.
pub open spec fn fails_with(r: (HandshakeState, HandshakeAction), e: Seq<char>) -> bool {
    &&& r.0 matches HandshakeState::Failed(f) && f@ == e
    &&& r.1 matches HandshakeAction::Fail(g) && g@ == e
}

/// `r` ends the handshake with the session `id`.
pub open spec fn opened(r: (HandshakeState, HandshakeAction), id: Seq<char>) -> bool {
    &&& r.0 matches HandshakeState::Ready(f) && f@ == id
    &&& r.1 matches HandshakeAction::Done(g) && g@ == id
}

/// The first step of the handshake: send `initialize` (see `is_initialize_params`).
pub fn acp_handshake_start(ctx: &HandshakeContext) -> (r: (HandshakeState, HandshakeAction))
    ensures
        r.0 is Initializing,
        sends(r.1, INITIALIZE_ID, "initialize"@),
        is_initialize_params(sent_params(r.1), ctx.client_version@),
{
    let params = initialize_params(ctx.client_version.as_str());
    let request = rpc_request(INITIALIZE_ID, "initialize", params);
    (HandshakeState::Initializing, HandshakeAction::Send { id: INITIALIZE_ID, request })
}

fn open_session(ctx: &HandshakeContext, can_load: bool) -> (r: (HandshakeState, HandshakeAction))
    ensures
        opens_session(*ctx, can_load, r),
{
    match &ctx.prior {
        Some(p) => {
            if can_load {
                let params = load_session_params(p.as_str(), ctx.cwd.as_str());
                let request = rpc_request(LOAD_ID, "session/load", params);
                return (
                    HandshakeState::Loading(String::from_str(p.as_str())),
                    HandshakeAction::Send { id: LOAD_ID, request },
                );
            }
        },
        None => {},
    }
    create_session(ctx)
}

fn create_session(ctx: &HandshakeContext) -> (r: (HandshakeState, HandshakeAction))
    ensures
        creates_session(*ctx, r),
{
    let params = new_session_params(ctx.cwd.as_str(), ctx.rules.as_str());
    let request = rpc_request(NEW_SESSION_ID, "session/new", params);
    (HandshakeState::Creating, HandshakeAction::Send { id: NEW_SESSION_ID, request })
}

fn fail(e: String) -> (r: (HandshakeState, HandshakeAction))
    ensures
        fails_with(r, e@),
{
    let copy = String::from_str(e.as_str());
    (HandshakeState::Failed(e), HandshakeAction::Fail(copy))
}

/// The next step of a chat turn's handshake, given the reply to the request
/// it waited for. After `initialize`, the agent's chosen authentication method
/// (`auth_choice`) is used when it lists one; then the prior session is loaded
/// when the agent can load sessions, and a new session is created when there
/// is none or loading it fails. An error reply to `initialize`,
/// `authenticate` or `session/new`, or a new session without an id, ends the
/// handshake. A finished handshake stays as it is.
pub fn acp_handshake_step(ctx: &HandshakeContext, state: HandshakeState, reply: Result<Json, String>) -> (r: (
    HandshakeState,
    HandshakeAction,
))
    ensures
        match state {
            HandshakeState::Initializing => match reply {
                Err(e) => fails_with(r, e@),
                Ok(init) => match auth_choice(init) {
                    Some(m) => {
                        &&& r.0 matches HandshakeState::Authenticating(c) && c == can_load(init)
                        &&& sends(r.1, AUTHENTICATE_ID, "authenticate"@)
                        &&& is_authenticate_params(sent_params(r.1), m)
                    },
                    None => opens_session(*ctx, can_load(init), r),
                },
            },
            HandshakeState::Authenticating(c) => match reply {
                Err(e) => fails_with(r, e@),
                Ok(_) => opens_session(*ctx, c, r),
            },
            HandshakeState::Loading(p) => match reply {
                Err(_) => creates_session(*ctx, r),
                Ok(_) => opened(r, p@),
            },
            HandshakeState::Creating => match reply {
                Err(e) => fails_with(r, e@),
                Ok(res) => match str_at(res, "sessionId"@) {
                    Some(id) => opened(r, id),
                    None => fails_with(r, "Grok ACP did not create a session."@),
                },
            },
            HandshakeState::Ready(id) => opened(r, id@),
            HandshakeState::Failed(e) => fails_with(r, e@),
        },
{
    match state {
        HandshakeState::Initializing => match reply {
            Err(e) => fail(e),
            Ok(init) => {
                let can = can_load_session(&init);
                match select_auth_method(&init) {
                    Some(m) => {
                        let params = authenticate_params(m.as_str());
                        let request = rpc_request(AUTHENTICATE_ID, "authenticate", params);
                        (
                            HandshakeState::Authenticating(can),
                            HandshakeAction::Send { id: AUTHENTICATE_ID, request },
                        )
                    },
                    None => open_session(ctx, can),
                }
            },
        },
        HandshakeState::Authenticating(c) => match reply {
            Err(e) => fail(e),
            Ok(_) => open_session(ctx, c),
        },
        HandshakeState::Loading(p) => match reply {
            Err(_) => create_session(ctx),
            Ok(_) => {
                let copy = String::from_str(p.as_str());
                (HandshakeState::Ready(p), HandshakeAction::Done(copy))
            },
        },
        HandshakeState::Creating => match reply {
            Err(e) => fail(e),
            Ok(res) => match created_session_id(&res) {
                Some(id) => {
                    let copy = String::from_str(id.as_str());
                    (HandshakeState::Ready(id), HandshakeAction::Done(copy))
                },
                None => fail(String::from_str("Grok ACP did not create a session.")),
            },
        },
        HandshakeState::Ready(id) => {
            let copy = String::from_str(id.as_str());
            (HandshakeState::Ready(id), HandshakeAction::Done(copy))
        },
        HandshakeState::Failed(e) => fail(e),
    }
}

// ---------------------------------------------------------------------------
// Permission requests
// ---------------------------------------------------------------------------

/// A choice offered by a permission request.
pub struct PermissionOptionPayload {
    pub id: String,
    pub name: String,
    pub kind: String,
}

/// A permission request as shown to the user.
pub struct PermissionRequestPayload {
    pub request_id: String,
    pub title: String,
    pub tool_call: Json,
    pub options: Vec<PermissionOptionPayload>,
}

/// A choice as id, name and kind.
pub type OptionView = (Seq<char>, Seq<char>, Seq<char>);

/// The tuple of a choice's fields.
pub open spec fn option_view(o: PermissionOptionPayload) -> OptionView {
    (o.id@, o.name@, o.kind@)
}

/// The choice an item of the request's `options` offers, when it has an id:
/// named `Choose` and of kind `allow_once` unless it says otherwise.
pub open spec fn option_of(item: Json) -> Option<OptionView> {
    match str_at(item, "optionId"@) {
        None => None,
        Some(id) => Some(
            (
                id,
                match str_at(item, "name"@) {
                    Some(n) => n,
                    None => "Choose"@,
                },
                match str_at(item, "kind"@) {
                    Some(k) => k,
                    None => "allow_once"@,
                },
            ),
        ),
    }
}

/// The choices offered by the items `items`, in order.
pub open spec fn options_in(items: Seq<Json>) -> Seq<OptionView>
    decreases items.len(),
{
    if items.len() == 0 {
        Seq::empty()
    } else {
        options_in(items.drop_last()) + match option_of(items.last()) {
            Some(o) => seq![o],
            None => Seq::empty(),
        }
    }
}

fn option_of_exec(item: &Json) -> (r: Option<PermissionOptionPayload>)
    ensures
        match r {
            Some(o) => option_of(*item) == Some(option_view(o)),
            None => option_of(*item) is None,
        },
{
    let id = match item.str_at("optionId") {
        Some(i) => i,
        None => {
            return None;
        },
    };
    let name = match item.str_at("name") {
        Some(n) => n,
        None => "Choose",
    };
    let kind = match item.str_at("kind") {
        Some(k) => k,
        None => "allow_once",
    };
    Some(
        PermissionOptionPayload {
            id: String::from_str(id),
            name: String::from_str(name),
            kind: String::from_str(kind),
        },
    )
}

/// The permission request in the parameters `params`, under the id
/// `request_id`: its tool call (`null` when missing), the tool call's title
/// (a generic one when missing), and the choices offered (see `options_in`).
pub fn permission_payload(params: Json, request_id: String) -> (r: PermissionRequestPayload)
    ensures
        r.request_id == request_id,
        r.tool_call == match get_spec(params, "toolCall"@) {
            Some(t) => t,
            None => Json::Null,
        },
        r.title@ == match str_at(r.tool_call, "title"@) {
            Some(t) => t,
            None => "Grok wants to perform an action"@,
        },
        r.options@.map_values(|o: PermissionOptionPayload| option_view(o)) == match array_at(
            params,
            "options"@,
        ) {
            Some(items) => options_in(items),
            None => Seq::empty(),
        },
{
    let mut options: Vec<PermissionOptionPayload> = Vec::new();
    match params.array_at("options") {
        Some(items) => {
            let mut i: usize = 0;
            while i < items.len()
                invariant
                    i <= items.len(),
                    options@.map_values(|o: PermissionOptionPayload| option_view(o)) == options_in(
                        items@.take(i as int),
                    ),
                decreases items.len() - i,
            {
                assert(items@.take(i + 1).drop_last() =~= items@.take(i as int));
                assert(items@.take(i + 1).last() == items@[i as int]);
                let ghost before = options@;
                match option_of_exec(&items[i]) {
                    Some(o) => {
                        options.push(o);
                        assert(options@.map_values(|o: PermissionOptionPayload| option_view(o))
                            =~= before.map_values(|o: PermissionOptionPayload| option_view(o)).push(
                            option_view(o),
                        ));
                    },
                    None => {},
                }
                assert(options@.map_values(|o: PermissionOptionPayload| option_view(o)) =~= options_in(
                    items@.take(i + 1),
                ));
                i += 1;
            }
            assert(items@.take(items.len() as int) =~= items@);
        },
        None => {
            assert(options@.map_values(|o: PermissionOptionPayload| option_view(o)) =~= Seq::<
                OptionView,
            >::empty());
        },
    }
    let tool_call = crate::json::into_member(params, "toolCall");
    let title = match tool_call.str_at("title") {
        Some(t) => String::from_str(t),
        None => String::from_str("Grok wants to perform an action"),
    };
    PermissionRequestPayload { request_id, title, tool_call, options }
}

// ---------------------------------------------------------------------------
// The stream of a prompt
// ---------------------------------------------------------------------------

/// What a message received while a prompt runs asks of the application.
pub enum StreamStep {
    /// The prompt finished for this reason.
    Finished(String),
    /// The prompt failed with this error.
    PromptFailed(Json),
    /// Show this piece of the answer.
    Chunk(String),
    /// Show this piece of the agent's reasoning.
    Thought(String),
    /// Show this activity as the status.
    Activity(String),
    /// Ask the user: the request's JSON-RPC id and what to show.
    Permission(Json, PermissionRequestPayload),
    /// A permission request came without an id.
    MissingPermissionId,
    /// Nothing to do.
    Ignored,
}

/// The text of a session update's content.
pub open spec fn update_text(update: Json) -> Option<Seq<char>> {
    match get_spec(update, "content"@) {
        Some(c) => str_at(c, "text"@),
        None => None,
    }
}

fn update_text_exec(update: &Json) -> (r: Option<&str>)
    ensures
        crate::session::opt_str_view(r) == update_text(*update),
{
    match update.get("content") {
        Some(c) => c.str_at("text"),
        None => None,
    }
}

/// `o`'s value, or `null`.
pub open spec fn or_null(o: Option<Json>) -> Json {
    match o {
        Some(j) => j,
        None => Json::Null,
    }
}

/// What the session update `update` asks: a piece of the answer or of the
/// reasoning (`[thought] ` before it), or an activity (its title, a generic one
/// when missing); nothing otherwise.
pub open spec fn update_step(update: Json) -> (int, Seq<char>) {
    let kind = str_at(update, "sessionUpdate"@);
    if kind == Some("agent_message_chunk"@) && update_text(update) is Some {
        (1, update_text(update)->0)
    } else if kind == Some("agent_thought_chunk"@) && update_text(update) is Some {
        (2, "[thought] "@ + update_text(update)->0)
    } else if kind == Some("tool_call"@) || kind == Some("tool_call_update"@) {
        (
            3,
            match str_at(update, "title"@) {
                Some(t) => t,
                None => "Running a project action\u{2026}"@,
            },
        )
    } else {
        (0, Seq::empty())
    }
}

/// The meaning of `step` as a kind and text, to compare with `update_step`.
pub open spec fn step_text(step: StreamStep) -> (int, Seq<char>) {
    match step {
        StreamStep::Chunk(t) => (1, t@),
        StreamStep::Thought(t) => (2, t@),
        StreamStep::Activity(t) => (3, t@),
        _ => (0, Seq::empty()),
    }
}

fn session_update_step(update: Json) -> (r: StreamStep)
    ensures
        step_text(r) == update_step(update),
        r is Chunk || r is Thought || r is Activity || r is Ignored,
{
    let kind = update.str_at("sessionUpdate");
    let is_kind = |k: &str| -> (b: bool)
        ensures
            b == (crate::session::opt_str_view(kind) == Some(k@)),
        {
            match kind {
                Some(x) => crate::text::str_is(x, k),
                None => false,
            }
        };
    let text = update_text_exec(&update);
    if is_kind("agent_message_chunk") && text.is_some() {
        return StreamStep::Chunk(String::from_str(text.unwrap()));
    }
    if is_kind("agent_thought_chunk") && text.is_some() {
        return StreamStep::Thought(crate::text::join2("[thought] ", text.unwrap()));
    }
    if is_kind("tool_call") || is_kind("tool_call_update") {
        return match update.str_at("title") {
            Some(t) => StreamStep::Activity(String::from_str(t)),
            None => StreamStep::Activity(String::from_str("Running a project action\u{2026}")),
        };
    }
    StreamStep::Ignored
}

/// `r` is what `stream_step` gives for `value` (see there).
pub open spec fn stream_step_of(value: Json, prompt_id: i64, request_id: String, r: StreamStep) -> bool {
    &&& (i64_at(value, "id"@) == Some(prompt_id) ==> match get_spec(value, "error"@) {
            Some(e) => r == StreamStep::PromptFailed(e),
            None => r matches StreamStep::Finished(reason) && reason@ == match pointer_spec(
                value,
                seq!["result"@, "stopReason"@],
            ) {
                Some(Json::Str(s)) => s@,
                _ => "end_turn"@,
            },
        })
    &&& (i64_at(value, "id"@) != Some(prompt_id) && str_at(value, "method"@) == Some(
            "session/update"@,
        ) ==> step_text(r) == update_step(
            or_null(pointer_spec(value, seq!["params"@, "update"@])),
        ) && (r is Chunk || r is Thought || r is Activity || r is Ignored))
    &&& (i64_at(value, "id"@) != Some(prompt_id) && str_at(value, "method"@) == Some(
            "session/request_permission"@,
        ) ==> match get_spec(value, "id"@) {
            None => r is MissingPermissionId,
            Some(id) => r matches StreamStep::Permission(rid, p) && rid == id && p.request_id
                == request_id && p.tool_call == or_null(
                pointer_spec(value, seq!["params"@, "toolCall"@]),
            ),
        })
    &&& (i64_at(value, "id"@) != Some(prompt_id) && str_at(value, "method"@) != Some(
            "session/update"@,
        ) && str_at(value, "method"@) != Some("session/request_permission"@) ==> r is Ignored)
}

/// What a message received while prompt `prompt_id` runs asks of the
/// application: the reply to the prompt ends it (with the stop reason at
/// `result.stopReason`, `end_turn` when missing) or fails it; a
/// `session/update` is shown (see `update_step`); a
/// `session/request_permission` is put to the user under `request_id`; the
/// rest is ignored.
pub fn stream_step(value: Json, prompt_id: i64, request_id: String) -> (r: StreamStep)
    ensures
        stream_step_of(value, prompt_id, request_id, r),
{
    proof {
        let a = seq!["result"@, "stopReason"@];
        let b = seq!["params"@, "update"@];
        let c = seq!["params"@, "toolCall"@];
        assert(a.drop_first() =~= seq!["stopReason"@]);
        assert(b.drop_first() =~= seq!["update"@]);
        assert(c.drop_first() =~= seq!["toolCall"@]);
        assert(a.drop_first().drop_first() =~= Seq::<Seq<char>>::empty());
        assert(b.drop_first().drop_first() =~= Seq::<Seq<char>>::empty());
        assert(c.drop_first().drop_first() =~= Seq::<Seq<char>>::empty());
        reveal_with_fuel(pointer_spec, 3);
        reveal_strlit("session/update");
        reveal_strlit("session/request_permission");
        assert("session/update"@ != "session/request_permission"@) by {
            assert("session/update"@.len() != "session/request_permission"@.len());
        }
    }
    if value.i64_at("id") == Some(prompt_id) {
        if value.get("error").is_some() {
            return StreamStep::PromptFailed(crate::json::into_member(value, "error"));
        }
        let reason = match value.get("result") {
            Some(res) => match res.str_at("stopReason") {
                Some(s) => String::from_str(s),
                None => String::from_str("end_turn"),
            },
            None => String::from_str("end_turn"),
        };
        return StreamStep::Finished(reason);
    }
    let method = value.str_at("method");
    let is_update = match method {
        Some(m) => crate::text::str_is(m, "session/update"),
        None => false,
    };
    let is_permission = match method {
        Some(m) => crate::text::str_is(m, "session/request_permission"),
        None => false,
    };
    if is_update {
        let params = crate::json::into_member(value, "params");
        let update = crate::json::into_member(params, "update");
        return session_update_step(update);
    }
    if is_permission {
        if value.get("id").is_none() {
            return StreamStep::MissingPermissionId;
        }
        let (id, params) = take_id_and_params(value);
        let payload = permission_payload(params, request_id);
        return StreamStep::Permission(id, payload);
    }
    StreamStep::Ignored
}

fn take_id_and_params(value: Json) -> (r: (Json, Json))
    requires
        get_spec(value, "id"@) is Some,
    ensures
        r.0 == get_spec(value, "id"@)->0,
        r.1 == or_null(get_spec(value, "params"@)),
{
    match value {
        Json::Object(mut es) => {
            let i = match crate::json::field_index_pub(&es, "id") {
                Some(i) => i,
                None => {
                    return (Json::Null, Json::Null);
                },
            };
            let p = crate::json::field_index_pub(&es, "params");
            proof {
                reveal_strlit("id");
                reveal_strlit("params");
                assert("id"@ != "params"@) by {
                    assert("id"@.len() != "params"@.len());
                }
            }
            match p {
                None => {
                    let (_, id) = es.remove(i);
                    (id, Json::Null)
                },
                Some(j) => {
                    if i < j {
                        let (_, params) = es.remove(j);
                        let (_, id) = es.remove(i);
                        (id, params)
                    } else {
                        let (_, id) = es.remove(i);
                        let (_, params) = es.remove(j);
                        (id, params)
                    }
                },
            }
        },
        Json::InlineTable(mut es) => {
            let i = match crate::json::field_index_pub(&es, "id") {
                Some(i) => i,
                None => {
                    return (Json::Null, Json::Null);
                },
            };
            let p = crate::json::field_index_pub(&es, "params");
            proof {
                reveal_strlit("id");
                reveal_strlit("params");
                assert("id"@ != "params"@) by {
                    assert("id"@.len() != "params"@.len());
                }
            }
            match p {
                None => {
                    let (_, id) = es.remove(i);
                    (id, Json::Null)
                },
                Some(j) => {
                    if i < j {
                        let (_, params) = es.remove(j);
                        let (_, id) = es.remove(i);
                        (id, params)
                    } else {
                        let (_, id) = es.remove(i);
                        let (_, params) = es.remove(j);
                        (id, params)
                    }
                },
            }
        },
        _ => (Json::Null, Json::Null),
    }
}

// ---------------------------------------------------------------------------
// Lines on the wire
// ---------------------------------------------------------------------------

/// The line that carries `message`: its JSON text and a line end.
pub fn message_line(message: &Json) -> (r: String)
    ensures
        r@ == crate::json::json_text_of(*message) + "\r\n"@,
{
    let mut text = crate::json::json_text(message);
    text.append("\r\n");
    text
}

/// Reads a line received while waiting for the reply to request
/// `expected_id` (see `rpc_reply`): a line that is not JSON is an error
/// (`Invalid Grok ACP response: ...`), another message is skipped (`None`),
/// an error reply fails with `failed`, a colon and the error's JSON text, and
/// a result is given back.
pub fn rpc_reply_line(line: &str, expected_id: i64, failed: &str) -> (r: Result<Option<Json>, String>)
    ensures
        match crate::json::json_tree(line.spec_bytes()) {
            Err(e) => r matches Err(m) && m@ == "Invalid Grok ACP response: "@ + e,
            Ok(v) => if i64_at(v, "id"@) != Some(expected_id) {
                r matches Ok(None)
            } else {
                match get_spec(v, "error"@) {
                    Some(e) => r matches Err(m) && m@ == failed@ + ": "@ + crate::json::json_text_of(e),
                    None => r == Ok::<Option<Json>, String>(
                        Some(
                            match get_spec(v, "result"@) {
                                Some(x) => x,
                                None => Json::Null,
                            },
                        ),
                    ),
                }
            },
        },
{
    let value = match crate::json::parse_json(line.as_bytes()) {
        Ok(v) => v,
        Err(e) => {
            return Err(crate::text::join2("Invalid Grok ACP response: ", e.as_str()));
        },
    };
    match rpc_reply(value, expected_id) {
        RpcReply::Unrelated => Ok(None),
        RpcReply::Failed(error) => {
            let text = crate::json::json_text(&error);
            Err(crate::text::join3(failed, ": ", text.as_str()))
        },
        RpcReply::Answered(result) => Ok(Some(result)),
    }
}

/// Reads a line received while prompt `prompt_id` runs (see `stream_step`): a
/// line that is not JSON is an error (`Invalid Grok ACP stream message: ...`).
pub fn stream_line_step(line: &str, prompt_id: i64, request_id: String) -> (r: Result<StreamStep, String>)
    ensures
        match crate::json::json_tree(line.spec_bytes()) {
            Err(e) => r matches Err(m) && m@ == "Invalid Grok ACP stream message: "@ + e,
            Ok(v) => r matches Ok(step) && stream_step_of(v, prompt_id, request_id, step),
        },
{
    match crate::json::parse_json(line.as_bytes()) {
        Ok(v) => Ok(stream_step(v, prompt_id, request_id)),
        Err(e) => Err(crate::text::join2("Invalid Grok ACP stream message: ", e.as_str())),
    }
}

/// The error of a failed prompt: `Grok ACP prompt failed: ` and the error's JSON text.
pub fn prompt_failure(error: &Json) -> (r: String)
    ensures
        r@ == "Grok ACP prompt failed: "@ + crate::json::json_text_of(*error),
{
    let text = crate::json::json_text(error);
    crate::text::join2("Grok ACP prompt failed: ", text.as_str())
}

} // verus!
