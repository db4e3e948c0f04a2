use grok_desktop::acp::{
    acp_handshake_start, acp_handshake_step, HandshakeAction, HandshakeContext, HandshakeState,
};
use grok_desktop::json::Json;

fn text(s: &str) -> Json {
    Json::Str(s.to_string())
}

fn object(pairs: Vec<(&str, Json)>) -> Json {
    Json::Object(pairs.into_iter().map(|(k, v)| (k.to_string(), v)).collect())
}

fn get<'a>(j: &'a Json, key: &str) -> &'a Json {
    match j {
        Json::Object(es) => &es.iter().find(|(k, _)| k == key).expect("member").1,
        _ => panic!("not an object"),
    }
}

fn sent(action: &HandshakeAction) -> (i64, String, &Json) {
    match action {
        HandshakeAction::Send { id, request } => {
            let method = match get(request, "method") {
                Json::Str(m) => m.clone(),
                _ => panic!("method"),
            };
            (*id, method, get(request, "params"))
        }
        _ => panic!("expected a request"),
    }
}

fn context(prior: Option<&str>) -> HandshakeContext {
    HandshakeContext {
        prior: prior.map(str::to_string),
        cwd: "/w".into(),
        rules: "be brief".into(),
        client_version: "0.7.0".into(),
    }
}

#[test]
fn initialize_announces_protocol_one_and_the_desktop_client() {
    let (state, action) = acp_handshake_start(&context(None));
    assert!(matches!(state, HandshakeState::Initializing));
    let (id, method, params) = sent(&action);
    assert_eq!((id, method.as_str()), (1, "initialize"));
    assert!(matches!(get(params, "protocolVersion"), Json::Str(v) if v == "1"));
    assert!(matches!(get(get(params, "_meta"), "clientType"), Json::Str(v) if v == "desktop"));
    let caps = get(params, "clientCapabilities");
    assert!(matches!(get(caps, "terminal"), Json::Bool(false)));
    assert!(matches!(get(get(caps, "fs"), "readTextFile"), Json::Bool(false)));
}

#[test]
fn authenticates_with_the_chosen_method_before_loading() {
    let ctx = context(Some("s-1"));
    let init = object(vec![
        ("agentCapabilities", object(vec![("loadSession", Json::Bool(true))])),
        ("authMethods", Json::Array(vec![object(vec![("id", text("cached_token"))])])),
    ]);
    let (state, action) = acp_handshake_step(&ctx, HandshakeState::Initializing, Ok(init));
    assert!(matches!(state, HandshakeState::Authenticating(true)));
    let (id, method, params) = sent(&action);
    assert_eq!((id, method.as_str()), (2, "authenticate"));
    assert!(matches!(get(params, "methodId"), Json::Str(m) if m == "cached_token"));
    let (state, action) = acp_handshake_step(&ctx, state, Ok(Json::Null));
    assert!(matches!(&state, HandshakeState::Loading(p) if p == "s-1"));
    assert_eq!(sent(&action).1, "session/load");
    let (state, action) = acp_handshake_step(&ctx, state, Ok(Json::Null));
    assert!(matches!(state, HandshakeState::Ready(_)));
    assert!(matches!(action, HandshakeAction::Done(id) if id == "s-1"));
}

#[test]
fn falls_back_to_a_new_session() {
    let ctx = context(Some("s-1"));
    let init = object(vec![("agentCapabilities", object(vec![("loadSession", Json::Bool(true))]))]);
    let (state, _) = acp_handshake_step(&ctx, HandshakeState::Initializing, Ok(init));
    let (state, action) = acp_handshake_step(&ctx, state, Err("gone".into()));
    assert!(matches!(state, HandshakeState::Creating));
    let (id, method, params) = sent(&action);
    assert_eq!((id, method.as_str()), (4, "session/new"));
    assert!(matches!(get(get(params, "_meta"), "rules"), Json::Str(r) if r == "be brief"));
    let (_, action) = acp_handshake_step(&ctx, state, Ok(object(vec![("sessionId", text("s-2"))])));
    assert!(matches!(action, HandshakeAction::Done(id) if id == "s-2"));
    let (_, action) = acp_handshake_step(&ctx, HandshakeState::Creating, Ok(object(vec![])));
    assert!(matches!(action, HandshakeAction::Fail(e) if e == "Grok ACP did not create a session."));
    let (_, action) = acp_handshake_step(&context(None), HandshakeState::Initializing, Ok(object(vec![])));
    assert_eq!(sent(&action).1, "session/new");
}

#[test]
fn failed_authentication_ends_the_handshake() {
    let (_, action) = acp_handshake_step(&context(None), HandshakeState::Authenticating(false), Err("denied".into()));
    assert!(matches!(action, HandshakeAction::Fail(e) if e == "denied"));
}
