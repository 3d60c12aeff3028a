use jana::auth::{
    begin_login, begin_logout, finish_login, finish_logout, LoginStep, ALREADY_LOGGED_IN,
};
use jana::dispatch::{
    interface_snapshot, plan, read_cli, read_event_log, read_interface, read_utilization,
    Operation, UtilizationSnapshot,
};
use jana::encode::{json_object1, json_object2, percent_encode};
use jana::error::{Malformed, SwitchError};
use jana::http::{Body, HttpRequest, HttpResponse, Method};
use jana::json::Json;
use jana::requests::{event_log_request, interface_request, login_request, logout_request};
use jana::ssh::{SshEvent, SshNext, SshRun, SshStage};
use jana::store::SessionStore;
use jana::token::{custom_token_claims, CUSTOM_TOKEN_AUDIENCE};
use jana::transport::{build_client, EventLogQuery, LoginProfile, TransportConfig};

fn config(profile: LoginProfile) -> TransportConfig {
    TransportConfig {
        profile,
        api_version: "v10.12".to_string(),
        accept_invalid_certs: true,
        timeout_secs: 30,
        event_log: EventLogQuery {
            priority: "7".to_string(),
            since: "10 hours ago".to_string(),
            until: "now".to_string(),
            limit: "20".to_string(),
            csrf_token: "token==".to_string(),
        },
    }
}

fn s(t: &str) -> Json {
    Json::Str(t.to_string())
}

fn obj(entries: Vec<(&str, Json)>) -> Json {
    Json::Object(entries.into_iter().map(|(k, v)| (k.to_string(), v)).collect())
}

fn response(status: u16, body: &str, json: Option<Json>) -> HttpResponse {
    HttpResponse { status, body: body.to_string(), json }
}

fn has_header(r: &HttpRequest, name: &str, value: &str) -> bool {
    r.headers.iter().any(|(n, v)| n == name && v == value)
}

fn logged_in(profile: LoginProfile, host: &str, cookie: &str) -> SessionStore {
    let cfg = config(profile);
    let mut store = SessionStore::new();
    let client = build_client(&cfg).unwrap();
    let answer = response(200, "{}", Some(obj(vec![("cookie", s(cookie))])));
    finish_login(&mut store, &cfg, host, client, &answer).unwrap();
    store
}

#[test]
fn percent_encodes_interface_ids() {
    assert_eq!(percent_encode("1/1/1"), "1%2F1%2F1");
    assert_eq!(percent_encode("10 hours ago"), "10%20hours%20ago");
    assert_eq!(percent_encode("a-b_c.d~Z9"), "a-b_c.d~Z9");
    assert_eq!(percent_encode("é"), "%C3%A9");
    assert_eq!(percent_encode(""), "");
}

#[test]
fn json_objects_are_escaped() {
    assert_eq!(json_object1("cmd", "show \"vlan\""), "{\"cmd\":\"show \\\"vlan\\\"\"}");
    assert_eq!(json_object1("k", "a\tb\u{1}\\/é"), "{\"k\":\"a\\tb\\u0001\\\\/é\"}");
    assert_eq!(
        json_object2("userName", "admin", "password", "x"),
        "{\"userName\":\"admin\",\"password\":\"x\"}"
    );
}

#[test]
fn json_lookup_takes_the_first_member() {
    let j = obj(vec![("a", Json::Int(1)), ("b", s("x")), ("a", Json::Int(2))]);
    assert!(matches!(j.get("a"), Some(Json::Int(1))));
    assert_eq!(j.get("b").and_then(|v| v.as_str()).map(|v| v.as_str()), Some("x"));
    assert!(j.get("c").is_none());
    assert!(Json::Array(vec![]).get("a").is_none());
    assert_eq!(Json::Int(-5).as_u64(), None);
    assert_eq!(Json::Int(-5).as_i64(), Some(-5));
    assert_eq!(Json::Int(1 << 40).as_u32(), None);
    assert_eq!(Json::Int(u64::MAX as i128).as_i64(), None);
    assert_eq!(Json::Fraction.as_i64(), None);
}

#[test]
fn form_login_request() {
    let r = login_request(&config(LoginProfile::FormCookie), "10.0.0.1", "admin", "x");
    assert_eq!(r.method, Method::Post);
    assert_eq!(r.url, "https://10.0.0.1/rest/v10.12/login");
    assert!(r.headers.is_empty());
    match r.body {
        Body::Form(f) => assert_eq!(
            f,
            vec![
                ("username".to_string(), "admin".to_string()),
                ("password".to_string(), "x".to_string())
            ]
        ),
        _ => panic!("expected a form body"),
    }
}

#[test]
fn session_login_request() {
    let r = login_request(&config(LoginProfile::JsonSession), "10.0.0.1", "admin", "x");
    assert_eq!(r.method, Method::Post);
    assert_eq!(r.url, "https://10.0.0.1/rest/v10.12/login-sessions");
    assert!(has_header(&r, "Content-Type", "application/json"));
    match r.body {
        Body::Json(b) => assert_eq!(b, "{\"userName\":\"admin\",\"password\":\"x\"}"),
        _ => panic!("expected a JSON body"),
    }
}

#[test]
fn login_then_utilization_scenario() {
    let cfg = config(LoginProfile::JsonSession);
    let mut store = SessionStore::new();
    let (client, request) = match begin_login(&store, &cfg, "10.0.0.1", "admin", "x").unwrap() {
        LoginStep::Authenticate { client, request } => (client, request),
        LoginStep::AlreadyLoggedIn => panic!("nothing is held yet"),
    };
    assert_eq!(request.url, "https://10.0.0.1/rest/v10.12/login-sessions");
    let answer = response(200, "{\"cookie\":\"abc123\"}", Some(obj(vec![("cookie", s("abc123"))])));
    let body = finish_login(&mut store, &cfg, "10.0.0.1", client, &answer).unwrap();
    assert_eq!(body, "{\"cookie\":\"abc123\"}");
    let held = store.get().unwrap();
    assert_eq!(held.host, "10.0.0.1");
    assert_eq!(held.cookie.as_deref(), Some("abc123"));

    let d = plan(&store, &cfg, &Operation::Utilization).unwrap();
    assert_eq!(d.request.method, Method::Get);
    assert_eq!(
        d.request.url,
        "https://10.0.0.1/rest/v10.12/system/subsystems/management_module,1%2F1"
    );
    assert!(has_header(&d.request, "Cookie", "sessionId=abc123"));
    let util = obj(vec![(
        "resource_utilization",
        obj(vec![("cpu", Json::Int(12)), ("memory", Json::Int(47))]),
    )]);
    let got = read_utilization(&response(200, "", Some(util))).unwrap();
    assert_eq!(got, UtilizationSnapshot { cpu: 12, memory: 47 });
}

#[test]
fn second_login_while_held_sends_nothing() {
    let cfg = config(LoginProfile::FormCookie);
    let store = logged_in(LoginProfile::FormCookie, "10.0.0.1", "c");
    for _ in 0..2 {
        assert!(matches!(
            begin_login(&store, &cfg, "10.0.0.2", "admin", "x"),
            Ok(LoginStep::AlreadyLoggedIn)
        ));
    }
    assert_eq!(store.get().unwrap().host, "10.0.0.1");
    assert_eq!(ALREADY_LOGGED_IN, "Already logged in");
}

#[test]
fn no_session_no_dispatch() {
    let cfg = config(LoginProfile::JsonSession);
    let store = SessionStore::new();
    for op in [
        Operation::Cli("show vlan".to_string()),
        Operation::Interface("1/1/1".to_string()),
        Operation::Utilization,
        Operation::EventLog,
    ] {
        assert_eq!(plan(&store, &cfg, &op).err(), Some(SwitchError::NoActiveSession));
    }
    assert_eq!(begin_logout(&store, &cfg).err(), Some(SwitchError::NoActiveSession));
}

#[test]
fn racing_logins_leave_the_last_success() {
    let cfg = config(LoginProfile::JsonSession);
    let mut store = SessionStore::new();
    let mut clients = Vec::new();
    for host in ["a", "b", "c", "d"] {
        match begin_login(&store, &cfg, host, "admin", "x").unwrap() {
            LoginStep::Authenticate { client, .. } => clients.push((host, client)),
            LoginStep::AlreadyLoggedIn => panic!("every racer starts from an empty store"),
        }
    }
    let answers = [
        response(200, "", Some(obj(vec![("cookie", s("ca"))]))),
        response(401, "denied", None),
        response(200, "", Some(obj(vec![("cookie", s("cc"))]))),
        response(500, "oops", None),
    ];
    let mut results = Vec::new();
    for ((host, client), answer) in clients.into_iter().zip(answers.iter()) {
        results.push(finish_login(&mut store, &cfg, host, client, answer));
    }
    assert!(results[0].is_ok());
    assert_eq!(results[1], Err(SwitchError::Auth { status: 401, body: "denied".to_string() }));
    assert!(results[2].is_ok());
    let held = store.get().unwrap();
    assert_eq!(held.host, "c");
    assert_eq!(held.cookie.as_deref(), Some("cc"));
}

#[test]
fn failed_login_leaves_store_empty() {
    let cfg = config(LoginProfile::FormCookie);
    let mut store = SessionStore::new();
    let client = build_client(&cfg).unwrap();
    let r = finish_login(&mut store, &cfg, "10.0.0.1", client, &response(403, "no", None));
    assert_eq!(r, Err(SwitchError::Auth { status: 403, body: "no".to_string() }));
    assert!(!store.is_active());
}

#[test]
fn session_login_without_cookie_is_malformed() {
    let cfg = config(LoginProfile::JsonSession);
    let mut store = SessionStore::new();
    let client = build_client(&cfg).unwrap();
    let r = finish_login(&mut store, &cfg, "h", client, &response(200, "{}", Some(obj(vec![]))));
    assert_eq!(r, Err(SwitchError::MalformedResponse(Malformed::Cookie)));
    let client = build_client(&cfg).unwrap();
    let r = finish_login(&mut store, &cfg, "h", client, &response(200, "x", None));
    assert_eq!(r, Err(SwitchError::MalformedResponse(Malformed::NotJson)));
    assert!(!store.is_active());
}

#[test]
fn form_login_keeps_no_cookie() {
    let cfg = config(LoginProfile::FormCookie);
    let mut store = SessionStore::new();
    let client = build_client(&cfg).unwrap();
    let r = finish_login(&mut store, &cfg, "10.0.0.1", client, &response(200, "ok", None));
    assert_eq!(r, Ok("ok".to_string()));
    let held = store.get().unwrap();
    assert_eq!(held.cookie, None);
    let d = plan(&store, &cfg, &Operation::Utilization).unwrap();
    assert!(!d.request.headers.iter().any(|(n, _)| n == "Cookie"));
}

#[test]
fn logout_clears_on_success_only() {
    let cfg = config(LoginProfile::JsonSession);
    let mut store = logged_in(LoginProfile::JsonSession, "10.0.0.1", "abc");
    let step = begin_logout(&store, &cfg).unwrap();
    assert_eq!(step.request.method, Method::Delete);
    assert_eq!(step.request.url, "https://10.0.0.1/rest/v10.12/login-sessions");
    assert!(has_header(&step.request, "Cookie", "sessionId=abc"));
    let r = finish_logout(&mut store, step.serial, &response(500, "busy", None));
    assert_eq!(r, Err(SwitchError::Remote { status: 500, body: "busy".to_string() }));
    assert!(store.is_active());
    let r = finish_logout(&mut store, step.serial, &response(204, "", None));
    assert_eq!(r, Ok(String::new()));
    assert!(!store.is_active());
}

#[test]
fn logout_spares_a_newer_session() {
    let cfg = config(LoginProfile::JsonSession);
    let mut store = logged_in(LoginProfile::JsonSession, "a", "1");
    let step = begin_logout(&store, &cfg).unwrap();
    let client = build_client(&cfg).unwrap();
    let answer = response(200, "", Some(obj(vec![("cookie", s("2"))])));
    finish_login(&mut store, &cfg, "b", client, &answer).unwrap();
    assert_eq!(finish_logout(&mut store, step.serial, &response(200, "", None)), Ok(String::new()));
    assert_eq!(store.get().unwrap().host, "b");
}

#[test]
fn form_logout_request() {
    let store = logged_in(LoginProfile::FormCookie, "sw", "c");
    let held = store.get().unwrap();
    let r = logout_request(&config(LoginProfile::FormCookie), &held);
    assert_eq!(r.method, Method::Post);
    assert_eq!(r.url, "https://sw/rest/v10.12/logout");
}

#[test]
fn interface_defaults_for_missing_fields() {
    let doc = obj(vec![
        ("link_state", s("up")),
        ("admin_state", s("up")),
        ("link_speed", Json::Int(1_000_000_000)),
        ("mac_in_use", s("aa:bb")),
        ("ifindex", Json::Int(3)),
    ]);
    let snap = read_interface(&response(200, "", Some(doc))).unwrap();
    assert_eq!(snap.duplex, "unknown");
    assert_eq!(snap.flaps_performed, 0);
    assert_eq!(snap.link_state, "up");
    assert_eq!(snap.link_speed_bps, 1_000_000_000);
    assert_eq!(snap.mac_in_use, "aa:bb");
    assert_eq!(snap.ifindex, 3);
}

#[test]
fn interface_fields_of_other_types_default() {
    let snap = interface_snapshot(&obj(vec![("duplex", Json::Int(1)), ("ifindex", s("3"))]));
    assert_eq!(snap.duplex, "unknown");
    assert_eq!(snap.ifindex, 0);
    assert_eq!(snap.mac_in_use, "");
    let r = read_interface(&response(404, "missing", None));
    assert_eq!(r.err(), Some(SwitchError::Remote { status: 404, body: "missing".to_string() }));
    let r = read_interface(&response(200, "<html>", None));
    assert_eq!(r.err(), Some(SwitchError::MalformedResponse(Malformed::NotJson)));
}

#[test]
fn interface_request_encodes_the_id() {
    let store = logged_in(LoginProfile::JsonSession, "sw", "k");
    let held = store.get().unwrap();
    let r = interface_request(&config(LoginProfile::JsonSession), &held, "1/1/28");
    assert_eq!(r.url, "https://sw/rest/v10.12/system/interfaces/1%2F1%2F28");
    assert!(has_header(&r, "Accept", "application/json"));
    assert!(has_header(&r, "Cookie", "sessionId=k"));
}

#[test]
fn utilization_without_memory_is_malformed() {
    let doc = obj(vec![("resource_utilization", obj(vec![("cpu", Json::Int(12))]))]);
    let r = read_utilization(&response(200, "", Some(doc)));
    assert_eq!(r, Err(SwitchError::MalformedResponse(Malformed::Memory)));
}

#[test]
fn utilization_errors() {
    let r = read_utilization(&response(200, "", Some(obj(vec![]))));
    assert_eq!(r, Err(SwitchError::MalformedResponse(Malformed::Utilization)));
    let doc = obj(vec![("resource_utilization", obj(vec![("cpu", Json::Int(-1)), ("memory", Json::Int(3))]))]);
    let r = read_utilization(&response(200, "", Some(doc)));
    assert_eq!(r, Err(SwitchError::MalformedResponse(Malformed::Cpu)));
    let r = read_utilization(&response(401, "who", None));
    assert_eq!(r, Err(SwitchError::Remote { status: 401, body: "who".to_string() }));
}

#[test]
fn event_log_messages() {
    let doc = obj(vec![(
        "entities",
        Json::Array(vec![
            obj(vec![("MESSAGE", s("link up"))]),
            obj(vec![("PRIORITY", s("6"))]),
            obj(vec![("MESSAGE", Json::Int(4))]),
            obj(vec![("MESSAGE", s("link down"))]),
        ]),
    )]);
    let r = read_event_log(&response(200, "", Some(doc))).unwrap();
    assert_eq!(r, vec!["link up".to_string(), "link down".to_string()]);
    let r = read_event_log(&response(200, "", Some(obj(vec![("entities", s("none"))]))));
    assert_eq!(r, Err(SwitchError::MalformedResponse(Malformed::Entities)));
}

#[test]
fn event_log_request_has_fixed_query() {
    let cfg = config(LoginProfile::FormCookie);
    let store = logged_in(LoginProfile::FormCookie, "sw", "c");
    let held = store.get().unwrap();
    let r = event_log_request(&cfg, &held);
    assert_eq!(
        r.url,
        "https://sw/rest/v10.12/logs/event?priority=7&since=10%20hours%20ago&until=now&limit=20"
    );
    assert!(has_header(&r, "x-csrf-token", "token=="));
    assert!(has_header(&r, "Accept", "*/*"));
}

#[test]
fn cli_passes_body_through() {
    let cfg = config(LoginProfile::JsonSession);
    let store = logged_in(LoginProfile::JsonSession, "sw", "k");
    let d = plan(&store, &cfg, &Operation::Cli("show version".to_string())).unwrap();
    assert_eq!(d.request.url, "https://sw/rest/v10.12/cli");
    match &d.request.body {
        Body::Json(b) => assert_eq!(b, "{\"cmd\":\"show version\"}"),
        _ => panic!("expected a JSON body"),
    }
    assert_eq!(read_cli(&response(200, "raw output", None)), Ok("raw output".to_string()));
    assert_eq!(
        read_cli(&response(503, "down", None)),
        Err(SwitchError::Remote { status: 503, body: "down".to_string() })
    );
}

fn run_ssh(events: Vec<SshEvent>) -> Result<String, SwitchError> {
    let mut run = SshRun::start();
    for e in events {
        match run.advance(e) {
            SshNext::Continue(next) => run = next,
            SshNext::Finish(r) => return r,
        }
    }
    panic!("the run did not finish")
}

fn clean(code: i32) -> Vec<SshEvent> {
    let mut v: Vec<SshEvent> = (0..5).map(|_| SshEvent::Done).collect();
    v.push(SshEvent::Output("hello\n".to_string()));
    v.push(SshEvent::Done);
    v.push(SshEvent::Exit(code));
    v
}

#[test]
fn ssh_nonzero_exit_is_reported() {
    assert_eq!(run_ssh(clean(1)), Err(SwitchError::NonZeroExit { status: 1 }));
    assert_eq!(run_ssh(clean(0)), Ok("hello\n".to_string()));
}

#[test]
fn ssh_stage_failures() {
    assert_eq!(run_ssh(vec![SshEvent::Failed]), Err(SwitchError::Connect));
    assert_eq!(run_ssh(vec![SshEvent::Done, SshEvent::Failed]), Err(SwitchError::Handshake));
    assert_eq!(
        run_ssh(vec![SshEvent::Done, SshEvent::Done, SshEvent::Failed]),
        Err(SwitchError::SshAuth)
    );
    let mut v: Vec<SshEvent> = (0..5).map(|_| SshEvent::Done).collect();
    v.push(SshEvent::Failed);
    assert_eq!(run_ssh(v), Err(SwitchError::Channel));
    let run = SshRun::start();
    assert_eq!(run.stage, SshStage::Connect);
}

#[test]
fn custom_token_claims_expire_in_an_hour() {
    let c = custom_token_claims("svc@example.com", "user-1", 1_700_000_000);
    assert_eq!(c.iss, "svc@example.com");
    assert_eq!(c.sub, "svc@example.com");
    assert_eq!(c.aud, CUSTOM_TOKEN_AUDIENCE);
    assert_eq!(c.iat, 1_700_000_000);
    assert_eq!(c.exp, 1_700_003_600);
    assert_eq!(c.uid, "user-1");
}
