//! The requests of each operation on the switch's REST API.
use vstd::prelude::*;
use vstd::utf8::encode_utf8;
use crate::encode::{json_object, json_object1, json_object2, percent_encoded, push_percent_encoded};
use crate::http::{pair, pairs_view, Body, BodyView, HttpRequest, Method, RequestView};
use crate::store::{opt_view, Session, SessionRecord};
use crate::transport::{LoginProfile, TransportConfig};

verus! {

/// `https://{host}/rest/{version}`.
pub open spec fn api_base(config: TransportConfig, host: Seq<char>) -> Seq<char> {
    "https://"@ + host + "/rest/"@ + config.api_version@
}

/// The headers that carry a session cookie, where the session has one.
pub open spec fn session_headers(cookie: Option<Seq<char>>) -> Seq<(Seq<char>, Seq<char>)> {
    match cookie {
        Some(c) => seq![("Cookie"@, "sessionId="@ + c)],
        None => Seq::empty(),
    }
}

pub open spec fn spec_login_request(
    config: TransportConfig,
    host: Seq<char>,
    username: Seq<char>,
    password: Seq<char>,
) -> RequestView {
    match config.profile {
        LoginProfile::FormCookie => RequestView {
            method: Method::Post,
            url: api_base(config, host) + "/login"@,
            headers: Seq::empty(),
            body: BodyView::Form(seq![("username"@, username), ("password"@, password)]),
        },
        LoginProfile::JsonSession => RequestView {
            method: Method::Post,
            url: api_base(config, host) + "/login-sessions"@,
            headers: seq![("Content-Type"@, "application/json"@)],
            body: BodyView::Json(json_object(seq![("userName"@, username), ("password"@, password)])),
        },
    }
}

pub open spec fn spec_logout_request(config: TransportConfig, s: SessionRecord) -> RequestView {
    match config.profile {
        LoginProfile::FormCookie => RequestView {
            method: Method::Post,
            url: api_base(config, s.host) + "/logout"@,
            headers: session_headers(s.cookie),
            body: BodyView::Empty,
        },
        LoginProfile::JsonSession => RequestView {
            method: Method::Delete,
            url: api_base(config, s.host) + "/login-sessions"@,
            headers: session_headers(s.cookie),
            body: BodyView::Empty,
        },
    }
}

pub open spec fn spec_cli_request(config: TransportConfig, s: SessionRecord, command: Seq<char>) -> RequestView {
    RequestView {
        method: Method::Post,
        url: api_base(config, s.host) + "/cli"@,
        headers: session_headers(s.cookie).push(("Content-Type"@, "application/json"@)),
        body: BodyView::Json(json_object(seq![("cmd"@, command)])),
    }
}

pub open spec fn spec_interface_request(config: TransportConfig, s: SessionRecord, id: Seq<char>) -> RequestView {
    RequestView {
        method: Method::Get,
        url: api_base(config, s.host) + "/system/interfaces/"@ + percent_encoded(encode_utf8(id)),
        headers: session_headers(s.cookie).push(("Accept"@, "application/json"@)),
        body: BodyView::Empty,
    }
}

pub open spec fn spec_utilization_request(config: TransportConfig, s: SessionRecord) -> RequestView {
    RequestView {
        method: Method::Get,
        url: api_base(config, s.host) + "/system/subsystems/management_module,1%2F1"@,
        headers: session_headers(s.cookie).push(("Accept"@, "application/json"@)),
        body: BodyView::Empty,
    }
}

pub open spec fn event_log_url(config: TransportConfig, host: Seq<char>) -> Seq<char> {
    let q = config.event_log;
    api_base(config, host) + "/logs/event?priority="@ + percent_encoded(encode_utf8(q.priority@))
        + "&since="@ + percent_encoded(encode_utf8(q.since@)) + "&until="@ + percent_encoded(
        encode_utf8(q.until@),
    ) + "&limit="@ + percent_encoded(encode_utf8(q.limit@))
}

pub open spec fn spec_event_log_request(config: TransportConfig, s: SessionRecord) -> RequestView {
    RequestView {
        method: Method::Get,
        url: event_log_url(config, s.host),
        headers: session_headers(s.cookie).push(("Accept"@, "*/*"@)).push(
            ("x-csrf-token"@, config.event_log.csrf_token@),
        ),
        body: BodyView::Empty,
    }
}

fn api_base_url(config: &TransportConfig, host: &str) -> (r: String)
    ensures
        r@ == api_base(*config, host@),
{
    let mut r = String::from_str("https://");
    r.append(host);
    r.append("/rest/");
    r.append(config.api_version.as_str());
    r
}

fn url_with(config: &TransportConfig, host: &str, path: &str) -> (r: String)
    ensures
        r@ == api_base(*config, host@) + path@,
{
    let mut r = api_base_url(config, host);
    r.append(path);
    r
}

fn session_header_list(cookie: &Option<String>) -> (r: Vec<(String, String)>)
    ensures
        pairs_view(r@) == session_headers(opt_view(*cookie)),
{
    let mut v: Vec<(String, String)> = Vec::new();
    match cookie {
        Some(c) => {
            let mut value = String::from_str("sessionId=");
            value.append(c.as_str());
            v.push((String::from_str("Cookie"), value));
        },
        None => {},
    }
    assert(pairs_view(v@) =~= session_headers(opt_view(*cookie)));
    v
}

fn push_pair(v: &mut Vec<(String, String)>, name: &str, value: &str)
    ensures
        pairs_view(final(v)@) == pairs_view(old(v)@).push((name@, value@)),
{
    v.push(pair(name, value));
    assert(pairs_view(v@) =~= pairs_view(old(v)@).push((name@, value@)));
}

/// The login request for `host` under the configured login scheme.
pub fn login_request(config: &TransportConfig, host: &str, username: &str, password: &str) -> (r:
    HttpRequest)
    ensures
        r@ == spec_login_request(*config, host@, username@, password@),
{
    match config.profile {
        LoginProfile::FormCookie => {
            let mut form: Vec<(String, String)> = Vec::new();
            push_pair(&mut form, "username", username);
            push_pair(&mut form, "password", password);
            assert(pairs_view(form@) =~= seq![("username"@, username@), ("password"@, password@)]);
            let headers: Vec<(String, String)> = Vec::new();
            assert(pairs_view(headers@) =~= Seq::empty());
            HttpRequest {
                method: Method::Post,
                url: url_with(config, host, "/login"),
                headers,
                body: Body::Form(form),
            }
        },
        LoginProfile::JsonSession => {
            let mut headers: Vec<(String, String)> = Vec::new();
            push_pair(&mut headers, "Content-Type", "application/json");
            assert(pairs_view(headers@) =~= seq![("Content-Type"@, "application/json"@)]);
            HttpRequest {
                method: Method::Post,
                url: url_with(config, host, "/login-sessions"),
                headers,
                body: Body::Json(json_object2("userName", username, "password", password)),
            }
        },
    }
}

/// The request that ends `session` on the switch.
pub fn logout_request(config: &TransportConfig, session: &Session) -> (r: HttpRequest)
    ensures
        r@ == spec_logout_request(*config, session@),
{
    let headers = session_header_list(&session.cookie);
    match config.profile {
        LoginProfile::FormCookie => HttpRequest {
            method: Method::Post,
            url: url_with(config, session.host.as_str(), "/logout"),
            headers,
            body: Body::Empty,
        },
        LoginProfile::JsonSession => HttpRequest {
            method: Method::Delete,
            url: url_with(config, session.host.as_str(), "/login-sessions"),
            headers,
            body: Body::Empty,
        },
    }
}

/// The request that runs `command` on the switch's CLI.
pub fn cli_request(config: &TransportConfig, session: &Session, command: &str) -> (r: HttpRequest)
    ensures
        r@ == spec_cli_request(*config, session@, command@),
{
    let mut headers = session_header_list(&session.cookie);
    push_pair(&mut headers, "Content-Type", "application/json");
    HttpRequest {
        method: Method::Post,
        url: url_with(config, session.host.as_str(), "/cli"),
        headers,
        body: Body::Json(json_object1("cmd", command)),
    }
}

/// The request for the live status of interface `id`, such as `1/1/1`.
pub fn interface_request(config: &TransportConfig, session: &Session, id: &str) -> (r: HttpRequest)
    ensures
        r@ == spec_interface_request(*config, session@, id@),
{
    let mut headers = session_header_list(&session.cookie);
    push_pair(&mut headers, "Accept", "application/json");
    let mut url = url_with(config, session.host.as_str(), "/system/interfaces/");
    push_percent_encoded(&mut url, id);
    HttpRequest { method: Method::Get, url, headers, body: Body::Empty }
}

/// The request for the management module's CPU and memory use.
pub fn utilization_request(config: &TransportConfig, session: &Session) -> (r: HttpRequest)
    ensures
        r@ == spec_utilization_request(*config, session@),
{
    let mut headers = session_header_list(&session.cookie);
    push_pair(&mut headers, "Accept", "application/json");
    HttpRequest {
        method: Method::Get,
        url: url_with(config, session.host.as_str(), "/system/subsystems/management_module,1%2F1"),
        headers,
        body: Body::Empty,
    }
}

/// The request for the recent event log, with the configured fixed query.
pub fn event_log_request(config: &TransportConfig, session: &Session) -> (r: HttpRequest)
    ensures
        r@ == spec_event_log_request(*config, session@),
{
    let mut headers = session_header_list(&session.cookie);
    push_pair(&mut headers, "Accept", "*/*");
    push_pair(&mut headers, "x-csrf-token", config.event_log.csrf_token.as_str());
    let q = &config.event_log;
    let mut url = url_with(config, session.host.as_str(), "/logs/event?priority=");
    push_percent_encoded(&mut url, q.priority.as_str());
    url.append("&since=");
    push_percent_encoded(&mut url, q.since.as_str());
    url.append("&until=");
    push_percent_encoded(&mut url, q.until.as_str());
    url.append("&limit=");
    push_percent_encoded(&mut url, q.limit.as_str());
    HttpRequest { method: Method::Get, url, headers, body: Body::Empty }
}

} // verus!
