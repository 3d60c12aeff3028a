//! Commands and reads on the switch through the held session. Each operation is planned from
//! the store (no session, no request) and its answer is read into a result afterwards.
use vstd::prelude::*;
use crate::error::{Malformed, SwitchError};
use crate::http::{is_success, success, HttpRequest, HttpResponse, RequestView};
use crate::json::Json;
use crate::requests::{
    cli_request, event_log_request, interface_request, spec_cli_request, spec_event_log_request,
    spec_interface_request, spec_utilization_request, utilization_request,
};
use crate::store::{SessionRecord, SessionStore};
use crate::transport::{HttpClient, TransportConfig};

verus! {

/// An operation on the switch through the held session.
pub enum Operation {
    /// Run a CLI command.
    Cli(String),
    /// Read the live status of an interface, such as `1/1/1`.
    Interface(String),
    /// Read the management module's CPU and memory use.
    Utilization,
    /// Read the recent event log.
    EventLog,
}

/// The request of `op` through session `s`.
pub open spec fn operation_request(config: TransportConfig, s: SessionRecord, op: Operation) -> RequestView {
    match op {
        Operation::Cli(c) => spec_cli_request(config, s, c@),
        Operation::Interface(id) => spec_interface_request(config, s, id@),
        Operation::Utilization => spec_utilization_request(config, s),
        Operation::EventLog => spec_event_log_request(config, s),
    }
}

/// A request to send with the session's client.
pub struct Dispatch {
    pub client: HttpClient,
    pub request: HttpRequest,
}

/// Plans `op`: with no session held it fails and there is nothing to send; otherwise the
/// request goes out with a handle on the held session's client. The store is only read.
pub fn plan(store: &SessionStore, config: &TransportConfig, op: &Operation) -> (r: Result<
    Dispatch,
    SwitchError,
>)
    ensures
        match store@.session {
            None => r == Err::<Dispatch, SwitchError>(SwitchError::NoActiveSession),
            Some(s) => r matches Ok(d) && d.client.settings() == s.settings && d.request@
                == operation_request(*config, s, *op),
        },
{
    let session = match store.get() {
        Some(s) => s,
        None => {
            return Err(SwitchError::NoActiveSession);
        },
    };
    let request = match op {
        Operation::Cli(c) => cli_request(config, &session, c.as_str()),
        Operation::Interface(id) => interface_request(config, &session, id.as_str()),
        Operation::Utilization => utilization_request(config, &session),
        Operation::EventLog => event_log_request(config, &session),
    };
    Ok(Dispatch { client: session.client, request })
}

/// The error for an answer outside 2xx: its status and body, verbatim.
pub open spec fn remote_error(response: HttpResponse) -> SwitchError {
    SwitchError::Remote { status: response.status, body: response.body }
}

fn check_status(response: &HttpResponse) -> (r: Result<(), SwitchError>)
    ensures
        is_success(response.status) ==> r is Ok,
        !is_success(response.status) ==> r == Err::<(), SwitchError>(remote_error(*response)),
{
    if success(response.status) {
        Ok(())
    } else {
        Err(SwitchError::Remote { status: response.status, body: response.body.clone() })
    }
}

/// Reads the answer to a CLI command: its body, verbatim.
pub fn read_cli(response: &HttpResponse) -> (r: Result<String, SwitchError>)
    ensures
        is_success(response.status) ==> (r matches Ok(b) && b@ == response.body@),
        !is_success(response.status) ==> r == Err::<String, SwitchError>(remote_error(*response)),
{
    check_status(response)?;
    Ok(response.body.clone())
}

/// The live status of one interface. A field that the switch left out, or sent with another
/// type, takes its default: `"unknown"` for the states and the duplex, 0 for the numbers, the
/// empty string for the MAC address.
pub struct InterfaceSnapshot {
    pub link_state: String,
    pub admin_state: String,
    pub duplex: String,
    /// Bits per second.
    pub link_speed_bps: i64,
    pub mac_in_use: String,
    pub flaps_performed: i64,
    pub ifindex: i64,
}

/// The string member `key` of `j`, or `default`.
pub open spec fn text_or(j: Json, key: Seq<char>, default: Seq<char>) -> Seq<char> {
    match j.field(key) {
        Some(v) => match v.str_value() {
            Some(s) => s,
            None => default,
        },
        None => default,
    }
}

/// The `i64` member `key` of `j`, or 0.
pub open spec fn int_or_zero(j: Json, key: Seq<char>) -> i64 {
    match j.field(key) {
        Some(v) => match v.i64_value() {
            Some(n) => n,
            None => 0,
        },
        None => 0,
    }
}

fn get_text_or(j: &Json, key: &str, default: &str) -> (r: String)
    ensures
        r@ == text_or(*j, key@, default@),
{
    match j.get(key) {
        Some(v) => match v.as_str() {
            Some(s) => s.clone(),
            None => String::from_str(default),
        },
        None => String::from_str(default),
    }
}

fn get_int_or_zero(j: &Json, key: &str) -> (r: i64)
    ensures
        r == int_or_zero(*j, key@),
{
    match j.get(key) {
        Some(v) => match v.as_i64() {
            Some(n) => n,
            None => 0,
        },
        None => 0,
    }
}

/// The snapshot of an interface-status document, every field defaulted where it is missing
/// or of another type.
pub open spec fn snapshot_matches(s: InterfaceSnapshot, j: Json) -> bool {
    &&& s.link_state@ == text_or(j, "link_state"@, "unknown"@)
    &&& s.admin_state@ == text_or(j, "admin_state"@, "unknown"@)
    &&& s.duplex@ == text_or(j, "duplex"@, "unknown"@)
    &&& s.link_speed_bps == int_or_zero(j, "link_speed"@)
    &&& s.mac_in_use@ == text_or(j, "mac_in_use"@, ""@)
    &&& s.flaps_performed == int_or_zero(j, "flaps_performed"@)
    &&& s.ifindex == int_or_zero(j, "ifindex"@)
}

/// Reads an interface-status document into a snapshot.
pub fn interface_snapshot(j: &Json) -> (r: InterfaceSnapshot)
    ensures
        snapshot_matches(r, *j),
{
    InterfaceSnapshot {
        link_state: get_text_or(j, "link_state", "unknown"),
        admin_state: get_text_or(j, "admin_state", "unknown"),
        duplex: get_text_or(j, "duplex", "unknown"),
        link_speed_bps: get_int_or_zero(j, "link_speed"),
        mac_in_use: get_text_or(j, "mac_in_use", ""),
        flaps_performed: get_int_or_zero(j, "flaps_performed"),
        ifindex: get_int_or_zero(j, "ifindex"),
    }
}

/// Reads the answer to an interface query. Only a status outside 2xx or a body that is not
/// JSON fails it; missing fields take their defaults.
pub fn read_interface(response: &HttpResponse) -> (r: Result<InterfaceSnapshot, SwitchError>)
    ensures
        !is_success(response.status) ==> r == Err::<InterfaceSnapshot, SwitchError>(
            remote_error(*response),
        ),
        is_success(response.status) ==> match response.json {
            None => r == Err::<InterfaceSnapshot, SwitchError>(
                SwitchError::MalformedResponse(Malformed::NotJson),
            ),
            Some(j) => r matches Ok(s) && snapshot_matches(s, j),
        },
{
    check_status(response)?;
    match &response.json {
        Some(j) => Ok(interface_snapshot(j)),
        None => Err(SwitchError::MalformedResponse(Malformed::NotJson)),
    }
}

/// An interface document without `duplex` and `flaps_performed` still reads into a snapshot
/// (`read_interface` fails a 2xx JSON answer for no missing field): its duplex is "unknown" and
/// its flap count 0.
pub proof fn lemma_interface_defaults(j: Json, s: InterfaceSnapshot)
    requires
        j.field("duplex"@) is None,
        j.field("flaps_performed"@) is None,
        snapshot_matches(s, j),
    ensures
        s.duplex@ == "unknown"@,
        s.flaps_performed == 0,
{
}

/// CPU and memory use of the management module, in percent.
#[derive(Debug, Clone, Copy, PartialEq, Eq, Structural)]
pub struct UtilizationSnapshot {
    pub cpu: u32,
    pub memory: u32,
}

/// The member `key` of `j`, where it is an integer that fits in `u32`.
pub open spec fn u32_member(j: Json, key: Seq<char>) -> Option<u32> {
    match j.field(key) {
        Some(v) => v.u32_value(),
        None => None,
    }
}

/// What a utilization document holds: `resource_utilization.cpu` and
/// `resource_utilization.memory`, both present and integers that fit in `u32`. Nothing is
/// defaulted.
pub open spec fn utilization_of(j: Json) -> Result<UtilizationSnapshot, SwitchError> {
    match j.field("resource_utilization"@) {
        None => Err(SwitchError::MalformedResponse(Malformed::Utilization)),
        Some(ru) => match u32_member(ru, "cpu"@) {
            None => Err(SwitchError::MalformedResponse(Malformed::Cpu)),
            Some(cpu) => match u32_member(ru, "memory"@) {
                None => Err(SwitchError::MalformedResponse(Malformed::Memory)),
                Some(memory) => Ok(UtilizationSnapshot { cpu, memory }),
            },
        },
    }
}

/// A utilization document whose `resource_utilization` lacks `memory` is refused as malformed:
/// memory is never taken to be zero.
pub proof fn lemma_utilization_needs_memory(j: Json)
    requires
        j.field("resource_utilization"@) matches Some(ru) && ru.field("memory"@) is None,
    ensures
        utilization_of(j) matches Err(SwitchError::MalformedResponse(_)),
{
}

/// Reads a utilization document.
pub fn utilization(j: &Json) -> (r: Result<UtilizationSnapshot, SwitchError>)
    ensures
        r == utilization_of(*j),
{
    let ru = match j.get("resource_utilization") {
        Some(ru) => ru,
        None => {
            return Err(SwitchError::MalformedResponse(Malformed::Utilization));
        },
    };
    let cpu = match ru.get("cpu") {
        Some(v) => match v.as_u32() {
            Some(n) => n,
            None => {
                return Err(SwitchError::MalformedResponse(Malformed::Cpu));
            },
        },
        None => {
            return Err(SwitchError::MalformedResponse(Malformed::Cpu));
        },
    };
    let memory = match ru.get("memory") {
        Some(v) => match v.as_u32() {
            Some(n) => n,
            None => {
                return Err(SwitchError::MalformedResponse(Malformed::Memory));
            },
        },
        None => {
            return Err(SwitchError::MalformedResponse(Malformed::Memory));
        },
    };
    Ok(UtilizationSnapshot { cpu, memory })
}

/// Reads the answer to a utilization query.
pub fn read_utilization(response: &HttpResponse) -> (r: Result<UtilizationSnapshot, SwitchError>)
    ensures
        !is_success(response.status) ==> r == Err::<UtilizationSnapshot, SwitchError>(
            remote_error(*response),
        ),
        is_success(response.status) ==> match response.json {
            None => r == Err::<UtilizationSnapshot, SwitchError>(
                SwitchError::MalformedResponse(Malformed::NotJson),
            ),
            Some(j) => r == utilization_of(j),
        },
{
    check_status(response)?;
    match &response.json {
        Some(j) => utilization(j),
        None => Err(SwitchError::MalformedResponse(Malformed::NotJson)),
    }
}

/// The `MESSAGE` strings of the log entities, in order; an entity without one is skipped.
pub open spec fn messages_of(entities: Seq<Json>) -> Seq<Seq<char>>
    decreases entities.len(),
{
    if entities.len() == 0 {
        Seq::empty()
    } else {
        let rest = messages_of(entities.drop_last());
        match entities.last().field("MESSAGE"@) {
            Some(m) => match m.str_value() {
                Some(s) => rest.push(s),
                None => rest,
            },
            None => rest,
        }
    }
}

pub open spec fn strings_view(v: Seq<String>) -> Seq<Seq<char>> {
    v.map_values(|s: String| s@)
}

/// The messages of an event-log document: `entities` must be an array.
pub open spec fn event_log_of(j: Json) -> Result<Seq<Seq<char>>, SwitchError> {
    match j.field("entities"@) {
        Some(Json::Array(items)) => Ok(messages_of(items@)),
        _ => Err(SwitchError::MalformedResponse(Malformed::Entities)),
    }
}

/// Reads the messages out of an event-log document.
pub fn event_log(j: &Json) -> (r: Result<Vec<String>, SwitchError>)
    ensures
        match event_log_of(*j) {
            Ok(m) => r matches Ok(v) && strings_view(v@) == m,
            Err(e) => r == Err::<Vec<String>, SwitchError>(e),
        },
{
    let items = match j.get("entities") {
        Some(Json::Array(items)) => items,
        _ => {
            return Err(SwitchError::MalformedResponse(Malformed::Entities));
        },
    };
    let mut out: Vec<String> = Vec::new();
    let n = items.len();
    let mut i: usize = 0;
    while i < n
        invariant
            n == items@.len(),
            i <= n,
            strings_view(out@) == messages_of(items@.subrange(0, i as int)),
        decreases n - i,
    {
        let ghost before = out@;
        assert(items@.subrange(0, i + 1).drop_last() =~= items@.subrange(0, i as int));
        match items[i].get("MESSAGE") {
            Some(m) => match m.as_str() {
                Some(s) => {
                    out.push(s.clone());
                    assert(strings_view(out@) =~= strings_view(before).push(s@));
                },
                None => {},
            },
            None => {},
        }
        i += 1;
    }
    assert(items@.subrange(0, n as int) =~= items@);
    Ok(out)
}

/// Reads the answer to an event-log query.
pub fn read_event_log(response: &HttpResponse) -> (r: Result<Vec<String>, SwitchError>)
    ensures
        !is_success(response.status) ==> r == Err::<Vec<String>, SwitchError>(
            remote_error(*response),
        ),
        is_success(response.status) ==> match response.json {
            None => r == Err::<Vec<String>, SwitchError>(
                SwitchError::MalformedResponse(Malformed::NotJson),
            ),
            Some(j) => match event_log_of(j) {
                Ok(m) => r matches Ok(v) && strings_view(v@) == m,
                Err(e) => r == Err::<Vec<String>, SwitchError>(e),
            },
        },
{
    check_status(response)?;
    match &response.json {
        Some(j) => event_log(j),
        None => Err(SwitchError::MalformedResponse(Malformed::NotJson)),
    }
}

} // verus!
