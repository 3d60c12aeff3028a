//! The failures that session handling and command dispatch report.
use vstd::prelude::*;

verus! {

/// What part of a switch's answer was missing or of the wrong shape.
#[derive(Debug, Clone, Copy, PartialEq, Eq, Structural)]
pub enum Malformed {
    /// The body is not a JSON document.
    NotJson,
    /// A session-cookie login answered without a string `cookie`.
    Cookie,
    /// No `resource_utilization` member.
    Utilization,
    /// `resource_utilization.cpu` is missing or not a `u32`.
    Cpu,
    /// `resource_utilization.memory` is missing or not a `u32`.
    Memory,
    /// No `entities` array in an event-log answer.
    Entities,
}

#[derive(Debug, PartialEq, Eq)]
#[allow(inconsistent_fields)]
pub enum SwitchError {
    /// The HTTP client could not be built from the configuration.
    TransportBuild,
    /// The switch refused the credentials; its status and body are kept verbatim.
    Auth { status: u16, body: String },
    /// The operation needs a session and none is held.
    NoActiveSession,
    /// The switch answered a request that needs a session with a status outside 2xx.
    Remote { status: u16, body: String },
    /// The switch answered 2xx with a body that lacks what the operation reads.
    MalformedResponse(Malformed),
    /// The SSH connection could not be opened.
    Connect,
    /// The SSH protocol handshake failed.
    Handshake,
    /// The SSH server refused the password.
    SshAuth,
    /// Opening, using or closing the SSH command channel failed.
    Channel,
    /// The remote command ended with a status other than zero.
    NonZeroExit { status: i32 },
    /// The caller gave the operation up before it ended.
    Cancelled,
}

} // verus!
