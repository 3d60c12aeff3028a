//! How to reach a switch, and the HTTP client built from that.
use vstd::prelude::*;
use crate::error::SwitchError;

verus! {

/// The two login schemes that switch firmware offers.
#[derive(Debug, Clone, Copy, PartialEq, Eq, Structural)]
pub enum LoginProfile {
    /// `POST .../login` with form fields; the session lives in the client's cookie jar.
    FormCookie,
    /// `POST .../login-sessions` with a JSON body answering `{"cookie": id}`; later requests
    /// carry `Cookie: sessionId=<id>`.
    JsonSession,
}

/// The fixed query of the event log. All values are sent percent-encoded.
pub struct EventLogQuery {
    pub priority: String,
    pub since: String,
    pub until: String,
    pub limit: String,
    /// The value of the `x-csrf-token` header.
    pub csrf_token: String,
}

/// The policy for talking to a switch; fixed once a client has been built from it.
pub struct TransportConfig {
    pub profile: LoginProfile,
    /// The API version path segment, such as `v10.12`.
    pub api_version: String,
    /// Accept any TLS certificate. This turns certificate checking off: it must be chosen
    /// on purpose.
    pub accept_invalid_certs: bool,
    /// The total time allowed to one request, in seconds.
    pub timeout_secs: u64,
    pub event_log: EventLogQuery,
}

#[verifier::external_type_specification]
#[verifier::external_body]
pub struct ExClient(reqwest::Client);

#[verifier::external_type_specification]
#[verifier::external_body]
pub struct ExReqwestError(reqwest::Error);

/// How an HTTP client was built.
#[derive(Debug, Clone, Copy, PartialEq, Eq, Structural)]
pub struct ClientSettings {
    /// Certificate checking is off.
    pub accept_invalid_certs: bool,
    /// The client keeps the cookies that answers set and sends them back.
    pub cookie_store: bool,
    /// The total time allowed to one request, in seconds.
    pub timeout_secs: u64,
}

/// The settings that a configuration asks of a client: its certificate policy and timeout,
/// and a cookie jar that lives as long as the client.
pub open spec fn settings_of(config: TransportConfig) -> ClientSettings {
    ClientSettings {
        accept_invalid_certs: config.accept_invalid_certs,
        cookie_store: true,
        timeout_secs: config.timeout_secs,
    }
}

/// An HTTP client together with the settings it was built with.
pub struct HttpClient {
    client: reqwest::Client,
    settings: Ghost<ClientSettings>,
}

impl HttpClient {
    pub closed spec fn settings(&self) -> ClientSettings {
        self.settings@
    }

    /// The client, to send requests with.
    pub fn handle(&self) -> &reqwest::Client {
        &self.client
    }

    /// A second handle on the same client, cookie jar included.
    pub fn share(&self) -> (r: HttpClient)
        ensures
            r.settings() == self.settings(),
    {
        HttpClient { client: self.client.clone(), settings: Ghost(self.settings@) }
    }
}

/// Relies on `Clone` for `reqwest::Client`: a second handle on the same client, cookie jar
/// included.
pub assume_specification[ <reqwest::Client as Clone>::clone ](c: &reqwest::Client) -> reqwest::Client;

/// Relies on `reqwest::ClientBuilder`: `danger_accept_invalid_certs`, `cookie_store` and
/// `timeout` record their setting in the builder, and `build` makes a client with those
/// settings, or fails where the TLS backend or the resolver cannot be set up.
#[verifier::external_body]
fn build_with(accept_invalid_certs: bool, timeout_secs: u64) -> (r: Result<HttpClient, reqwest::Error>)
    ensures
        r matches Ok(c) ==> c.settings() == (ClientSettings {
            accept_invalid_certs,
            cookie_store: true,
            timeout_secs,
        }),
{
    let built = reqwest::Client::builder()
        .danger_accept_invalid_certs(accept_invalid_certs)
        .cookie_store(true)
        .timeout(core::time::Duration::from_secs(timeout_secs))
        .build()?;
    let settings = ClientSettings { accept_invalid_certs, cookie_store: true, timeout_secs };
    Ok(HttpClient { client: built, settings: Ghost(settings) })
}

/// Builds the HTTP client for a switch: the certificate policy, the timeout, and a cookie jar
/// that lives as long as the client. Nothing is sent.
pub fn build_client(config: &TransportConfig) -> (r: Result<HttpClient, SwitchError>)
    ensures
        r matches Ok(c) ==> c.settings() == settings_of(*config),
        r matches Err(e) ==> e == SwitchError::TransportBuild,
{
    match build_with(config.accept_invalid_certs, config.timeout_secs) {
        Ok(c) => Ok(c),
        Err(_) => Err(SwitchError::TransportBuild),
    }
}

} // verus!
