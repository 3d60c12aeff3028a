//! Logging in and out of a switch. Each operation is split at its network call: a `begin_`
//! function decides what to send, the caller sends it without holding the store's lock, and a
//! `finish_` function decides from the answer what becomes of the store.
use vstd::prelude::*;
use crate::error::{Malformed, SwitchError};
use crate::http::{is_success, success, HttpRequest, HttpResponse};
use crate::requests::{login_request, logout_request, spec_login_request, spec_logout_request};
use crate::store::{emptied, stored, SessionStore, StoreView};
use crate::transport::{build_client, settings_of, ClientSettings, HttpClient, LoginProfile, TransportConfig};

verus! {

/// What a login answers, without asking the switch, while a session is held.
pub const ALREADY_LOGGED_IN: &'static str = "Already logged in";

/// What to do for a login.
pub enum LoginStep {
    /// A session is held: nothing is sent, and the login succeeds as it is.
    AlreadyLoggedIn,
    /// Send `request` with `client` (a new client, with its own cookie jar), then hand the
    /// answer to `finish_login`.
    Authenticate { client: HttpClient, request: HttpRequest },
}

/// Decides what a login for `host` does: nothing while a session is held, otherwise build a
/// client and send the credentials.
pub fn begin_login(
    store: &SessionStore,
    config: &TransportConfig,
    host: &str,
    username: &str,
    password: &str,
) -> (r: Result<LoginStep, SwitchError>)
    ensures
        store@.session is Some ==> r matches Ok(LoginStep::AlreadyLoggedIn),
        store@.session is None ==> match r {
            Ok(LoginStep::Authenticate { client, request }) => {
                &&& client.settings() == settings_of(*config)
                &&& request@ == spec_login_request(*config, host@, username@, password@)
            },
            Ok(LoginStep::AlreadyLoggedIn) => false,
            Err(e) => e == SwitchError::TransportBuild,
        },
{
    if store.is_active() {
        return Ok(LoginStep::AlreadyLoggedIn);
    }
    let client = build_client(config)?;
    Ok(LoginStep::Authenticate { client, request: login_request(config, host, username, password) })
}

/// What a login answer means: the session cookie that the scheme hands out (none where the
/// client's cookie jar holds the session), or why the login failed.
pub open spec fn login_outcome(profile: LoginProfile, response: HttpResponse) -> Result<
    Option<Seq<char>>,
    SwitchError,
> {
    if !is_success(response.status) {
        Err(SwitchError::Auth { status: response.status, body: response.body })
    } else {
        match profile {
            LoginProfile::FormCookie => Ok(None),
            LoginProfile::JsonSession => match response.json {
                None => Err(SwitchError::MalformedResponse(Malformed::NotJson)),
                Some(j) => match j.field("cookie"@) {
                    Some(c) => match c.str_value() {
                        Some(v) => Ok(Some(v)),
                        None => Err(SwitchError::MalformedResponse(Malformed::Cookie)),
                    },
                    None => Err(SwitchError::MalformedResponse(Malformed::Cookie)),
                },
            },
        }
    }
}

/// A login for `host`, made with a client built with `settings`, that ended with `outcome`.
pub struct LoginAttempt {
    pub host: Seq<char>,
    pub settings: ClientSettings,
    pub outcome: Result<Option<Seq<char>>, SwitchError>,
}

/// The store after login `a` has ended: a failed login leaves it as it was; a successful one
/// stores its session whole, in place of any other.
pub open spec fn after_login(before: StoreView, a: LoginAttempt) -> StoreView {
    match a.outcome {
        Ok(cookie) => stored(before, a.host, cookie, a.settings),
        Err(_) => before,
    }
}

/// Ends a login for `host` with the switch's answer. On a 2xx answer the session is stored
/// and the body returned; otherwise the store is left untouched.
pub fn finish_login(
    store: &mut SessionStore,
    config: &TransportConfig,
    host: &str,
    client: HttpClient,
    response: &HttpResponse,
) -> (r: Result<String, SwitchError>)
    ensures
        final(store)@ == after_login(
            old(store)@,
            LoginAttempt {
                host: host@,
                settings: client.settings(),
                outcome: login_outcome(config.profile, *response),
            },
        ),
        match login_outcome(config.profile, *response) {
            Ok(_) => r matches Ok(b) && b@ == response.body@,
            Err(e) => r == Err::<String, SwitchError>(e),
        },
{
    if !success(response.status) {
        return Err(SwitchError::Auth { status: response.status, body: response.body.clone() });
    }
    let cookie = match config.profile {
        LoginProfile::FormCookie => None,
        LoginProfile::JsonSession => match &response.json {
            None => {
                return Err(SwitchError::MalformedResponse(Malformed::NotJson));
            },
            Some(j) => match j.get("cookie") {
                Some(c) => match c.as_str() {
                    Some(v) => Some(v.clone()),
                    None => {
                        return Err(SwitchError::MalformedResponse(Malformed::Cookie));
                    },
                },
                None => {
                    return Err(SwitchError::MalformedResponse(Malformed::Cookie));
                },
            },
        },
    };
    store.set(String::from_str(host), cookie, client);
    Ok(response.body.clone())
}

/// The store after logins for several hosts have ended one after another, in the order given.
pub open spec fn after_logins(
    before: StoreView,
    attempts: Seq<LoginAttempt>,
) -> StoreView
    decreases attempts.len(),
{
    if attempts.len() == 0 {
        before
    } else {
        after_login(after_logins(before, attempts.drop_last()), attempts.last())
    }
}

/// The index of the last attempt that succeeded; -1 where none did.
pub open spec fn last_success(attempts: Seq<LoginAttempt>) -> int
    decreases attempts.len(),
{
    if attempts.len() == 0 {
        -1
    } else if attempts.last().outcome is Ok {
        attempts.len() - 1
    } else {
        last_success(attempts.drop_last())
    }
}

proof fn lemma_last_success(attempts: Seq<LoginAttempt>)
    ensures
        -1 <= last_success(attempts) < attempts.len(),
        last_success(attempts) >= 0 ==> attempts[last_success(attempts)].outcome is Ok,
        forall|j: int|
            last_success(attempts) < j < attempts.len() ==> (#[trigger] attempts[j]).outcome is Err,
    decreases attempts.len(),
{
    if attempts.len() > 0 {
        let rest = attempts.drop_last();
        lemma_last_success(rest);
        assert forall|j: int| 0 <= j < rest.len() implies #[trigger] rest[j] == attempts[j] by {}
        assert forall|j: int| last_success(attempts) < j < attempts.len() implies (
        #[trigger] attempts[j]).outcome is Err by {
            if j < rest.len() {
                assert(rest[j].outcome is Err);
            }
        }
    }
}

/// Logins that race from an empty store each end under the store's lock, one after another
/// in some order. Whatever that order, the last of them to succeed is followed by failures
/// only, and the store ends up holding exactly its session, whole: its host, its cookie and
/// its client's settings, all of that one attempt.
/// Where none succeeded, every attempt failed and the store is still empty.
pub proof fn lemma_racing_logins(
    before: StoreView,
    attempts: Seq<LoginAttempt>,
)
    requires
        before.session is None,
    ensures
        last_success(attempts) == -1 ==> {
            &&& after_logins(before, attempts).session is None
            &&& forall|j: int| 0 <= j < attempts.len() ==> (#[trigger] attempts[j]).outcome is Err
        },
        last_success(attempts) >= 0 ==> {
            let i = last_success(attempts);
            &&& i < attempts.len()
            &&& attempts[i].outcome is Ok
            &&& forall|j: int| i < j < attempts.len() ==> (#[trigger] attempts[j]).outcome is Err
            &&& after_logins(before, attempts).session matches Some(s)
            &&& s.host == attempts[i].host
            &&& s.cookie == attempts[i].outcome->Ok_0
            &&& s.settings == attempts[i].settings
        },
    decreases attempts.len(),
{
    lemma_last_success(attempts);
    if attempts.len() > 0 {
        let rest = attempts.drop_last();
        lemma_racing_logins(before, rest);
        assert forall|j: int| 0 <= j < rest.len() implies #[trigger] rest[j] == attempts[j] by {}
    }
}

/// Whether the store holds nothing, or one whole session of a successful attempt among
/// `attempts`: host, cookie and client settings all of that one attempt.
pub open spec fn whole_or_empty(v: StoreView, attempts: Seq<LoginAttempt>) -> bool {
    match v.session {
        None => true,
        Some(s) => exists|i: int|
            0 <= i < attempts.len() && (#[trigger] attempts[i]).outcome is Ok && s.host
                == attempts[i].host && s.cookie == attempts[i].outcome->Ok_0 && s.settings
                == attempts[i].settings,
    }
}

/// A task that reads the store while logins race takes the store's lock between two of
/// them, so it sees the store after some first `k` of them to end: empty, or one whole session
/// of one of those `k`, never parts of two.
pub proof fn lemma_readers_see_whole_sessions(before: StoreView, attempts: Seq<LoginAttempt>)
    requires
        before.session is None,
    ensures
        forall|k: int|
            0 <= k <= attempts.len() ==> whole_or_empty(
                #[trigger] after_logins(before, attempts.subrange(0, k)),
                attempts.subrange(0, k),
            ),
{
    assert forall|k: int| 0 <= k <= attempts.len() implies whole_or_empty(
        #[trigger] after_logins(before, attempts.subrange(0, k)),
        attempts.subrange(0, k),
    ) by {
        let p = attempts.subrange(0, k);
        lemma_racing_logins(before, p);
        lemma_last_success(p);
        if last_success(p) >= 0 {
            let i = last_success(p);
            assert(p[i].outcome is Ok);
        }
    }
}

/// What to send to end the held session.
pub struct LogoutStep {
    pub client: HttpClient,
    /// The serial number of the session being ended.
    pub serial: u64,
    pub request: HttpRequest,
}

/// Decides what a logout sends: the held session's logout request, sent with its client.
pub fn begin_logout(store: &SessionStore, config: &TransportConfig) -> (r: Result<
    LogoutStep,
    SwitchError,
>)
    ensures
        match store@.session {
            None => r == Err::<LogoutStep, SwitchError>(SwitchError::NoActiveSession),
            Some(s) => r matches Ok(step) && step.serial == s.serial && step.client.settings()
                == s.settings && step.request@ == spec_logout_request(*config, s),
        },
{
    match store.get() {
        None => Err(SwitchError::NoActiveSession),
        Some(session) => {
            let request = logout_request(config, &session);
            Ok(LogoutStep { client: session.client, serial: session.serial, request })
        },
    }
}

/// The store after the logout of session `serial` was answered with `status`: a 2xx answer
/// empties it if it still holds that session; any other leaves it as it was.
pub open spec fn after_logout(before: StoreView, serial: u64, status: u16) -> StoreView {
    if is_success(status) && (before.session matches Some(s) && s.serial == serial) {
        emptied(before)
    } else {
        before
    }
}

/// Ends the logout of session `serial` with the switch's answer.
pub fn finish_logout(store: &mut SessionStore, serial: u64, response: &HttpResponse) -> (r: Result<
    String,
    SwitchError,
>)
    ensures
        final(store)@ == after_logout(old(store)@, serial, response.status),
        is_success(response.status) ==> (r matches Ok(b) && b@ == response.body@),
        !is_success(response.status) ==> r == Err::<String, SwitchError>(
            SwitchError::Remote { status: response.status, body: response.body },
        ),
{
    if !success(response.status) {
        return Err(SwitchError::Remote { status: response.status, body: response.body.clone() });
    }
    store.clear_if_current(serial);
    Ok(response.body.clone())
}

} // verus!
