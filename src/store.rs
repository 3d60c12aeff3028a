//! The one session that the process holds with a switch.
use vstd::prelude::*;
use crate::transport::{ClientSettings, HttpClient};

verus! {

/// An authenticated relationship with one switch: its host, the session cookie where the
/// login scheme hands one out, the number the store gave it, and the HTTP client that carries
/// the switch's cookies.
pub struct Session {
    pub host: String,
    pub cookie: Option<String>,
    pub serial: u64,
    pub client: HttpClient,
}

/// What can be said of a session: its host, cookie and number, and how its client was built.
pub struct SessionRecord {
    pub host: Seq<char>,
    pub cookie: Option<Seq<char>>,
    pub serial: u64,
    pub settings: ClientSettings,
}

pub open spec fn opt_view(s: Option<String>) -> Option<Seq<char>> {
    match s {
        Some(t) => Some(t@),
        None => None,
    }
}

impl View for Session {
    type V = SessionRecord;

    open spec fn view(&self) -> SessionRecord {
        SessionRecord {
            host: self.host@,
            cookie: opt_view(self.cookie),
            serial: self.serial,
            settings: self.client.settings(),
        }
    }
}

pub fn clone_opt(s: &Option<String>) -> (r: Option<String>)
    ensures
        opt_view(r) == opt_view(*s),
{
    match s {
        Some(t) => Some(t.clone()),
        None => None,
    }
}

impl Session {
    /// A second handle on the same session, for one request.
    pub fn share(&self) -> (r: Session)
        ensures
            r@ == self@,
    {
        Session {
            host: self.host.clone(),
            cookie: clone_opt(&self.cookie),
            serial: self.serial,
            client: self.client.share(),
        }
    }
}

/// The holder of at most one session. Callers that share it across tasks keep it behind one
/// lock, held for a single call of a method here and never across a network call.
pub struct SessionStore {
    current: Option<Session>,
    next_serial: u64,
}

pub struct StoreView {
    pub session: Option<SessionRecord>,
    /// The number that the next stored session gets.
    pub next_serial: u64,
}

impl View for SessionStore {
    type V = StoreView;

    closed spec fn view(&self) -> StoreView {
        StoreView {
            session: match self.current {
                Some(s) => Some(s@),
                None => None,
            },
            next_serial: self.next_serial,
        }
    }
}

/// The serial number after `n`, starting over at zero after `u64::MAX`.
pub open spec fn serial_after(n: u64) -> u64 {
    if n == u64::MAX {
        0
    } else {
        (n + 1) as u64
    }
}

/// The store once a session for `host` has been stored in it, whatever it held before.
pub open spec fn stored(
    before: StoreView,
    host: Seq<char>,
    cookie: Option<Seq<char>>,
    settings: ClientSettings,
) -> StoreView {
    StoreView {
        session: Some(SessionRecord { host, cookie, serial: before.next_serial, settings }),
        next_serial: serial_after(before.next_serial),
    }
}

/// The store once emptied.
pub open spec fn emptied(before: StoreView) -> StoreView {
    StoreView { session: None, next_serial: before.next_serial }
}

impl SessionStore {
    pub fn new() -> (r: SessionStore)
        ensures
            r@ == (StoreView { session: None, next_serial: 0 }),
    {
        SessionStore { current: None, next_serial: 0 }
    }

    pub fn is_active(&self) -> (r: bool)
        ensures
            r == self@.session is Some,
    {
        self.current.is_some()
    }

    /// Stores a session for `host`, dropping the one held before; returns its serial number.
    pub fn set(&mut self, host: String, cookie: Option<String>, client: HttpClient) -> (serial: u64)
        ensures
            final(self)@ == stored(old(self)@, host@, opt_view(cookie), client.settings()),
            serial == old(self)@.next_serial,
    {
        let serial = self.next_serial;
        self.current = Some(Session { host, cookie, serial, client });
        self.next_serial = if serial == u64::MAX {
            0
        } else {
            serial + 1
        };
        serial
    }

    /// A handle on the held session, if any.
    pub fn get(&self) -> (r: Option<Session>)
        ensures
            match r {
                Some(s) => self@.session == Some(s@),
                None => self@.session is None,
            },
    {
        match &self.current {
            Some(s) => Some(s.share()),
            None => None,
        }
    }

    pub fn clear(&mut self)
        ensures
            final(self)@ == emptied(old(self)@),
    {
        self.current = None;
    }

    /// Empties the store if it still holds the session numbered `serial`, so that ending one
    /// session never drops another stored meanwhile. Returns whether it did.
    pub fn clear_if_current(&mut self, serial: u64) -> (r: bool)
        ensures
            r == (old(self)@.session matches Some(s) && s.serial == serial),
            final(self)@ == if r {
                emptied(old(self)@)
            } else {
                old(self)@
            },
    {
        let held = match &self.current {
            Some(s) => s.serial == serial,
            None => false,
        };
        if held {
            self.current = None;
        }
        held
    }
}

} // verus!
