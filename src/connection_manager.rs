use vstd::prelude::*;

use crate::profiles::{same_profile, ConnectionProfile};
use crate::text::copy_str;

verus! {

/// A failure reported by the connection backend, with its text kept as it was.
#[derive(Debug, Clone, PartialEq, Eq)]
pub struct BackendError {
    message: String,
}

impl BackendError {
    pub closed spec fn text(&self) -> Seq<char> {
        self.message@
    }

    pub fn new(message: &str) -> (r: Self)
        ensures
            r.text() == message@,
    {
        BackendError { message: copy_str(message) }
    }

    pub fn message(&self) -> (r: &str)
        ensures
            r@ == self.text(),
    {
        self.message.as_str()
    }
}

/// What the interface shows of the session.
#[derive(Debug, Clone, PartialEq, Eq)]
pub struct ConnectionStatus {
    pub profile_name: Option<String>,
    pub is_connected: bool,
    pub last_latency_ms: Option<u64>,
    pub last_health_check_at_ms: Option<u64>,
}

impl ConnectionStatus {
    pub fn disconnected() -> (r: Self)
        ensures
            r.profile_name is None,
            !r.is_connected,
            r.last_latency_ms is None,
            r.last_health_check_at_ms is None,
    {
        ConnectionStatus {
            profile_name: None,
            is_connected: false,
            last_latency_ms: None,
            last_health_check_at_ms: None,
        }
    }
}

#[derive(Debug, Clone, PartialEq, Eq)]
pub enum ConnectionManagerError {
    AlreadyConnected { active_profile: String },
    NotConnected,
    Backend(BackendError),
}

/// The one active session, driven step by step: the caller asks whether an operation may
/// start, performs the backend work, and reports how it went.
#[derive(Debug)]
pub struct ConnectionManager {
    active: Option<ConnectionProfile>,
    last_latency_ms: Option<u64>,
    last_health_check_at_ms: Option<u64>,
}

impl ConnectionManager {
    pub closed spec fn active_view(&self) -> Option<ConnectionProfile> {
        self.active
    }

    pub closed spec fn latency_view(&self) -> Option<u64> {
        self.last_latency_ms
    }

    pub closed spec fn checked_at_view(&self) -> Option<u64> {
        self.last_health_check_at_ms
    }

    pub fn new() -> (r: Self)
        ensures
            r.active_view() is None,
            r.latency_view() is None,
            r.checked_at_view() is None,
    {
        ConnectionManager { active: None, last_latency_ms: None, last_health_check_at_ms: None }
    }

    pub fn status(&self) -> (r: ConnectionStatus)
        ensures
            r.is_connected == self.active_view() is Some,
            self.active_view() is Some ==> r.profile_name is Some && r.profile_name->0@
                == self.active_view()->0.name@,
            self.active_view() is None ==> r.profile_name is None,
            r.last_latency_ms == self.latency_view(),
            r.last_health_check_at_ms == self.checked_at_view(),
    {
        ConnectionStatus {
            profile_name: match &self.active {
                Some(p) => Some(copy_str(p.name.as_str())),
                None => None,
            },
            is_connected: self.active.is_some(),
            last_latency_ms: self.last_latency_ms,
            last_health_check_at_ms: self.last_health_check_at_ms,
        }
    }

    pub fn active_profile(&self) -> (r: Option<&ConnectionProfile>)
        ensures
            r is Some == self.active_view() is Some,
            r is Some ==> *r->0 == self.active_view()->0,
    {
        match &self.active {
            Some(p) => Some(p),
            None => None,
        }
    }

    /// A connect may start only when no session exists.
    pub fn begin_connect(&self) -> (r: Result<(), ConnectionManagerError>)
        ensures
            self.active_view() is None ==> r is Ok,
            self.active_view() is Some ==> (r matches Err(ConnectionManagerError::AlreadyConnected { active_profile }) && active_profile@ == self.active_view()->0.name@),
    {
        match &self.active {
            Some(p) => Err(
                ConnectionManagerError::AlreadyConnected { active_profile: copy_str(p.name.as_str()) },
            ),
            None => Ok(()),
        }
    }

    /// Adopts a session once the backend opened and pinged it (`outcome`): refused while
    /// a session exists; on success the session is kept with its latency and check time;
    /// on failure nothing is kept.
    pub fn connect(
        &mut self,
        profile: ConnectionProfile,
        outcome: Result<(), BackendError>,
        latency_ms: u64,
        now_ms: u64,
    ) -> (r: Result<u64, ConnectionManagerError>)
        ensures
            old(self).active_view() is Some ==> (r matches Err(ConnectionManagerError::AlreadyConnected { active_profile }) && active_profile@ == old(self).active_view()->0.name@) && *final(self) == *old(self),
            old(self).active_view() is None ==> match outcome {
                Ok(()) => {
                    &&& r == Ok::<u64, ConnectionManagerError>(latency_ms)
                    &&& final(self).active_view() is Some
                    &&& same_profile(final(self).active_view()->0, profile)
                    &&& final(self).latency_view() == Some(latency_ms)
                    &&& final(self).checked_at_view() == Some(now_ms)
                },
                Err(e) => {
                    &&& r == Err::<u64, ConnectionManagerError>(ConnectionManagerError::Backend(e))
                    &&& *final(self) == *old(self)
                },
            },
    {
        match self.begin_connect() {
            Err(e) => return Err(e),
            Ok(()) => {},
        }
        match outcome {
            Ok(()) => {
                self.last_latency_ms = Some(latency_ms);
                self.last_health_check_at_ms = Some(now_ms);
                self.active = Some(profile.duplicate());
                Ok(latency_ms)
            },
            Err(e) => Err(ConnectionManagerError::Backend(e)),
        }
    }

    /// A health check needs a session.
    pub fn begin_health_check(&self) -> (r: Result<(), ConnectionManagerError>)
        ensures
            self.active_view() is Some ==> r is Ok,
            self.active_view() is None ==> r == Err::<(), ConnectionManagerError>(
                ConnectionManagerError::NotConnected,
            ),
    {
        if self.active.is_some() {
            Ok(())
        } else {
            Err(ConnectionManagerError::NotConnected)
        }
    }

    /// Records a ping of the session (`outcome`): refused without a session; success
    /// records latency and check time.
    pub fn health_check(
        &mut self,
        outcome: Result<(), BackendError>,
        latency_ms: u64,
        now_ms: u64,
    ) -> (r: Result<u64, ConnectionManagerError>)
        ensures
            final(self).active_view() == old(self).active_view(),
            old(self).active_view() is None ==> r == Err::<u64, ConnectionManagerError>(ConnectionManagerError::NotConnected) && *final(self) == *old(self),
            old(self).active_view() is Some ==> match outcome {
                Ok(()) => {
                    &&& r == Ok::<u64, ConnectionManagerError>(latency_ms)
                    &&& final(self).latency_view() == Some(latency_ms)
                    &&& final(self).checked_at_view() == Some(now_ms)
                },
                Err(e) => {
                    &&& r == Err::<u64, ConnectionManagerError>(ConnectionManagerError::Backend(e))
                    &&& *final(self) == *old(self)
                },
            },
    {
        if self.active.is_none() {
            return Err(ConnectionManagerError::NotConnected);
        }
        match outcome {
            Ok(()) => {
                self.last_latency_ms = Some(latency_ms);
                self.last_health_check_at_ms = Some(now_ms);
                Ok(latency_ms)
            },
            Err(e) => Err(ConnectionManagerError::Backend(e)),
        }
    }

    /// Ends the session, if any, handing back its profile for the backend to close.
    pub fn begin_disconnect(&mut self) -> (r: Option<ConnectionProfile>)
        ensures
            r == old(self).active_view(),
            final(self).active_view() is None,
            final(self).latency_view() == old(self).latency_view(),
            final(self).checked_at_view() == old(self).checked_at_view(),
    {
        let mut taken: Option<ConnectionProfile> = None;
        core::mem::swap(&mut taken, &mut self.active);
        taken
    }

    /// Closes the session after the backend reported `outcome`; idempotent without a
    /// session. The session is gone either way; whenever `Ok` comes back, latency and check
    /// time are cleared too, so the status reads as disconnected.
    pub fn disconnect(&mut self, outcome: Result<(), BackendError>) -> (r: Result<(), ConnectionManagerError>)
        ensures
            final(self).active_view() is None,
            r is Ok ==> final(self).latency_view() is None && final(self).checked_at_view() is None,
            old(self).active_view() is None ==> r is Ok,
            old(self).active_view() is Some ==> match outcome {
                Ok(()) => r is Ok,
                Err(e) => r == Err::<(), ConnectionManagerError>(ConnectionManagerError::Backend(e))
                    && final(self).latency_view() == old(self).latency_view()
                    && final(self).checked_at_view() == old(self).checked_at_view(),
            },
    {
        if self.begin_disconnect().is_none() {
            self.last_latency_ms = None;
            self.last_health_check_at_ms = None;
            return Ok(());
        }
        match outcome {
            Ok(()) => {
                self.last_latency_ms = None;
                self.last_health_check_at_ms = None;
                Ok(())
            },
            Err(e) => Err(ConnectionManagerError::Backend(e)),
        }
    }
}

} // verus!
