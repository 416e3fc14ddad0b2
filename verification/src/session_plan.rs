//! Connection bookkeeping for a command-line run that mixes plain target
//! commands with firmware-update-service commands: which kind of session is
//! currently open, and what must happen — reuse, connect, or disconnect and
//! reconnect — to serve the next command. The surrounding application holds
//! the session handles and performs the steps; this module makes the
//! decision.

use vstd::prelude::*;

use crate::error::{ConnectionFailureKind, CubeProgrammerError};
use crate::probe::{Protocol, Serial};

verus! {

/// Which kind of session is currently open.
#[derive(Clone, Copy, Debug, PartialEq, Eq, Structural)]
pub enum ConnectionState {
    Disconnected,
    Connected,
    ConnectedFus,
}

/// What the caller must do to obtain the session the next command needs.
#[derive(Clone, Copy, Debug, PartialEq, Eq, Structural)]
pub enum ConnectionDirective {
    /// The open session is of the right kind; keep using it.
    UseCurrent,
    /// No session is open; connect.
    Connect,
    /// A session of the other kind is open; disconnect it, then connect.
    DisconnectThenConnect,
}

/// Tracks the session state of one command-line run.
#[derive(Debug)]
pub struct ProgrammerConnection {
    pub state: ConnectionState,
    pub protocol: Protocol,
}

impl ProgrammerConnection {
    /// A fresh tracker: nothing is connected.
    pub fn new(protocol: Protocol) -> (r: Self)
        ensures
            r.state == ConnectionState::Disconnected,
            r.protocol == protocol,
    {
        ProgrammerConnection { state: ConnectionState::Disconnected, protocol }
    }

    /// What must happen before a command that needs a plain target session.
    pub fn connection(&self) -> (r: ConnectionDirective)
        ensures
            self.state == ConnectionState::Connected ==> r == ConnectionDirective::UseCurrent,
            self.state == ConnectionState::Disconnected ==> r == ConnectionDirective::Connect,
            self.state == ConnectionState::ConnectedFus ==> r
                == ConnectionDirective::DisconnectThenConnect,
    {
        match self.state {
            ConnectionState::Connected => ConnectionDirective::UseCurrent,
            ConnectionState::Disconnected => ConnectionDirective::Connect,
            ConnectionState::ConnectedFus => ConnectionDirective::DisconnectThenConnect,
        }
    }

    /// What must happen before a command that needs a firmware-update-service
    /// session.
    pub fn fus_connection(&self) -> (r: ConnectionDirective)
        ensures
            self.state == ConnectionState::ConnectedFus ==> r == ConnectionDirective::UseCurrent,
            self.state == ConnectionState::Disconnected ==> r == ConnectionDirective::Connect,
            self.state == ConnectionState::Connected ==> r
                == ConnectionDirective::DisconnectThenConnect,
    {
        match self.state {
            ConnectionState::ConnectedFus => ConnectionDirective::UseCurrent,
            ConnectionState::Disconnected => ConnectionDirective::Connect,
            ConnectionState::Connected => ConnectionDirective::DisconnectThenConnect,
        }
    }

    /// Record that a plain target session is now open.
    pub fn note_connected(&mut self)
        ensures
            *final(self) == (ProgrammerConnection {
                state: ConnectionState::Connected,
                ..*old(self)
            }),
    {
        self.state = ConnectionState::Connected;
    }

    /// Record that a firmware-update-service session is now open.
    pub fn note_fus_connected(&mut self)
        ensures
            *final(self) == (ProgrammerConnection {
                state: ConnectionState::ConnectedFus,
                ..*old(self)
            }),
    {
        self.state = ConnectionState::ConnectedFus;
    }

    /// Record that no session is open.
    pub fn note_disconnected(&mut self)
        ensures
            *final(self) == (ProgrammerConnection {
                state: ConnectionState::Disconnected,
                ..*old(self)
            }),
    {
        self.state = ConnectionState::Disconnected;
    }
}

/// Select a probe: the one with the requested serial, or the first discovered
/// probe when no serial was requested. Returns the position in the list.
pub fn select_probe(probes: &Vec<Serial>, probe_serial: &Option<Serial>) -> (r: Result<
    usize,
    CubeProgrammerError,
>)
    requires
        probe_serial is None ==> probes@.len() > 0,
    ensures
        probe_serial is None ==> r == Ok::<usize, CubeProgrammerError>(0),
        probe_serial matches Some(wanted) ==> (match r {
            Ok(i) => 0 <= i < probes@.len() && probes@[i as int]@ == wanted@ && (forall|j: int|
                0 <= j < i ==> probes@[j]@ != wanted@),
            Err(e) => (forall|j: int| 0 <= j < probes@.len() ==> probes@[j]@ != wanted@)
                && e matches CubeProgrammerError::ConnectionFailure(
                ConnectionFailureKind::ProbeNotFound,
            ),
        }),
{
    match probe_serial {
        None => Ok(0),
        Some(wanted) => {
            let n = probes.len();
            let mut i: usize = 0;
            while i < n
                invariant
                    probe_serial matches Some(w) && w == *wanted,
                    0 <= i <= n,
                    n == probes@.len(),
                    forall|j: int| 0 <= j < i ==> probes@[j]@ != wanted@,
                decreases n - i,
            {
                if probes[i].matches(wanted) {
                    return Ok(i);
                }
                i = i + 1;
            }
            Err(CubeProgrammerError::ConnectionFailure(ConnectionFailureKind::ProbeNotFound))
        },
    }
}

} // verus!
