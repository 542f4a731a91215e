//! The connection state machine: at most one live transport at any time.
//!
//! `ConnectionState` is the tagged union over `Disconnected`, an active
//! Phoenix session and an active SSH session. It is mutated only by the two
//! connect operations, which on success unconditionally replace whatever was
//! active before (there is no explicit disconnect), and on failure leave the
//! state exactly as it was. The network steps themselves (HTTP reachability
//! probe; TCP, SSH handshake, password authentication) are performed by the
//! embedding application, which reports each attempt's outcome here as a
//! plain event; this module decides the resulting state, the failure
//! category, and the message.

use vstd::prelude::*;
use vstd::string::StringExecFns;

use crate::error::{ErrorKind, TransportError};

verus! {

/// The fixed port of the Phoenix diagnostic service.
pub const PHOENIX_PORT: u16 = 5800;

/// The abstract value of a [`ConnectionState`]: which transport is active,
/// with the plain data the logic reads.
pub enum SessionView {
    Disconnected,
    Phoenix { host: Seq<char>, port: u16 },
    Ssh { host: Seq<char>, username: Seq<char> },
}

/// The single connection slot of the process. Holding the live transport
/// handles (HTTP client, SSH session) is the embedding application's part;
/// this type carries what the dispatch logic reads.
pub enum ConnectionState {
    Disconnected,
    PhoenixActive { host: String, port: u16 },
    SshActive { host: String, username: String },
}

impl View for ConnectionState {
    type V = SessionView;

    open spec fn view(&self) -> SessionView {
        match self {
            ConnectionState::Disconnected => SessionView::Disconnected,
            ConnectionState::PhoenixActive { host, port } => SessionView::Phoenix {
                host: host@,
                port: *port,
            },
            ConnectionState::SshActive { host, username } => SessionView::Ssh {
                host: host@,
                username: username@,
            },
        }
    }
}

impl ConnectionState {
    /// The initial state of a process: no transport active.
    pub fn new() -> (s: ConnectionState)
        ensures
            s@ is Disconnected,
    {
        ConnectionState::Disconnected
    }
}

/// Outcome of the Phoenix reachability probe (`GET /api/v1/status`),
/// as observed by the embedding application.
pub enum PhoenixProbe {
    /// The endpoint answered with a success status: the host is reachable.
    Reachable,
    /// The endpoint answered with a non-success status.
    BadStatus,
    /// The request itself failed; `detail` describes the underlying cause.
    Unreachable { detail: String },
}

/// Outcome of the three-step SSH connect, reported by the first step that
/// failed: TCP connection, session setup, SSH handshake, then password
/// authentication. Later steps are never attempted after a failure.
pub enum SshConnectOutcome {
    /// All steps succeeded: an authenticated session is live.
    Established,
    /// The TCP connection to port 22 could not be opened.
    TcpFailed { detail: String },
    /// A fresh SSH session could not be set up locally.
    SessionInitFailed { detail: String },
    /// The SSH protocol handshake failed.
    HandshakeFailed { detail: String },
    /// The server rejected the password credentials.
    AuthFailed { detail: String },
}

/// State after a Phoenix connect attempt: a reachable host installs a new
/// Phoenix session on the fixed port, anything else leaves the state alone.
pub open spec fn connect_phoenix_transition(s: SessionView, host: Seq<char>, reachable: bool) -> SessionView {
    if reachable {
        SessionView::Phoenix { host, port: PHOENIX_PORT }
    } else {
        s
    }
}

/// State after an SSH connect attempt: an established, authenticated session
/// replaces whatever was active, anything else leaves the state alone.
pub open spec fn connect_ssh_transition(
    s: SessionView,
    host: Seq<char>,
    username: Seq<char>,
    established: bool,
) -> SessionView {
    if established {
        SessionView::Ssh { host, username }
    } else {
        s
    }
}

/// The message reported for a successful Phoenix connect.
pub open spec fn phoenix_connected_message(host: Seq<char>) -> Seq<char> {
    "Connected to Phoenix Tuner X on "@ + host
}

/// The message reported when the status endpoint answers without success.
pub open spec fn phoenix_bad_status_message() -> Seq<char> {
    "Failed to connect to Phoenix diagnostic server"@
}

/// The message reported when the status request itself fails.
pub open spec fn phoenix_unreachable_message(detail: Seq<char>) -> Seq<char> {
    "Connection error: "@ + detail + ". Make sure Phoenix Tuner X is running on port 5800."@
}

/// The message reported for a successful SSH connect.
pub open spec fn ssh_connected_message(host: Seq<char>, username: Seq<char>) -> Seq<char> {
    "Connected via SSH to "@ + host + " as "@ + username
}

/// Establishes (or fails to establish) the Phoenix transport, given the
/// probe's outcome. Success replaces any previous session of either kind;
/// failure is a `ConnectionError` and leaves the previous session untouched.
pub fn connect_phoenix(state: &mut ConnectionState, host: &str, probe: PhoenixProbe) -> (r: Result<
    String,
    TransportError,
>)
    ensures
        final(state)@ == connect_phoenix_transition(old(state)@, host@, probe is Reachable),
        probe is Reachable ==> (r matches Ok(m) && m@ == phoenix_connected_message(host@)),
        probe is BadStatus ==> (r matches Err(e) && e.kind == ErrorKind::ConnectionError
            && e.detail@ == phoenix_bad_status_message()),
        probe matches PhoenixProbe::Unreachable { detail } ==> (r matches Err(e) && e.kind
            == ErrorKind::ConnectionError && e.detail@ == phoenix_unreachable_message(detail@)),
{
    match probe {
        PhoenixProbe::Reachable => {
            *state = ConnectionState::PhoenixActive { host: host.to_owned(), port: PHOENIX_PORT };
            let mut m = "Connected to Phoenix Tuner X on ".to_owned();
            m.append(host);
            Ok(m)
        },
        PhoenixProbe::BadStatus => Err(
            TransportError::new(
                ErrorKind::ConnectionError,
                "Failed to connect to Phoenix diagnostic server".to_owned(),
            ),
        ),
        PhoenixProbe::Unreachable { detail } => {
            let mut m = "Connection error: ".to_owned();
            m.append(detail.as_str());
            m.append(". Make sure Phoenix Tuner X is running on port 5800.");
            Err(TransportError::new(ErrorKind::ConnectionError, m))
        },
    }
}

/// Establishes (or fails to establish) the SSH transport, given the outcome
/// of the connect steps. Success replaces any previous session of either
/// kind; each failing step has its own category — network, protocol, or
/// authentication — and leaves the previous session untouched.
pub fn connect_ssh(
    state: &mut ConnectionState,
    host: &str,
    username: &str,
    outcome: SshConnectOutcome,
) -> (r: Result<String, TransportError>)
    ensures
        final(state)@ == connect_ssh_transition(
            old(state)@,
            host@,
            username@,
            outcome is Established,
        ),
        outcome is Established ==> (r matches Ok(m) && m@ == ssh_connected_message(
            host@,
            username@,
        )),
        outcome matches SshConnectOutcome::TcpFailed { detail } ==> (r matches Err(e) && e.kind
            == ErrorKind::ConnectionError && e.detail@ == "Failed to connect to SSH: "@ + detail@),
        outcome matches SshConnectOutcome::SessionInitFailed { detail } ==> (r matches Err(e)
            && e.kind == ErrorKind::ConnectionError && e.detail@ == "SSH error: "@ + detail@),
        outcome matches SshConnectOutcome::HandshakeFailed { detail } ==> (r matches Err(e)
            && e.kind == ErrorKind::ProtocolError && e.detail@ == "Handshake failed: "@ + detail@),
        outcome matches SshConnectOutcome::AuthFailed { detail } ==> (r matches Err(e) && e.kind
            == ErrorKind::AuthError && e.detail@ == "Authentication failed: "@ + detail@),
{
    match outcome {
        SshConnectOutcome::Established => {
            *state = ConnectionState::SshActive {
                host: host.to_owned(),
                username: username.to_owned(),
            };
            let mut m = "Connected via SSH to ".to_owned();
            m.append(host);
            m.append(" as ");
            m.append(username);
            Ok(m)
        },
        SshConnectOutcome::TcpFailed { detail } => {
            let mut m = "Failed to connect to SSH: ".to_owned();
            m.append(detail.as_str());
            Err(TransportError::new(ErrorKind::ConnectionError, m))
        },
        SshConnectOutcome::SessionInitFailed { detail } => {
            let mut m = "SSH error: ".to_owned();
            m.append(detail.as_str());
            Err(TransportError::new(ErrorKind::ConnectionError, m))
        },
        SshConnectOutcome::HandshakeFailed { detail } => {
            let mut m = "Handshake failed: ".to_owned();
            m.append(detail.as_str());
            Err(TransportError::new(ErrorKind::ProtocolError, m))
        },
        SshConnectOutcome::AuthFailed { detail } => {
            let mut m = "Authentication failed: ".to_owned();
            m.append(detail.as_str());
            Err(TransportError::new(ErrorKind::AuthError, m))
        },
    }
}

/// One connect attempt, abstractly: which transport was asked for, with what
/// arguments, and whether it succeeded.
pub enum ConnectCall {
    Phoenix { host: Seq<char>, reachable: bool },
    Ssh { host: Seq<char>, username: Seq<char>, established: bool },
}

/// Whether the attempt succeeded.
pub open spec fn call_succeeds(c: ConnectCall) -> bool {
    match c {
        ConnectCall::Phoenix { reachable, .. } => reachable,
        ConnectCall::Ssh { established, .. } => established,
    }
}

/// The session a successful attempt installs.
pub open spec fn session_of(c: ConnectCall) -> SessionView {
    match c {
        ConnectCall::Phoenix { host, .. } => SessionView::Phoenix { host, port: PHOENIX_PORT },
        ConnectCall::Ssh { host, username, .. } => SessionView::Ssh { host, username },
    }
}

/// The state reached from `s` by one connect attempt.
pub open spec fn connect_step(s: SessionView, c: ConnectCall) -> SessionView {
    match c {
        ConnectCall::Phoenix { host, reachable } => connect_phoenix_transition(s, host, reachable),
        ConnectCall::Ssh { host, username, established } => connect_ssh_transition(
            s,
            host,
            username,
            established,
        ),
    }
}

/// The state reached from `s` by a sequence of connect attempts, in order.
pub open spec fn apply_connects(s: SessionView, calls: Seq<ConnectCall>) -> SessionView
    decreases calls.len(),
{
    if calls.len() == 0 {
        s
    } else {
        connect_step(apply_connects(s, calls.drop_last()), calls.last())
    }
}

/// Last write wins: after any sequence of connect attempts whose last attempt
/// succeeds, the active session is exactly the last attempt's — whatever the
/// starting state was and whatever the earlier attempts did.
pub proof fn lemma_last_connect_wins(s: SessionView, calls: Seq<ConnectCall>)
    requires
        calls.len() > 0,
        call_succeeds(calls.last()),
    ensures
        apply_connects(s, calls) == session_of(calls.last()),
{
}

} // verus!
