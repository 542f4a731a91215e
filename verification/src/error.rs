//! The error taxonomy shared by both transports.
//!
//! Every failure of a command is reported as a [`TransportError`]: a closed
//! category (so callers can branch without string matching) together with a
//! human-readable detail string that is surfaced verbatim to the caller.

use vstd::prelude::*;

verus! {

/// The closed set of failure categories.
#[derive(Clone, Copy, Debug, PartialEq, Eq, Structural)]
pub enum ErrorKind {
    /// A file operation was attempted while no transport is active.
    NotConnected,
    /// TCP or HTTP reachability failure, or a non-success HTTP status on the
    /// reachability check.
    ConnectionError,
    /// SSH authentication was rejected.
    AuthError,
    /// SSH handshake failure, or an unsuccessful response envelope from the
    /// Phoenix service (`success = false`).
    ProtocolError,
    /// Local filesystem or remote SFTP read/write/unlink failure.
    IoError,
    /// A response body failed to parse as the expected envelope shape.
    DecodeError,
}

/// One failure of one command: a category plus the message shown to the caller.
#[derive(Debug)]
pub struct TransportError {
    pub kind: ErrorKind,
    pub detail: String,
}

impl TransportError {
    /// Packages a category and a detail message.
    pub fn new(kind: ErrorKind, detail: String) -> (e: TransportError)
        ensures
            e.kind == kind,
            e.detail@ == detail@,
    {
        TransportError { kind, detail }
    }

    /// The human-readable message surfaced to the caller, verbatim.
    pub fn message(&self) -> (m: String)
        ensures
            m@ == self.detail@,
    {
        self.detail.clone()
    }
}

} // verus!
