//! The error type used by the event machinery, matchable by kind.

use vstd::prelude::*;
use crate::ws_err::{IoKind, SocketErr};

verus! {

/// The different kinds of errors that can happen when you use the adapter.
#[derive(Clone, Copy, Debug, PartialEq, Eq, Structural)]
pub enum ErrorKind {
    /// An unclassified error of the underlying websocket library.
    Tungstenite,
    /// An error from the underlying connection.
    Io,
    /// A websocket protocol violation by the remote.
    Protocol,
    /// The remote sent a text message, which is not supported.
    ReceivedText,
    /// Trying to work with a connection that is closed.
    Closed,
}

impl ErrorKind {
    /// A human-readable description of this kind of error.
    pub fn message(&self) -> String {
        match self {
            ErrorKind::Tungstenite => "A tungstenite error happened.".to_string(),
            ErrorKind::Io => "An io error happened.".to_string(),
            ErrorKind::Protocol => {
                "The remote committed a websocket protocol violation.".to_string()
            },
            ErrorKind::ReceivedText => {
                "The remote sent a Text message. Only Binary messages are allowed.".to_string()
            },
            ErrorKind::Closed => "The connection is already closed.".to_string(),
        }
    }
}

/// An error with a matchable kind.
///
/// Use [`Error::kind`] to know which kind of error happened.
#[derive(Clone, Debug)]
pub struct Error {
    /// The kind of error that happened.
    pub kind: ErrorKind,
}

impl Error {
    /// Allows matching on the error kind.
    pub fn kind(&self) -> (k: &ErrorKind)
        ensures
            *k == self.kind,
    {
        &self.kind
    }

    /// A human-readable description of this error.
    pub fn message(&self) -> String {
        self.kind.message()
    }
}

impl From<ErrorKind> for Error {
    /// An error is built from its kind alone.
    fn from(kind: ErrorKind) -> (e: Error) {
        Error { kind }
    }
}

impl vstd::std_specs::convert::FromSpecImpl<ErrorKind> for Error {
    open spec fn obeys_from_spec() -> bool {
        true
    }

    open spec fn from_spec(kind: ErrorKind) -> Error {
        Error { kind }
    }
}

impl From<SocketErr> for Error {
    /// A protocol violation maps to the `Protocol` kind; everything else is
    /// carried as an unclassified library error.
    fn from(inner: SocketErr) -> (e: Error) {
        match inner {
            SocketErr::Protocol(_) => Error { kind: ErrorKind::Protocol },
            _ => Error { kind: ErrorKind::Tungstenite },
        }
    }
}

impl vstd::std_specs::convert::FromSpecImpl<SocketErr> for Error {
    open spec fn obeys_from_spec() -> bool {
        true
    }

    open spec fn from_spec(inner: SocketErr) -> Error {
        match inner {
            SocketErr::Protocol(_) => Error { kind: ErrorKind::Protocol },
            _ => Error { kind: ErrorKind::Tungstenite },
        }
    }
}

impl From<IoKind> for Error {
    /// An i/o error maps to the `Io` kind.
    fn from(_inner: IoKind) -> (e: Error) {
        Error { kind: ErrorKind::Io }
    }
}

impl vstd::std_specs::convert::FromSpecImpl<IoKind> for Error {
    open spec fn obeys_from_spec() -> bool {
        true
    }

    open spec fn from_spec(_inner: IoKind) -> Error {
        Error { kind: ErrorKind::Io }
    }
}

} // verus!
