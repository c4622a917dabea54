//! The error types of the adapter, together with the plain-value models of
//! the errors the underlying socket and transport can report.

use vstd::prelude::*;

verus! {

/// The kind of an i/o error, as the adapter reads or produces it.
#[derive(Clone, Copy, Debug, PartialEq, Eq, Structural)]
pub enum IoKind {
    /// The connection is not connected (used for writes after close).
    NotConnected,
    /// The data did not fit the configured limits.
    InvalidData,
    /// The pipe broke under the connection.
    BrokenPipe,
    /// The connection was aborted.
    ConnectionAborted,
    /// The connection was reset by the peer.
    ConnectionReset,
    /// The connection was refused.
    ConnectionRefused,
    /// The operation timed out.
    TimedOut,
    /// The stream ended in the middle of a frame.
    UnexpectedEof,
    /// The operation would block.
    WouldBlock,
    /// Permission was denied.
    PermissionDenied,
    /// The operation was interrupted.
    Interrupted,
    /// A write returned zero bytes.
    WriteZero,
    /// Any other kind of i/o error.
    Other,
}

/// The errors the underlying websocket library reports, as plain values.
///
/// Only what the adapter's logic reads is kept: the variant, and the reason
/// strings it forwards. Errors that can only arise during a handshake are
/// not representable here; the driver treats them as invariant violations
/// before they reach this library.
#[derive(Clone, Debug)]
pub enum SocketErr {
    /// The connection is closed normally; no more data will come.
    ConnectionClosed,
    /// The connection was used after it was already closed.
    AlreadyClosed,
    /// An i/o error on the underlying transport, by its kind. The driver
    /// keeps the error value itself and passes it through to the caller;
    /// the logic only ever reads the kind.
    Io(IoKind),
    /// The remote violated the websocket protocol; the reason describes how.
    Protocol(String),
    /// A text message failed utf-8 validation.
    Utf8(String),
    /// A message exceeded a configured capacity; the reason describes it.
    Capacity(String),
    /// The write buffer of the underlying library is full.
    WriteBufferFull,
}

impl SocketErr {
    /// Whether this error can legitimately be reported by a send on the
    /// sink. The remaining variants on the write path indicate a bug in the
    /// adapter and are answered by aborting, never by an error value.
    pub open spec fn sendable(self) -> bool {
        match self {
            SocketErr::Io(_) => true,
            SocketErr::ConnectionClosed => true,
            SocketErr::AlreadyClosed => true,
            SocketErr::Capacity(_) => true,
            SocketErr::Protocol(_) => false,
            SocketErr::Utf8(_) => false,
            SocketErr::WriteBufferFull => false,
        }
    }
}

/// The error type of the adapter.
#[derive(Clone, Debug)]
pub enum WsErr {
    /// An unclassified error from the underlying websocket library.
    Tungstenite {
        /// The underlying error.
        source: SocketErr,
    },
    /// An error from the underlying connection.
    Io {
        /// The kind of the underlying error.
        source: IoKind,
    },
    /// A websocket protocol violation by the remote. On the write path this
    /// never appears: there it would mean a bug in the adapter, and the
    /// driver aborts instead.
    Protocol,
    /// The remote sent a text message; only binary messages are supported
    /// over a byte stream.
    ReceivedText,
    /// The adapter is already closed. Only happens on writing and on
    /// observing; a read just returns end-of-stream.
    Closed,
}

impl WsErr {
    /// A human-readable description of this error.
    pub fn message(&self) -> String {
        match self {
            WsErr::Tungstenite { source: _ } => {
                "A tungstenite error happened.".to_string()
            },
            WsErr::Io { source: _ } => "An io error happened.".to_string(),
            WsErr::Protocol => {
                "The remote committed a websocket protocol violation.".to_string()
            },
            WsErr::ReceivedText => {
                "The remote sent a Text message. Only Binary messages are accepted.".to_string()
            },
            WsErr::Closed => "The connection is already closed.".to_string(),
        }
    }
}

impl From<SocketErr> for WsErr {
    /// A protocol violation maps to `Protocol`; everything else is carried
    /// as an unclassified library error.
    fn from(inner: SocketErr) -> (e: WsErr) {
        match inner {
            SocketErr::Protocol(_) => WsErr::Protocol,
            source => WsErr::Tungstenite { source },
        }
    }
}

impl vstd::std_specs::convert::FromSpecImpl<SocketErr> for WsErr {
    open spec fn obeys_from_spec() -> bool {
        true
    }

    open spec fn from_spec(inner: SocketErr) -> WsErr {
        match inner {
            SocketErr::Protocol(_) => WsErr::Protocol,
            source => WsErr::Tungstenite { source },
        }
    }
}

impl From<IoKind> for WsErr {
    /// An i/o error is carried by its kind.
    fn from(source: IoKind) -> (e: WsErr) {
        WsErr::Io { source }
    }
}

impl vstd::std_specs::convert::FromSpecImpl<IoKind> for WsErr {
    open spec fn obeys_from_spec() -> bool {
        true
    }

    open spec fn from_spec(source: IoKind) -> WsErr {
        WsErr::Io { source }
    }
}

} // verus!
