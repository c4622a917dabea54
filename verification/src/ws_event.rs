//! Out-of-band events observed on the websocket, and the close-frame data
//! that travels with them.

use vstd::prelude::*;
use std::sync::Arc;
use crate::ws_err::WsErr;

verus! {

/// Status code carried by a close frame.
///
/// Only the codes this adapter reads or writes are named; every other code
/// is carried through as `Other`.
#[derive(Clone, Copy, Debug, PartialEq, Eq, Structural)]
pub enum CloseCode {
    /// 1000: normal closure.
    Normal,
    /// 1001: endpoint going away.
    Away,
    /// 1002: protocol violation.
    Protocol,
    /// 1003: received a kind of data it cannot accept.
    Unsupported,
    /// Any other code, by numeric value.
    Other(u16),
}

impl CloseCode {
    /// The numeric value of this close code on the wire.
    pub fn to_u16(&self) -> (n: u16)
        ensures
            n == self.as_u16(),
    {
        match self {
            CloseCode::Normal => 1000,
            CloseCode::Away => 1001,
            CloseCode::Protocol => 1002,
            CloseCode::Unsupported => 1003,
            CloseCode::Other(n) => *n,
        }
    }

    /// What `to_u16` returns.
    pub open spec fn as_u16(self) -> u16 {
        match self {
            CloseCode::Normal => 1000,
            CloseCode::Away => 1001,
            CloseCode::Protocol => 1002,
            CloseCode::Unsupported => 1003,
            CloseCode::Other(n) => n,
        }
    }
}

/// The contents of a close frame: a status code and a human-readable reason.
#[derive(Clone, Debug)]
pub struct CloseFrameData {
    /// The status code.
    pub code: CloseCode,
    /// The reason string.
    pub reason: String,
}

/// Events that can happen on the websocket beyond the byte stream itself.
///
/// These are delivered through the stream obtained from `observe`: close,
/// ping and pong frames cannot be surfaced through a byte read, and non-fatal
/// errors are reported here so the close handshake can still be driven to
/// completion through further reads.
#[derive(Clone, Debug)]
pub enum WsEvent {
    /// A non-fatal error happened. The connection is still usable enough to
    /// drive the close handshake to completion by polling the read side.
    Error(Arc<WsErr>),
    /// The remote sent a close frame. Keep polling the read side until
    /// end-of-stream; the close handshake is completed for you.
    CloseFrame(Option<CloseFrameData>),
    /// The remote sent a ping with this payload. It is answered
    /// automatically as long as the read side is polled.
    Ping(Vec<u8>),
    /// The remote sent a pong with this payload.
    Pong(Vec<u8>),
    /// The connection is closed: reads will return end-of-stream and writes
    /// will be refused. No events follow this one.
    Closed,
}

} // verus!
