//! A duplex byte-stream adapter over a WebSocket session.
//!
//! The crate models the WebSocket session as a message-granular stream and
//! sink. All decision logic - message classification, the close-frame state
//! machine, event queueing and delivery, write sizing and chunked reads - is
//! verified here. The i/o itself (polling the socket, waking tasks) is left
//! to a thin unverified driver that performs the sink and stream operations
//! this library asks for and reports their outcomes back.

pub mod error;
pub mod tung_websocket;
pub mod ws_event;
pub mod ws_err;
pub mod ws_stream;

pub use crate::error::{Error, ErrorKind};
pub use crate::ws_event::{CloseCode, CloseFrameData, WsEvent};
pub use crate::ws_err::{IoKind, SocketErr, WsErr};
pub use crate::ws_stream::{SocketConfig, WsStream};
