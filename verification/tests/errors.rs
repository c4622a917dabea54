// The error types: kinds, conversions and messages.

use ws_stream_tungstenite::tung_websocket::to_io_error;
use ws_stream_tungstenite::{
    CloseCode, Error, ErrorKind, IoKind, SocketErr, WsErr,
};

#[test]
fn error_kind_matchable() {
    let e = Error::from(ErrorKind::Closed);
    assert_eq!(&ErrorKind::Closed, e.kind());

    let e = Error::from(SocketErr::Protocol("bad frame".to_string()));
    assert_eq!(&ErrorKind::Protocol, e.kind());

    let e = Error::from(SocketErr::ConnectionClosed);
    assert_eq!(&ErrorKind::Tungstenite, e.kind());

    let e = Error::from(IoKind::BrokenPipe);
    assert_eq!(&ErrorKind::Io, e.kind());
}

#[test]
fn error_kind_messages() {
    assert_eq!(
        "The remote committed a websocket protocol violation.",
        ErrorKind::Protocol.message()
    );
    assert_eq!(
        "The remote sent a Text message. Only Binary messages are allowed.",
        ErrorKind::ReceivedText.message()
    );
    assert_eq!("An io error happened.", ErrorKind::Io.message());
}

#[test]
fn ws_err_from_socket_err() {
    assert!(matches!(WsErr::from(SocketErr::Protocol("x".to_string())), WsErr::Protocol));
    assert!(matches!(
        WsErr::from(SocketErr::Utf8("bad".to_string())),
        WsErr::Tungstenite { source: SocketErr::Utf8(_) }
    ));
    assert!(matches!(
        WsErr::from(IoKind::TimedOut),
        WsErr::Io { source: IoKind::TimedOut }
    ));
}

#[test]
fn ws_err_messages() {
    assert_eq!(
        "The remote sent a Text message. Only Binary messages are accepted.",
        WsErr::ReceivedText.message()
    );
    assert_eq!("The connection is already closed.", WsErr::Closed.message());
}

// the error mapping for send-side errors: i/o passes through, closed
// connections become NotConnected, capacity becomes InvalidData.
#[test]
fn io_error_mapping() {
    assert_eq!(IoKind::BrokenPipe, to_io_error(&SocketErr::Io(IoKind::BrokenPipe)));
    assert_eq!(IoKind::NotConnected, to_io_error(&SocketErr::ConnectionClosed));
    assert_eq!(IoKind::NotConnected, to_io_error(&SocketErr::AlreadyClosed));
    assert_eq!(
        IoKind::InvalidData,
        to_io_error(&SocketErr::Capacity("Message too long".to_string()))
    );
}

#[test]
fn close_codes_on_the_wire() {
    assert_eq!(1000, CloseCode::Normal.to_u16());
    assert_eq!(1001, CloseCode::Away.to_u16());
    assert_eq!(1002, CloseCode::Protocol.to_u16());
    assert_eq!(1003, CloseCode::Unsupported.to_u16());
    assert_eq!(4000, CloseCode::Other(4000).to_u16());
}
