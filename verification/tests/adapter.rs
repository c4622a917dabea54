// The adapter core, driven with scripted stream and sink outcomes: frame
// classification, the close handshake from the read side, events and
// backpressure.

use core::task::Context;
use futures::executor::block_on;
use futures::StreamExt;
use futures_test::task::noop_waker;
use pharos::{Channel, ObserveConfig};
use ws_stream_tungstenite::tung_websocket::{
    Msg, ReadStep, SinkPoll, StreamPoll, TungWebSocket, WriteStep,
};
use ws_stream_tungstenite::{CloseCode, IoKind, SocketErr, WsErr, WsEvent};

// a binary message is handed to the caller as its payload.
#[test]
fn binary_passthrough() {
    let mut ws = TungWebSocket::new();
    let w = noop_waker();
    let mut cx = Context::from_waker(&w);

    assert!(matches!(ws.poll_next_enter(&mut cx), ReadStep::NeedStream));
    let step = ws.poll_next_stream(&mut cx, StreamPoll::Item(Msg::Binary(vec![9, 8, 7])));
    assert!(matches!(step, ReadStep::Data(v) if v == vec![9, 8, 7]));
}

// a ping and a close frame become events; the stream ends once the
// connection-closed report arrives, and the one Closed event follows.
#[test]
fn ping_and_close_become_events() {
    let mut ws = TungWebSocket::new();
    let w = noop_waker();
    let mut cx = Context::from_waker(&w);
    let mut events = ws.observe(ObserveConfig::default()).expect("observe");

    assert!(matches!(ws.poll_next_enter(&mut cx), ReadStep::NeedStream));
    let step = ws.poll_next_stream(&mut cx, StreamPoll::Item(Msg::Ping(vec![1, 2, 3])));
    assert!(matches!(step, ReadStep::NeedStream));

    let step = ws.poll_next_stream(&mut cx, StreamPoll::Item(Msg::Close(None)));
    assert!(matches!(step, ReadStep::NeedStream));

    let step = ws.poll_next_stream(&mut cx, StreamPoll::Fault(SocketErr::ConnectionClosed));
    assert!(matches!(step, ReadStep::End));

    // every further poll reports end-of-stream
    assert!(matches!(ws.poll_next_enter(&mut cx), ReadStep::End));

    let e = block_on(events.next()).expect("ping event");
    assert!(matches!(e, WsEvent::Ping(p) if p == vec![1, 2, 3]));
    let e = block_on(events.next()).expect("close frame event");
    assert!(matches!(e, WsEvent::CloseFrame(None)));
    let e = block_on(events.next()).expect("closed event");
    assert!(matches!(e, WsEvent::Closed));
}

// a text message is refused: one close frame with code Unsupported goes
// out, and the caller sees end-of-stream once the remote hangs up.
#[test]
fn text_message_rejected() {
    let mut ws = TungWebSocket::new();
    let w = noop_waker();
    let mut cx = Context::from_waker(&w);
    let mut events = ws.observe(ObserveConfig::default()).expect("observe");

    assert!(matches!(ws.poll_next_enter(&mut cx), ReadStep::NeedStream));
    let step = ws.poll_next_stream(&mut cx, StreamPoll::Item(Msg::Text("Hi".to_string())));
    assert!(matches!(step, ReadStep::NeedSinkReady));

    let frame = ws.close_frame().expect("close frame");
    assert!(matches!(frame.code, CloseCode::Unsupported));
    assert_eq!("Text messages are not supported.", frame.reason);

    assert!(matches!(ws.poll_next_sink(&mut cx, SinkPoll::Accepted), ReadStep::NeedSinkSend));
    assert!(matches!(ws.poll_next_sink(&mut cx, SinkPoll::Accepted), ReadStep::NeedSinkFlush));
    assert!(matches!(ws.poll_next_sink(&mut cx, SinkPoll::Accepted), ReadStep::NeedStream));

    let step = ws.poll_next_stream(&mut cx, StreamPoll::Fault(SocketErr::ConnectionClosed));
    assert!(matches!(step, ReadStep::End));

    let e = block_on(events.next()).expect("error event");
    assert!(matches!(e, WsEvent::Error(e) if matches!(*e, WsErr::ReceivedText)));
    let e = block_on(events.next()).expect("closed event");
    assert!(matches!(e, WsEvent::Closed));
}

// a protocol violation initiates a close with code Protocol carrying the
// violation's reason, and surfaces a Protocol error event.
#[test]
fn protocol_violation_closes() {
    let mut ws = TungWebSocket::new();
    let w = noop_waker();
    let mut cx = Context::from_waker(&w);
    let mut events = ws.observe(ObserveConfig::default()).expect("observe");

    let reason = "Control frame too big (payload must be 125 bytes or less)";

    assert!(matches!(ws.poll_next_enter(&mut cx), ReadStep::NeedStream));
    let step = ws.poll_next_stream(&mut cx, StreamPoll::Fault(SocketErr::Protocol(
        reason.to_string(),
    )));
    assert!(matches!(step, ReadStep::NeedSinkReady));

    let frame = ws.close_frame().expect("close frame");
    assert!(matches!(frame.code, CloseCode::Protocol));
    assert_eq!(reason, frame.reason);

    assert!(matches!(ws.poll_next_sink(&mut cx, SinkPoll::Accepted), ReadStep::NeedSinkSend));
    assert!(matches!(ws.poll_next_sink(&mut cx, SinkPoll::Accepted), ReadStep::NeedSinkFlush));
    assert!(matches!(ws.poll_next_sink(&mut cx, SinkPoll::Accepted), ReadStep::NeedStream));

    let e = block_on(events.next()).expect("error event");
    assert!(matches!(e, WsEvent::Error(e) if matches!(*e, WsErr::Protocol)));
}

// while the sink is saturated the close frame waits; it goes out once
// the sink drains, and user writes are refused from the moment the text
// error was seen.
#[test]
fn close_waits_for_saturated_sink() {
    let mut ws = TungWebSocket::new();
    let w = noop_waker();
    let mut cx = Context::from_waker(&w);

    assert!(matches!(ws.poll_next_enter(&mut cx), ReadStep::NeedStream));
    let step = ws.poll_next_stream(&mut cx, StreamPoll::Item(Msg::Text("Hi".to_string())));
    assert!(matches!(step, ReadStep::NeedSinkReady));

    // the transport is full: the close frame cannot go out yet
    assert!(matches!(ws.poll_next_sink(&mut cx, SinkPoll::Pending), ReadStep::Pending));

    // user writes are already refused
    assert!(matches!(ws.start_send(), Err(IoKind::NotConnected)));

    // the next read poll resumes the close, and the sink has drained
    assert!(matches!(ws.poll_next_enter(&mut cx), ReadStep::NeedSinkReady));
    assert!(matches!(ws.poll_next_sink(&mut cx, SinkPoll::Accepted), ReadStep::NeedSinkSend));
    assert!(matches!(ws.poll_next_sink(&mut cx, SinkPoll::Accepted), ReadStep::NeedSinkFlush));
    assert!(matches!(ws.poll_next_sink(&mut cx, SinkPoll::Accepted), ReadStep::NeedStream));
}

// a full bounded observer channel makes the read side pend until the
// observer consumes.
#[test]
fn read_pending_on_full_observer() {
    let mut ws = TungWebSocket::new();
    let w = noop_waker();
    let mut cx = Context::from_waker(&w);
    let mut events = ws.observe(Channel::Bounded(1).into()).expect("observe");

    assert!(matches!(ws.poll_next_enter(&mut cx), ReadStep::NeedStream));
    assert!(matches!(
        ws.poll_next_stream(&mut cx, StreamPoll::Item(Msg::Ping(vec![1]))),
        ReadStep::NeedStream
    ));

    // the channel is full now: the second event cannot be delivered
    assert!(matches!(
        ws.poll_next_stream(&mut cx, StreamPoll::Item(Msg::Ping(vec![2]))),
        ReadStep::Pending
    ));
    assert!(matches!(ws.poll_next_enter(&mut cx), ReadStep::Pending));

    // the observer consumes; the adapter can proceed again
    let e = block_on(events.next()).expect("first ping");
    assert!(matches!(e, WsEvent::Ping(p) if p == vec![1]));
    assert!(matches!(ws.poll_next_enter(&mut cx), ReadStep::NeedStream));
    let e = block_on(events.next()).expect("second ping");
    assert!(matches!(e, WsEvent::Ping(p) if p == vec![2]));
}

// a transport error is fatal: it is returned in band, and the stream is
// closed from then on.
#[test]
fn io_error_is_fatal() {
    let mut ws = TungWebSocket::new();
    let w = noop_waker();
    let mut cx = Context::from_waker(&w);

    assert!(matches!(ws.poll_next_enter(&mut cx), ReadStep::NeedStream));
    let step = ws.poll_next_stream(&mut cx, StreamPoll::Fault(SocketErr::Io(
        IoKind::ConnectionReset,
    )));
    assert!(matches!(step, ReadStep::Fail(IoKind::ConnectionReset)));
    assert!(matches!(ws.poll_next_enter(&mut cx), ReadStep::End));
}

// a capacity error on read is not fatal: an event is queued and polling
// continues.
#[test]
fn capacity_error_continues() {
    let mut ws = TungWebSocket::new();
    let w = noop_waker();
    let mut cx = Context::from_waker(&w);
    let mut events = ws.observe(ObserveConfig::default()).expect("observe");

    assert!(matches!(ws.poll_next_enter(&mut cx), ReadStep::NeedStream));
    let step = ws.poll_next_stream(&mut cx, StreamPoll::Fault(SocketErr::Capacity(
        "Incoming text frame of size 70000 is bigger than the limit".to_string(),
    )));
    assert!(matches!(step, ReadStep::NeedStream));

    let e = block_on(events.next()).expect("error event");
    assert!(matches!(
        e,
        WsEvent::Error(e) if matches!(&*e, WsErr::Tungstenite { source: SocketErr::Capacity(_) })
    ));
}

// writes go through the ready gate, and errors on the write side map to
// i/o error kinds.
#[test]
fn write_side_gates_and_errors() {
    let mut ws = TungWebSocket::new();
    let w = noop_waker();
    let mut cx = Context::from_waker(&w);

    // the sink is open: readiness is delegated to the underlying sink
    assert!(matches!(ws.poll_ready_enter(&mut cx), WriteStep::NeedSinkReady));
    assert!(matches!(ws.poll_ready_sink(&mut cx, SinkPoll::Accepted), WriteStep::Ready));
    assert!(ws.start_send().is_ok());
    assert!(matches!(ws.start_send_outcome(SinkPoll::Accepted), WriteStep::Ready));

    // a capacity error on send maps to InvalidData and closes the duplex
    let step = ws.start_send_outcome(SinkPoll::Refused(SocketErr::Capacity(
        "Message too long".to_string(),
    )));
    assert!(matches!(step, WriteStep::Fail(IoKind::InvalidData)));
    assert!(matches!(ws.start_send(), Err(IoKind::NotConnected)));
    assert!(matches!(ws.poll_ready_enter(&mut cx), WriteStep::Fail(IoKind::NotConnected)));
}

// closing the sink ignores an already-closed connection, and flush
// errors pass through as their i/o kind.
#[test]
fn close_and_flush_outcomes() {
    let mut ws = TungWebSocket::new();

    assert!(matches!(ws.poll_flush_outcome(SinkPoll::Pending), WriteStep::Pending));
    assert!(matches!(ws.poll_flush_outcome(SinkPoll::Accepted), WriteStep::Ready));

    assert!(matches!(
        ws.poll_close_outcome(SinkPoll::Refused(SocketErr::ConnectionClosed)),
        WriteStep::Ready
    ));
    assert!(matches!(ws.start_send(), Err(IoKind::NotConnected)));

    let mut other = TungWebSocket::new();
    assert!(matches!(
        other.poll_close_outcome(SinkPoll::Refused(SocketErr::Io(IoKind::BrokenPipe))),
        WriteStep::Fail(IoKind::BrokenPipe)
    ));
}
