// The close sender against a real websocket over an in-memory duplex:
// the frame reaches the peer, and sink errors surface as events.

use core::pin::Pin;
use core::task::{Context, Poll};

use futures::executor::block_on;
use futures::future::join;
use futures::StreamExt;
use futures_sink::Sink;
use futures_test::task::noop_waker;
use futures_ringbuf::Endpoint;

use async_tungstenite::WebSocketStream as ATungSocket;
use tungstenite::protocol::frame::coding::CloseCode as TungCloseCode;
use tungstenite::protocol::{CloseFrame as TungCloseFrame, Role};
use tungstenite::Message;

use ws_stream_tungstenite::tung_websocket::closer::{Closer, CloserStep, SinkTask};
use ws_stream_tungstenite::tung_websocket::notifier::{Notifier, RunOutcome};
use ws_stream_tungstenite::tung_websocket::SinkPoll;
use ws_stream_tungstenite::{CloseCode, CloseFrameData, SocketErr, WsErr, WsEvent};

fn err_model(e: tungstenite::Error) -> SocketErr {
    match e {
        tungstenite::Error::ConnectionClosed => SocketErr::ConnectionClosed,
        tungstenite::Error::AlreadyClosed => SocketErr::AlreadyClosed,
        tungstenite::Error::Io(_) => SocketErr::Io(ws_stream_tungstenite::IoKind::Other),
        tungstenite::Error::Protocol(p) => SocketErr::Protocol(p.to_string()),
        tungstenite::Error::Capacity(c) => SocketErr::Capacity(c.to_string()),
        tungstenite::Error::Utf8(s) => SocketErr::Utf8(s),
        tungstenite::Error::WriteBufferFull(_) => SocketErr::WriteBufferFull,
        other => panic!("unexpected websocket error in test: {other:?}"),
    }
}

fn poll_model(p: Poll<Result<(), tungstenite::Error>>) -> SinkPoll {
    match p {
        Poll::Pending => SinkPoll::Pending,
        Poll::Ready(Ok(())) => SinkPoll::Accepted,
        Poll::Ready(Err(e)) => SinkPoll::Refused(err_model(e)),
    }
}

// Drive the closer to a terminal step against a real message sink.
fn run_closer<T>(
    closer: &mut Closer,
    notif: &mut Notifier,
    sink: &mut T,
    cx: &mut Context<'_>,
) -> CloserStep
where
    T: Sink<Message, Error = tungstenite::Error> + Unpin,
{
    loop {
        let task = closer.task().expect("the closer should have a sink task to offer");
        let outcome = match task {
            SinkTask::Ready => poll_model(Pin::new(&mut *sink).poll_ready(cx)),
            SinkTask::Flush => poll_model(Pin::new(&mut *sink).poll_flush(cx)),
            SinkTask::Send => {
                let frame = closer.close_frame().expect("a close frame is on its way out");
                let tung = TungCloseFrame {
                    code: TungCloseCode::from(frame.code.to_u16()),
                    reason: frame.reason.clone().into(),
                };
                match Pin::new(&mut *sink).start_send(Message::Close(Some(tung))) {
                    Ok(()) => SinkPoll::Accepted,
                    Err(e) => SinkPoll::Refused(err_model(e)),
                }
            },
        };
        match closer.apply(notif, outcome) {
            CloserStep::Continue => continue,
            step => return step,
        }
    }
}

// Tested:
//
// - closer actually sends out on sink
#[test]
fn send_closeframe() {
    let (sc, cs) = Endpoint::pair(100, 100);

    let test = async {
        let mut sink = ATungSocket::from_raw_socket(sc, Role::Server, None).await.split().0;
        let mut stream = ATungSocket::from_raw_socket(cs, Role::Client, None).await.split().1;

        let mut notif = Notifier::new();
        let mut closer = Closer::new();
        let waker = noop_waker();
        let mut cx = Context::from_waker(&waker);

        let writer = async {
            closer
                .queue(CloseFrameData {
                    code: CloseCode::Unsupported,
                    reason: "tada".to_string(),
                })
                .expect("no double close");

            let p = run_closer(&mut closer, &mut notif, &mut sink, &mut cx);

            assert!(matches!(p, CloserStep::Done));
        };

        let reader = async {
            let frame = TungCloseFrame {
                code: TungCloseCode::Unsupported,
                reason: "tada".into(),
            };

            assert_eq!(
                Some(Message::Close(Some(frame))),
                stream.next().await.transpose().expect("close")
            );
        };

        join(reader, writer).await;
    };

    block_on(test);
}

// Tested:
//
// - notifying errors through the event broadcast
#[test]
fn notify_errors() {
    let (sc, cs) = Endpoint::pair(100, 100);

    let test = async {
        let mut sink = ATungSocket::from_raw_socket(sc, Role::Server, None).await.split().0;
        let mut stream = ATungSocket::from_raw_socket(cs, Role::Client, None).await.split().1;

        let mut notif = Notifier::new();
        let mut events = notif.observe(pharos::ObserveConfig::default()).expect("observe server");
        let mut closer = Closer::new();
        let waker = noop_waker();
        let mut cx = Context::from_waker(&waker);

        let writer = async {
            sink.close(None).await.expect("close sink");

            closer
                .queue(CloseFrameData {
                    code: CloseCode::Unsupported,
                    reason: "tada".to_string(),
                })
                .expect("queue close");

            // the send is refused since the sink is already closed; the
            // websocket library still flushes, so the closer finishes,
            // with the refusal queued as an event
            let p = run_closer(&mut closer, &mut notif, &mut sink, &mut cx);

            assert!(matches!(p, CloserStep::Done));
            assert_eq!(1, notif.events_len());

            let n = notif.run(&mut cx);

            assert!(matches!(n, RunOutcome::Done));
        };

        let reader = async {
            assert_eq!(
                Some(Message::Close(None)),
                stream.next().await.transpose().expect("close")
            );

            // Verify the error can be observed here
            match events.next().await.expect("error") {
                WsEvent::Error(e) => {
                    assert!(matches!(*e, WsErr::Protocol));
                },
                _ => unreachable!("expect closeframe"),
            }
        };

        join(reader, writer).await;
    };

    block_on(test);
}
