// The close sender: a single close frame per lifetime, driven task by
// task against scripted sink outcomes.

use ws_stream_tungstenite::tung_websocket::closer::{Closer, CloserStep, SinkTask, State};
use ws_stream_tungstenite::tung_websocket::notifier::Notifier;
use ws_stream_tungstenite::tung_websocket::SinkPoll;
use ws_stream_tungstenite::{CloseCode, CloseFrameData, SocketErr, WsErr, WsEvent};

// Tested:
//
// - do not accept a second close frame
#[test]
fn no_double_close() {
    let mut closer = Closer::new();

    closer
        .queue(CloseFrameData { code: CloseCode::Unsupported, reason: "tada".to_string() })
        .expect("queue close");

    assert!(
        closer
            .queue(CloseFrameData { code: CloseCode::Unsupported, reason: "second".to_string() })
            .is_err()
    );
}

// the frame goes out in order: ready, send, flush, done.
#[test]
fn closer_send_sequence() {
    let mut closer = Closer::new();
    let mut notif = Notifier::new();

    assert!(closer.task().is_none());

    closer
        .queue(CloseFrameData { code: CloseCode::Unsupported, reason: "tada".to_string() })
        .expect("queue close");

    assert_eq!(Some(SinkTask::Ready), closer.task());
    let frame = closer.close_frame().expect("frame");
    assert!(matches!(frame.code, CloseCode::Unsupported));
    assert_eq!("tada", frame.reason);

    assert_eq!(CloserStep::Continue, closer.apply(&mut notif, SinkPoll::Accepted));
    assert_eq!(Some(SinkTask::Send), closer.task());

    assert_eq!(CloserStep::Continue, closer.apply(&mut notif, SinkPoll::Accepted));
    assert_eq!(Some(SinkTask::Flush), closer.task());

    assert_eq!(CloserStep::Done, closer.apply(&mut notif, SinkPoll::Accepted));
    assert!(closer.task().is_none());
    assert!(matches!(closer.state(), State::Closed));

    // nothing was queued on the notifier: no sink errors happened
    assert_eq!(0, notif.events_len());
}

// a sink that reports pending leaves the closer in place, and a flush
// that was suspended still completes the close later.
#[test]
fn closer_pending_then_flush() {
    let mut closer = Closer::new();
    let mut notif = Notifier::new();

    closer
        .queue(CloseFrameData { code: CloseCode::Protocol, reason: "boom".to_string() })
        .expect("queue close");

    // not ready yet: stay in place
    assert_eq!(CloserStep::Pending, closer.apply(&mut notif, SinkPoll::Pending));
    assert_eq!(Some(SinkTask::Ready), closer.task());

    assert_eq!(CloserStep::Continue, closer.apply(&mut notif, SinkPoll::Accepted));
    assert_eq!(CloserStep::Continue, closer.apply(&mut notif, SinkPoll::Accepted));

    // flush suspends; the resumed flush still completes the close
    assert_eq!(CloserStep::Pending, closer.apply(&mut notif, SinkPoll::Pending));
    assert!(matches!(closer.state(), State::Flushing));
    assert_eq!(CloserStep::Done, closer.apply(&mut notif, SinkPoll::Accepted));
    assert!(matches!(closer.state(), State::Closed));
}

// errors from the sink become events on the notifier, not return values.
#[test]
fn closer_notifies_errors() {
    let mut closer = Closer::new();
    let mut notif = Notifier::new();

    closer
        .queue(CloseFrameData { code: CloseCode::Unsupported, reason: "tada".to_string() })
        .expect("queue close");

    let step = closer.apply(
        &mut notif,
        SinkPoll::Refused(SocketErr::Protocol("Sending after closing is not allowed".to_string())),
    );

    assert_eq!(CloserStep::Failed, step);
    assert!(matches!(closer.state(), State::SinkError));
    assert_eq!(1, notif.events_len());
    assert!(closer.task().is_none());
}

// a refused send still drives one flush, and the error is queued.
#[test]
fn closer_send_refused_still_flushes() {
    let mut closer = Closer::new();
    let mut notif = Notifier::new();

    closer
        .queue(CloseFrameData { code: CloseCode::Unsupported, reason: "tada".to_string() })
        .expect("queue close");

    assert_eq!(CloserStep::Continue, closer.apply(&mut notif, SinkPoll::Accepted));
    assert_eq!(Some(SinkTask::Send), closer.task());

    let step = closer.apply(&mut notif, SinkPoll::Refused(SocketErr::Io(
        ws_stream_tungstenite::IoKind::BrokenPipe,
    )));
    assert_eq!(CloserStep::Continue, step);
    assert_eq!(Some(SinkTask::Flush), closer.task());
    assert_eq!(1, notif.events_len());

    assert_eq!(CloserStep::Done, closer.apply(&mut notif, SinkPoll::Accepted));
    assert!(matches!(closer.state(), State::Closed));
}

// the error event carries the mapped error value.
#[test]
fn closer_error_event_value() {
    let mut closer = Closer::new();
    let mut notif = Notifier::new();
    let mut evts = notif.observe(pharos::Channel::Unbounded.into()).expect("observe");

    closer
        .queue(CloseFrameData { code: CloseCode::Unsupported, reason: "tada".to_string() })
        .expect("queue close");

    closer.apply(&mut notif, SinkPoll::Refused(SocketErr::Protocol("nope".to_string())));

    let w = futures_test::task::noop_waker();
    let mut cx = core::task::Context::from_waker(&w);
    let _ = notif.run(&mut cx);

    let evt = futures::executor::block_on(futures::StreamExt::next(&mut evts)).expect("event");
    assert!(matches!(evt, WsEvent::Error(e) if matches!(*e, WsErr::Protocol)));
}
