// The byte-stream shim: write sizing against the budget, vectored write
// plans, chunked reads with partial consumption, and buffered reads.

use core::task::Context;
use futures_test::task::noop_waker;
use ws_stream_tungstenite::tung_websocket::{Msg, SinkPoll, StreamPoll, WriteStep};
use ws_stream_tungstenite::ws_stream::{BridgeFill, BridgeRead, VecPlan};
use ws_stream_tungstenite::{SocketConfig, SocketErr, WsStream};

fn small(budget: usize) -> WsStream {
    WsStream::new(SocketConfig { max_write_buffer_size: budget, max_message_size: None })
}

// the budget is the smaller of the write buffer and the message limit.
#[test]
fn budget_from_config() {
    let ws = WsStream::new(SocketConfig { max_write_buffer_size: 128, max_message_size: Some(50) });
    assert_eq!(50, ws.write_budget());

    let ws = WsStream::new(SocketConfig { max_write_buffer_size: 128, max_message_size: None });
    assert_eq!(128, ws.write_budget());

    let ws = WsStream::new(SocketConfig {
        max_write_buffer_size: 64,
        max_message_size: Some(1024),
    });
    assert_eq!(64, ws.write_budget());
}

// a write takes the whole buffer up to the budget; a bigger buffer is
// capped at the budget and the caller reissues the rest.
#[test]
fn write_take_caps_at_budget() {
    let ws = small(100);
    assert_eq!(50, ws.write_take(50));
    assert_eq!(100, ws.write_take(100));
    assert_eq!(100, ws.write_take(101));
    assert_eq!(0, ws.write_take(0));
}

// vectored writes take whole buffers while they fit together.
#[test]
fn vectored_plan_takes_prefix() {
    let ws = small(10);
    let plan = ws.vectored_plan(&vec![3, 4, 5, 1]);
    assert!(matches!(plan, VecPlan::Take(2)));

    let plan = ws.vectored_plan(&vec![3, 4, 3]);
    assert!(matches!(plan, VecPlan::Take(3)));

    let plan = ws.vectored_plan(&vec![0, 0, 4, 0, 6, 9]);
    assert!(matches!(plan, VecPlan::Take(5)));
}

// all-empty buffers write nothing; an oversized first non-empty buffer
// falls back to a scalar write of that buffer.
#[test]
fn vectored_plan_edge_cases() {
    let ws = small(10);
    assert!(matches!(ws.vectored_plan(&vec![]), VecPlan::Empty));
    assert!(matches!(ws.vectored_plan(&vec![0, 0, 0]), VecPlan::Empty));
    assert!(matches!(ws.vectored_plan(&vec![11, 2]), VecPlan::Scalar(0)));
    assert!(matches!(ws.vectored_plan(&vec![0, 0, 11, 2]), VecPlan::Scalar(2)));
}

// a message bigger than the caller's buffer is handed out in pieces; a
// following read drains the rest before pulling a new message.
#[test]
fn partial_chunk_read() {
    let mut ws = small(100);
    let w = noop_waker();
    let mut cx = Context::from_waker(&w);

    assert!(matches!(ws.poll_read_enter(&mut cx, 2), BridgeRead::NeedStream));
    let step = ws.poll_read_stream(&mut cx, 2, StreamPoll::Item(Msg::Binary(vec![1, 2, 3, 4, 5])));
    assert!(matches!(step, BridgeRead::Filled(b) if b == vec![1, 2]));

    let step = ws.poll_read_enter(&mut cx, 2);
    assert!(matches!(step, BridgeRead::Filled(b) if b == vec![3, 4]));

    let step = ws.poll_read_enter(&mut cx, 10);
    assert!(matches!(step, BridgeRead::Filled(b) if b == vec![5]));

    // the chunk is exhausted: the next read pulls from the stream again
    assert!(matches!(ws.poll_read_enter(&mut cx, 10), BridgeRead::NeedStream));
    let step = ws.poll_read_stream(&mut cx, 10, StreamPoll::End);
    assert!(matches!(step, BridgeRead::Filled(b) if b.is_empty()));
}

// bytes split over several messages come out in order: a line broken in
// two messages is reassembled by the byte reader.
#[test]
fn split_frames_reassemble() {
    let mut ws = small(100);
    let w = noop_waker();
    let mut cx = Context::from_waker(&w);

    let mut collected: Vec<u8> = Vec::new();
    for payload in [b"A ".to_vec(), b"line\n".to_vec(), b"A second line\n".to_vec()] {
        assert!(matches!(ws.poll_read_enter(&mut cx, 64), BridgeRead::NeedStream));
        match ws.poll_read_stream(&mut cx, 64, StreamPoll::Item(Msg::Binary(payload))) {
            BridgeRead::Filled(b) => collected.extend_from_slice(&b),
            other => panic!("unexpected read step: {:?}", other),
        }
    }
    assert_eq!(b"A line\nA second line\n".to_vec(), collected);

    assert!(matches!(ws.poll_read_enter(&mut cx, 64), BridgeRead::NeedStream));
    let step = ws.poll_read_stream(&mut cx, 64, StreamPoll::End);
    assert!(matches!(step, BridgeRead::Filled(b) if b.is_empty()));
}

// buffered reads expose the chunk from the cursor on, and consume
// advances it.
#[test]
fn fill_and_consume() {
    let mut ws = small(100);
    let w = noop_waker();
    let mut cx = Context::from_waker(&w);

    assert!(matches!(ws.poll_fill_enter(&mut cx), BridgeFill::NeedStream));
    let step = ws.poll_fill_stream(&mut cx, StreamPoll::Item(Msg::Binary(b"abc".to_vec())));
    assert!(matches!(step, BridgeFill::Have));

    let v = ws.buffered_vec().expect("chunk");
    assert_eq!(b"abc".to_vec(), v.clone());
    assert_eq!(0, ws.buffered_cursor());

    ws.consume(2);
    let v = ws.buffered_vec().expect("chunk");
    assert_eq!(b'c', v[ws.buffered_cursor()]);

    ws.consume(1);
    assert!(ws.buffered_vec().is_none());

    assert!(matches!(ws.poll_fill_enter(&mut cx), BridgeFill::NeedStream));
    assert!(matches!(ws.poll_fill_stream(&mut cx, StreamPoll::End), BridgeFill::Eof));
    assert!(matches!(ws.poll_fill_enter(&mut cx), BridgeFill::Eof));
}

// an empty payload yields no zero-byte read mid-stream: the byte reader
// skips it and polls the stream again, reserving a zero-byte read for
// end-of-stream.
#[test]
fn read_skips_empty_payload() {
    let mut ws = small(100);
    let w = noop_waker();
    let mut cx = Context::from_waker(&w);

    assert!(matches!(ws.poll_read_enter(&mut cx, 8), BridgeRead::NeedStream));
    let step = ws.poll_read_stream(&mut cx, 8, StreamPoll::Item(Msg::Binary(Vec::new())));
    assert!(matches!(step, BridgeRead::NeedStream));

    let step = ws.poll_read_stream(&mut cx, 8, StreamPoll::Item(Msg::Binary(vec![7])));
    assert!(matches!(step, BridgeRead::Filled(b) if b == vec![7]));

    assert!(matches!(ws.poll_read_enter(&mut cx, 8), BridgeRead::NeedStream));
    let step = ws.poll_read_stream(&mut cx, 8, StreamPoll::End);
    assert!(matches!(step, BridgeRead::Filled(b) if b.is_empty()));
}

// an empty payload buffers nothing for a buffered read; the stream is
// polled again.
#[test]
fn fill_skips_empty_payload() {
    let mut ws = small(100);
    let w = noop_waker();
    let mut cx = Context::from_waker(&w);

    assert!(matches!(ws.poll_fill_enter(&mut cx), BridgeFill::NeedStream));
    let step = ws.poll_fill_stream(&mut cx, StreamPoll::Item(Msg::Binary(Vec::new())));
    assert!(matches!(step, BridgeFill::NeedStream));
}

// the write session of the byte stream delegates to the core: ready,
// send, flush; a refused payload surfaces as an i/o error kind.
#[test]
fn bridge_write_session() {
    let mut ws = small(5);
    let w = noop_waker();
    let mut cx = Context::from_waker(&w);

    assert!(matches!(ws.poll_ready_enter(&mut cx), WriteStep::NeedSinkReady));
    assert!(matches!(ws.poll_ready_sink(&mut cx, SinkPoll::Accepted), WriteStep::Ready));

    // the caller wants to write 9 bytes; only 5 go into this message
    assert_eq!(5, ws.write_take(9));
    assert!(ws.start_send().is_ok());
    assert!(matches!(ws.start_send_outcome(SinkPoll::Accepted), WriteStep::Ready));
    assert!(matches!(ws.poll_flush_outcome(SinkPoll::Accepted), WriteStep::Ready));

    // closing the sink refuses further writes
    assert!(matches!(ws.poll_close_outcome(SinkPoll::Accepted), WriteStep::Ready));
    assert!(ws.start_send().is_err());
}

// a read-side fault surfaces through the byte reader as its kind.
#[test]
fn bridge_read_fault() {
    let mut ws = small(100);
    let w = noop_waker();
    let mut cx = Context::from_waker(&w);

    assert!(matches!(ws.poll_read_enter(&mut cx, 8), BridgeRead::NeedStream));
    let step = ws.poll_read_stream(&mut cx, 8, StreamPoll::Fault(SocketErr::Io(
        ws_stream_tungstenite::IoKind::UnexpectedEof,
    )));
    assert!(matches!(
        step,
        BridgeRead::Fail(ws_stream_tungstenite::IoKind::UnexpectedEof)
    ));
}
