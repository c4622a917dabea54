//! The byte-stream shim over the message-granular adapter: chunked reads
//! with an internal cursor, write sizing against the configured budget,
//! vectored writes, and buffered reads.

use vstd::prelude::*;
use core::task::Context;
use pharos::{Events, ObserveConfig};
use crate::tung_websocket::{
    Msg, ReadStep, SinkPoll, StreamPoll, TungWebSocket, WriteStep, close_initiated, pushed_event,
    write_step_ok,
};
use crate::tung_websocket::closer::SinkTask;
use crate::ws_event::{CloseCode, CloseFrameData};
use crate::ws_err::{IoKind, SocketErr, WsErr};
use crate::ws_event::WsEvent;

verus! {

/// What the adapter reads of the underlying socket's configuration.
#[derive(Clone, Copy, Debug)]
pub struct SocketConfig {
    /// The most bytes the underlying library will buffer for one write.
    pub max_write_buffer_size: usize,
    /// The largest message the underlying library accepts, if bounded.
    pub max_message_size: Option<usize>,
}

/// What one step of a byte read produced.
#[derive(Clone, Debug)]
pub enum BridgeRead {
    /// Bytes for the caller; empty means end-of-stream.
    Filled(Vec<u8>),
    /// Nothing can progress; return pending to the caller.
    Pending,
    /// A fatal transport error, by its kind.
    Fail(IoKind),
    /// An invariant violation: the driver must abort.
    Bug,
    /// Poll the sink for readiness, then resume with the outcome.
    NeedSinkReady,
    /// Hand the close frame to the sink, then resume with the outcome.
    NeedSinkSend,
    /// Poll the sink's flush, then resume with the outcome.
    NeedSinkFlush,
    /// Poll the message stream, then resume with what it produced.
    NeedStream,
}

/// What one step of a buffered read produced.
#[derive(Clone, Debug)]
pub enum BridgeFill {
    /// The buffer holds bytes; read them with `buffered_vec` and
    /// `buffered_cursor`, and release them with `consume`.
    Have,
    /// End of stream: nothing is buffered and nothing more will come.
    Eof,
    /// Nothing can progress; return pending to the caller.
    Pending,
    /// A fatal transport error, by its kind.
    Fail(IoKind),
    /// An invariant violation: the driver must abort.
    Bug,
    /// Poll the sink for readiness, then resume with the outcome.
    NeedSinkReady,
    /// Hand the close frame to the sink, then resume with the outcome.
    NeedSinkSend,
    /// Poll the sink's flush, then resume with the outcome.
    NeedSinkFlush,
    /// Poll the message stream, then resume with what it produced.
    NeedStream,
}

/// How a vectored write consumes the caller's buffers.
#[derive(Clone, Copy, Debug)]
pub enum VecPlan {
    /// Every buffer is empty; the write reports zero bytes.
    Empty,
    /// The first non-empty buffer alone exceeds the budget: write that
    /// one buffer scalar-wise (it will be truncated to the budget).
    Scalar(usize),
    /// Take this many whole buffers from the front; together they fit
    /// the budget and the next buffer would not.
    Take(usize),
}

/// The sum of the first `k` buffer lengths.
pub open spec fn sum_prefix(lens: Seq<usize>, k: int) -> int
    decreases k,
{
    if k <= 0 {
        0
    } else {
        sum_prefix(lens, k - 1) + lens[k - 1]
    }
}

/// Prefix sums of lengths only grow.
pub proof fn lemma_sum_prefix_mono(lens: Seq<usize>, a: int, b: int)
    requires
        0 <= a <= b,
        b <= lens.len(),
    ensures
        sum_prefix(lens, a) <= sum_prefix(lens, b),
    decreases b,
{
    if a < b {
        lemma_sum_prefix_mono(lens, a, b - 1);
    }
}

/// The byte-stream face of the adapter: reads come from the current
/// chunk, a binary message at a time; writes are capped by the budget the
/// socket configuration allows.
pub struct WsStream {
    inner: TungWebSocket,
    chunk: Option<Vec<u8>>,
    cursor: usize,
    buffer_size: usize,
}

impl WsStream {
    /// The adapter core underneath.
    pub closed spec fn core_spec(&self) -> TungWebSocket {
        self.inner
    }

    /// The per-write byte budget.
    pub closed spec fn budget(&self) -> usize {
        self.buffer_size
    }

    /// The bytes pulled from the socket and not yet read by the caller.
    pub closed spec fn buffered(&self) -> Seq<u8> {
        match self.chunk {
            Some(v) => v@.skip(self.cursor as int),
            None => Seq::empty(),
        }
    }

    /// The stream's invariant: the core is well formed, and a held chunk
    /// always has unread bytes.
    pub open spec fn wf(&self) -> bool {
        &&& self.core_spec().wf()
        &&& match self.chunk_spec() {
            Some(v) => self.cursor_spec() < v.len(),
            None => self.cursor_spec() == 0,
        }
    }

    /// The held chunk's view, if one is held.
    pub closed spec fn chunk_spec(&self) -> Option<Seq<u8>> {
        match self.chunk {
            Some(v) => Some(v@),
            None => None,
        }
    }

    /// The read cursor into the held chunk.
    pub closed spec fn cursor_spec(&self) -> int {
        self.cursor as int
    }

    /// Create a byte stream over a fresh adapter. The write budget is the
    /// smaller of the configured write buffer and the maximum message
    /// size, determined once here.
    pub fn new(config: SocketConfig) -> (ws: WsStream)
        ensures
            ws.wf(),
            ws.core_spec().phase_spec() is Idle,
            ws.core_spec().flags() == (crate::tung_websocket::Flags {
                notifier_pend: false,
                closer_pend: false,
                pharos_closed: false,
                sink_closed: false,
                stream_closed: false,
            }),
            ws.core_spec().closer_spec().spec_state() is Ready,
            !ws.core_spec().closer_spec().sent(),
            ws.core_spec().notifier_spec().spec_state() is Ready,
            ws.core_spec().events_log() == Seq::<WsEvent>::empty(),
            ws.buffered() == Seq::<u8>::empty(),
            ws.budget() == (match config.max_message_size {
                Some(m) => if m < config.max_write_buffer_size {
                    m as int
                } else {
                    config.max_write_buffer_size as int
                },
                None => config.max_write_buffer_size as int,
            }),
    {
        let buffer_size = match config.max_message_size {
            Some(m) => {
                if m < config.max_write_buffer_size {
                    m
                } else {
                    config.max_write_buffer_size
                }
            },
            None => config.max_write_buffer_size,
        };
        WsStream { inner: TungWebSocket::new(), chunk: None, cursor: 0, buffer_size }
    }

    /// The write budget, as a caller can read it.
    pub fn write_budget(&self) -> (n: usize)
        ensures
            n == self.budget(),
    {
        self.buffer_size
    }

    /// How many bytes of a write of `buf_len` bytes go out: the whole
    /// write, capped by the budget. The caller reissues the remainder.
    pub fn write_take(&self, buf_len: usize) -> (n: usize)
        ensures
            n == if buf_len < self.budget() {
                buf_len as int
            } else {
                self.budget() as int
            },
            n <= buf_len && n <= self.budget(),
    {
        if buf_len < self.buffer_size {
            buf_len
        } else {
            self.buffer_size
        }
    }

    /// The payload of the one binary message a write of `buf` produces:
    /// the first `write_take(buf.len())` bytes, exactly. A caller whose
    /// buffer exceeds the budget reissues the remainder and so produces
    /// one message per budget-sized piece.
    pub fn write_payload(&self, buf: &[u8]) -> (out: Vec<u8>)
        ensures
            out@ == buf@.take(min_int(buf@.len() as int, self.budget() as int)),
            out@.len() == min_int(buf@.len() as int, self.budget() as int),
    {
        let n = self.write_take(buf.len());
        let mut out: Vec<u8> = Vec::new();
        let mut i: usize = 0;
        while i < n
            invariant
                i <= n,
                n <= buf@.len(),
                out@ =~= buf@.take(i as int),
            decreases n - i,
        {
            let b = buf[i];
            out.push(b);
            proof {
                assert(out@ =~= buf@.take(i as int + 1));
            }
            i = i + 1;
        }
        proof {
            assert(out@ =~= buf@.take(min_int(buf@.len() as int, self.budget() as int)));
        }
        out
    }

    /// Plan a vectored write over buffers of these lengths: take whole
    /// buffers from the front while they fit the budget together; if
    /// every buffer is empty there is nothing to write; if the first
    /// non-empty buffer alone exceeds the budget, fall back to a scalar
    /// write of that buffer.
    pub fn vectored_plan(&self, lens: &Vec<usize>) -> (plan: VecPlan)
        ensures
            (plan is Empty) <==> sum_prefix(lens@, lens@.len() as int) == 0,
            plan matches VecPlan::Scalar(j) ==> j < lens@.len() && lens@[j as int]
                > self.budget() && (forall|t: int| 0 <= t < j ==> lens@[t] == 0),
            plan matches VecPlan::Take(k) ==> 1 <= k <= lens@.len() && 0 < sum_prefix(
                lens@,
                k as int,
            ) <= self.budget() && (k < lens@.len() ==> sum_prefix(lens@, k as int) + lens@[
                k as int
            ] > self.budget()),
    {
        let n = lens.len();
        let mut take: usize = 0;
        let mut count: usize = 0;
        while count < n && lens[count] <= self.buffer_size - take
            invariant
                count <= n,
                n == lens@.len(),
                take == sum_prefix(lens@, count as int),
                take <= self.budget(),
                take == 0 ==> (forall|t: int| 0 <= t < count ==> lens@[t] == 0),
            decreases n - count,
        {
            take = take + lens[count];
            count = count + 1;
        }
        if take > 0 {
            proof {
                lemma_sum_prefix_mono(lens@, count as int, n as int);
            }
            VecPlan::Take(count)
        } else if count < n {
            proof {
                lemma_sum_prefix_mono(lens@, count as int + 1, n as int);
            }
            VecPlan::Scalar(count)
        } else {
            VecPlan::Empty
        }
    }

    // Copy up to `want` bytes out of the held chunk, advancing the
    // cursor and releasing the chunk once it is exhausted.
    fn take_from_chunk(&mut self, want: usize) -> (out: Vec<u8>)
        requires
            old(self).wf(),
            old(self).chunk_spec() is Some,
        ensures
            final(self).wf(),
            final(self).core_spec() == old(self).core_spec(),
            final(self).budget() == old(self).budget(),
            out@ == old(self).buffered().take(
                if want < old(self).buffered().len() {
                    want as int
                } else {
                    old(self).buffered().len() as int
                },
            ),
            final(self).buffered() == old(self).buffered().skip(out@.len() as int),
    {
        let mut slot: Option<Vec<u8>> = None;
        core::mem::swap(&mut self.chunk, &mut slot);
        let v = match slot {
            Some(v) => v,
            None => {
                assert(false);
                Vec::new()
            },
        };
        let c0 = self.cursor;
        let remaining = v.len() - c0;
        let n = if want < remaining {
            want
        } else {
            remaining
        };
        let mut out: Vec<u8> = Vec::new();
        let mut i: usize = 0;
        while i < n
            invariant
                i <= n,
                c0 + n <= v@.len(),
                v@.len() <= usize::MAX,
                out@ =~= v@.subrange(c0 as int, c0 as int + i as int),
            decreases n - i,
        {
            let b = v[c0 + i];
            out.push(b);
            proof {
                assert(out@ =~= v@.subrange(c0 as int, c0 as int + i as int + 1));
            }
            i = i + 1;
        }
        if c0 + n < v.len() {
            self.cursor = c0 + n;
            self.chunk = Some(v);
        } else {
            self.cursor = 0;
        }
        proof {
            assert(out@ =~= old(self).buffered().take(
                if want < old(self).buffered().len() {
                    want as int
                } else {
                    old(self).buffered().len() as int
                },
            ));
            assert(self.buffered() =~= old(self).buffered().skip(out@.len() as int));
        }
        out
    }

    // Take up to `want` bytes from a freshly pulled binary payload, and
    // keep the rest, if any, as the held chunk.
    fn accept_chunk(&mut self, want: usize, payload: Vec<u8>) -> (out: Vec<u8>)
        requires
            old(self).wf(),
            old(self).chunk_spec() is None,
        ensures
            final(self).wf(),
            final(self).core_spec() == old(self).core_spec(),
            final(self).budget() == old(self).budget(),
            out@ == payload@.take(
                if want < payload@.len() {
                    want as int
                } else {
                    payload@.len() as int
                },
            ),
            final(self).buffered() == payload@.skip(out@.len() as int),
    {
        if payload.len() <= want {
            proof {
                assert(payload@.take(payload@.len() as int) =~= payload@);
                assert(payload@.skip(payload@.len() as int) =~= Seq::<u8>::empty());
            }
            payload
        } else {
            self.chunk = Some(payload);
            self.cursor = 0;
            self.take_from_chunk(want)
        }
    }

    /// The held chunk, for buffered reading; read it from the cursor on.
    pub fn buffered_vec(&self) -> (v: Option<&Vec<u8>>)
        ensures
            match self.chunk_spec() {
                Some(c) => v matches Some(x) && x@ == c,
                None => v is None,
            },
    {
        match &self.chunk {
            Some(v) => Some(v),
            None => None,
        }
    }

    /// The cursor into the held chunk: bytes before it were consumed.
    pub fn buffered_cursor(&self) -> (c: usize)
        ensures
            c as int == self.cursor_spec(),
    {
        self.cursor
    }

    /// Release `amt` buffered bytes after a buffered read.
    pub fn consume(&mut self, amt: usize)
        requires
            old(self).wf(),
            amt <= old(self).buffered().len(),
        ensures
            final(self).wf(),
            final(self).core_spec() == old(self).core_spec(),
            final(self).budget() == old(self).budget(),
            final(self).buffered() == old(self).buffered().skip(amt as int),
    {
        let len = match &self.chunk {
            Some(v) => v.len(),
            None => 0,
        };
        if self.cursor + amt < len {
            self.cursor = self.cursor + amt;
        } else {
            self.chunk = None;
            self.cursor = 0;
        }
        proof {
            assert(self.buffered() =~= old(self).buffered().skip(amt as int));
        }
    }

    /// Begin one byte read of up to `want` bytes: hand out buffered bytes
    /// if any are held, else start a read-side poll of the core.
    pub fn poll_read_enter(&mut self, cx: &mut Context<'_>, want: usize) -> (r: BridgeRead)
        requires
            old(self).wf(),
            old(self).core_spec().phase_spec() is Idle,
        ensures
            final(self).wf(),
            final(self).budget() == old(self).budget(),
            bridge_read_ok(final(self).core_spec(), r),
            final(self).core_spec().events_log() == old(self).core_spec().events_log(),
            old(self).buffered().len() > 0 ==> (r matches BridgeRead::Filled(b) && b@ == old(self).buffered().take(min_int(want as int, old(self).buffered().len() as int)) && final(self).buffered() == old(self).buffered().skip(b@.len() as int) && final(self).core_spec()
                == old(self).core_spec()),
            old(self).buffered().len() == 0 ==> final(self).buffered() == Seq::<u8>::empty() && (
            r matches BridgeRead::Filled(b) ==> b@ == Seq::<u8>::empty() && final(self).core_spec().flags().stream_closed),
            !(r is Fail) && !(r is Bug),
            r is Pending ==> old(self).core_spec().flags().notifier_pend,
            old(self).buffered().len() == 0 && !(r is Pending) && old(
                self,
            ).core_spec().flags().closer_pend ==> match old(
                self,
            ).core_spec().closer_spec().task_spec() {
                Some(SinkTask::Ready) => r is NeedSinkReady,
                Some(SinkTask::Send) => r is NeedSinkSend,
                Some(SinkTask::Flush) => r is NeedSinkFlush,
                None => false,
            },
            old(self).buffered().len() == 0 && !(r is Pending) && !old(
                self,
            ).core_spec().flags().closer_pend ==> ((old(self).core_spec().flags().stream_closed
                ==> (r matches BridgeRead::Filled(b) && b@ == Seq::<u8>::empty())) && (!old(
                self,
            ).core_spec().flags().stream_closed ==> r is NeedStream)),
    {
        if self.chunk.is_some() {
            let out = self.take_from_chunk(want);
            return BridgeRead::Filled(out);
        }
        match self.inner.poll_next_enter(cx) {
            ReadStep::Pending => BridgeRead::Pending,
            ReadStep::End => BridgeRead::Filled(Vec::new()),
            ReadStep::NeedSinkReady => BridgeRead::NeedSinkReady,
            ReadStep::NeedSinkSend => BridgeRead::NeedSinkSend,
            ReadStep::NeedSinkFlush => BridgeRead::NeedSinkFlush,
            ReadStep::NeedStream => BridgeRead::NeedStream,
            _ => {
                assert(false);
                BridgeRead::Bug
            },
        }
    }

    /// Answer the sink operation the read side asked for on behalf of the
    /// closer, as [`TungWebSocket::poll_next_sink`] does.
    pub fn poll_read_sink(&mut self, cx: &mut Context<'_>, outcome: SinkPoll) -> (r: BridgeRead)
        requires
            old(self).wf(),
            old(self).chunk_spec() is None,
            old(self).core_spec().phase_spec() is ReadCloser,
            old(self).core_spec().flags().closer_pend,
            old(self).core_spec().closer_spec().spec_state() is Sending ==> !(outcome is Pending),
        ensures
            final(self).wf(),
            final(self).budget() == old(self).budget(),
            final(self).buffered() == Seq::<u8>::empty(),
            bridge_read_ok(final(self).core_spec(), r),
            old(self).core_spec().events_log().is_prefix_of(final(self).core_spec().events_log()),
            !(r is Fail) && !(r is Bug),
            r matches BridgeRead::Filled(b) ==> b@ == Seq::<u8>::empty() && final(self).core_spec().flags().stream_closed,
    {
        match self.inner.poll_next_sink(cx, outcome) {
            ReadStep::Pending => BridgeRead::Pending,
            ReadStep::End => BridgeRead::Filled(Vec::new()),
            ReadStep::NeedSinkReady => BridgeRead::NeedSinkReady,
            ReadStep::NeedSinkSend => BridgeRead::NeedSinkSend,
            ReadStep::NeedSinkFlush => BridgeRead::NeedSinkFlush,
            ReadStep::NeedStream => BridgeRead::NeedStream,
            _ => {
                assert(false);
                BridgeRead::Bug
            },
        }
    }

    /// Classify what the message stream produced, as
    /// [`TungWebSocket::poll_next_stream`] does, and hand out up to `want`
    /// bytes of a binary payload; the rest stays buffered.
    pub fn poll_read_stream(
        &mut self,
        cx: &mut Context<'_>,
        want: usize,
        polled: StreamPoll,
    ) -> (r: BridgeRead)
        requires
            old(self).wf(),
            old(self).chunk_spec() is None,
            old(self).core_spec().phase_spec() is ReadStream,
        ensures
            final(self).wf(),
            final(self).budget() == old(self).budget(),
            bridge_read_ok(final(self).core_spec(), r),
            old(self).core_spec().events_log().is_prefix_of(final(self).core_spec().events_log()),
            polled matches StreamPoll::Item(Msg::Binary(v)) ==> (v@.len() > 0 ==> (r matches BridgeRead::Filled(b)
                && b@ == v@.take(min_int(want as int, v@.len() as int)) && final(self).buffered()
                == v@.skip(b@.len() as int))) && (v@.len() == 0 ==> !(r matches BridgeRead::Filled(_))
                && final(self).buffered() == Seq::<u8>::empty()) && final(self).core_spec().events_log()
                == old(self).core_spec().events_log(),
            polled is End ==> r is Pending || (r matches BridgeRead::Filled(b) && b@
                == Seq::<u8>::empty() && final(self).core_spec().flags().stream_closed),
            polled matches StreamPoll::Fault(SocketErr::Io(k)) ==> r == BridgeRead::Fail(k),
            r is Fail <==> polled matches StreamPoll::Fault(SocketErr::Io(_)),
            r is Bug <==> polled matches StreamPoll::Fault(SocketErr::WriteBufferFull),
            polled matches StreamPoll::Item(Msg::Text(_)) ==> pushed_event(
                old(self).core_spec().events_log(),
                final(self).core_spec().events_log(),
                |ev: WsEvent| ev matches WsEvent::Error(a) && a == WsErr::ReceivedText,
            ) && close_initiated(
                old(self).core_spec(),
                final(self).core_spec(),
                CloseCode::Unsupported,
                crate::tung_websocket::text_reason(),
            ),
            (polled matches StreamPoll::Fault(SocketErr::ConnectionClosed) || polled matches StreamPoll::Fault(
                SocketErr::AlreadyClosed,
            )) ==> final(self).core_spec().flags().stream_closed && final(self).core_spec().events_log() == old(self).core_spec().events_log().push(WsEvent::Closed),
    {
        match self.inner.poll_next_stream(cx, polled) {
            ReadStep::Data(v) => {
                if v.len() > 0 {
                    BridgeRead::Filled(self.accept_chunk(want, v))
                } else {
                    // An empty payload yields no bytes, and a zero-byte
                    // read means end-of-stream; poll again instead.
                    match self.inner.poll_next_enter(cx) {
                        ReadStep::Pending => BridgeRead::Pending,
                        ReadStep::End => BridgeRead::Filled(Vec::new()),
                        ReadStep::NeedSinkReady => BridgeRead::NeedSinkReady,
                        ReadStep::NeedSinkSend => BridgeRead::NeedSinkSend,
                        ReadStep::NeedSinkFlush => BridgeRead::NeedSinkFlush,
                        ReadStep::NeedStream => BridgeRead::NeedStream,
                        _ => {
                            assert(false);
                            BridgeRead::Bug
                        },
                    }
                }
            },
            ReadStep::Pending => BridgeRead::Pending,
            ReadStep::End => BridgeRead::Filled(Vec::new()),
            ReadStep::Fail(k) => BridgeRead::Fail(k),
            ReadStep::Bug => BridgeRead::Bug,
            ReadStep::NeedSinkReady => BridgeRead::NeedSinkReady,
            ReadStep::NeedSinkSend => BridgeRead::NeedSinkSend,
            ReadStep::NeedSinkFlush => BridgeRead::NeedSinkFlush,
            ReadStep::NeedStream => BridgeRead::NeedStream,
        }
    }

    /// Begin one buffered read: report buffered bytes if any are held,
    /// else start a read-side poll of the core.
    pub fn poll_fill_enter(&mut self, cx: &mut Context<'_>) -> (r: BridgeFill)
        requires
            old(self).wf(),
            old(self).core_spec().phase_spec() is Idle,
        ensures
            final(self).wf(),
            final(self).budget() == old(self).budget(),
            bridge_fill_ok(final(self).core_spec(), r),
            final(self).core_spec().events_log() == old(self).core_spec().events_log(),
            old(self).buffered().len() > 0 ==> r is Have && *final(self) == *old(self),
            r is Have ==> final(self).buffered().len() > 0,
            r is Eof ==> final(self).buffered() == Seq::<u8>::empty() && final(self).core_spec().flags().stream_closed,
            !(r is Fail) && !(r is Bug),
            r is Pending ==> old(self).core_spec().flags().notifier_pend,
            old(self).buffered().len() == 0 && !(r is Pending) && old(
                self,
            ).core_spec().flags().closer_pend ==> match old(
                self,
            ).core_spec().closer_spec().task_spec() {
                Some(SinkTask::Ready) => r is NeedSinkReady,
                Some(SinkTask::Send) => r is NeedSinkSend,
                Some(SinkTask::Flush) => r is NeedSinkFlush,
                None => false,
            },
            old(self).buffered().len() == 0 && !(r is Pending) && !old(
                self,
            ).core_spec().flags().closer_pend ==> ((old(self).core_spec().flags().stream_closed
                ==> r is Eof) && (!old(self).core_spec().flags().stream_closed ==> r
                is NeedStream)),
    {
        if self.chunk.is_some() {
            return BridgeFill::Have;
        }
        match self.inner.poll_next_enter(cx) {
            ReadStep::Pending => BridgeFill::Pending,
            ReadStep::End => BridgeFill::Eof,
            ReadStep::NeedSinkReady => BridgeFill::NeedSinkReady,
            ReadStep::NeedSinkSend => BridgeFill::NeedSinkSend,
            ReadStep::NeedSinkFlush => BridgeFill::NeedSinkFlush,
            ReadStep::NeedStream => BridgeFill::NeedStream,
            _ => {
                assert(false);
                BridgeFill::Bug
            },
        }
    }

    /// Answer the closer's sink operation on behalf of a buffered read.
    pub fn poll_fill_sink(&mut self, cx: &mut Context<'_>, outcome: SinkPoll) -> (r: BridgeFill)
        requires
            old(self).wf(),
            old(self).chunk_spec() is None,
            old(self).core_spec().phase_spec() is ReadCloser,
            old(self).core_spec().flags().closer_pend,
            old(self).core_spec().closer_spec().spec_state() is Sending ==> !(outcome is Pending),
        ensures
            final(self).wf(),
            final(self).budget() == old(self).budget(),
            bridge_fill_ok(final(self).core_spec(), r),
            old(self).core_spec().events_log().is_prefix_of(final(self).core_spec().events_log()),
            !(r is Fail) && !(r is Bug) && !(r is Have),
    {
        match self.inner.poll_next_sink(cx, outcome) {
            ReadStep::Pending => BridgeFill::Pending,
            ReadStep::End => BridgeFill::Eof,
            ReadStep::NeedSinkReady => BridgeFill::NeedSinkReady,
            ReadStep::NeedSinkSend => BridgeFill::NeedSinkSend,
            ReadStep::NeedSinkFlush => BridgeFill::NeedSinkFlush,
            ReadStep::NeedStream => BridgeFill::NeedStream,
            _ => {
                assert(false);
                BridgeFill::Bug
            },
        }
    }

    /// Classify what the message stream produced on behalf of a buffered
    /// read. A non-empty binary payload becomes the held chunk; an empty
    /// one is skipped and the read side is re-entered.
    pub fn poll_fill_stream(&mut self, cx: &mut Context<'_>, polled: StreamPoll) -> (r: BridgeFill)
        requires
            old(self).wf(),
            old(self).chunk_spec() is None,
            old(self).core_spec().phase_spec() is ReadStream,
        ensures
            final(self).wf(),
            final(self).budget() == old(self).budget(),
            bridge_fill_ok(final(self).core_spec(), r),
            old(self).core_spec().events_log().is_prefix_of(final(self).core_spec().events_log()),
            polled matches StreamPoll::Item(Msg::Binary(v)) ==> (v@.len() > 0 ==> (r is Have
                && final(self).buffered() == v@)),
            polled is End ==> r is Pending || r is Eof,
            r is Fail <==> polled matches StreamPoll::Fault(SocketErr::Io(_)),
            r is Bug <==> polled matches StreamPoll::Fault(SocketErr::WriteBufferFull),
    {
        match self.inner.poll_next_stream(cx, polled) {
            ReadStep::Data(v) => {
                if v.len() > 0 {
                    self.chunk = Some(v);
                    self.cursor = 0;
                    BridgeFill::Have
                } else {
                    // An empty payload buffers nothing; poll again.
                    match self.inner.poll_next_enter(cx) {
                        ReadStep::Pending => BridgeFill::Pending,
                        ReadStep::End => BridgeFill::Eof,
                        ReadStep::NeedSinkReady => BridgeFill::NeedSinkReady,
                        ReadStep::NeedSinkSend => BridgeFill::NeedSinkSend,
                        ReadStep::NeedSinkFlush => BridgeFill::NeedSinkFlush,
                        ReadStep::NeedStream => BridgeFill::NeedStream,
                        _ => {
                            assert(false);
                            BridgeFill::Bug
                        },
                    }
                }
            },
            ReadStep::Pending => BridgeFill::Pending,
            ReadStep::End => BridgeFill::Eof,
            ReadStep::Fail(k) => BridgeFill::Fail(k),
            ReadStep::Bug => BridgeFill::Bug,
            ReadStep::NeedSinkReady => BridgeFill::NeedSinkReady,
            ReadStep::NeedSinkSend => BridgeFill::NeedSinkSend,
            ReadStep::NeedSinkFlush => BridgeFill::NeedSinkFlush,
            ReadStep::NeedStream => BridgeFill::NeedStream,
        }
    }

    /// Begin one readiness poll of the write side, as
    /// [`TungWebSocket::poll_ready_enter`] does.
    pub fn poll_ready_enter(&mut self, cx: &mut Context<'_>) -> (r: WriteStep)
        requires
            old(self).wf(),
            old(self).core_spec().phase_spec() is Idle,
        ensures
            final(self).wf(),
            final(self).budget() == old(self).budget(),
            final(self).buffered() == old(self).buffered(),
            write_step_ok(final(self).core_spec(), r),
            final(self).core_spec().events_log() == old(self).core_spec().events_log(),
            r is Fail ==> r == WriteStep::Fail(IoKind::NotConnected) && old(self).core_spec().flags().sink_closed,
            r is Pending ==> old(self).core_spec().flags().notifier_pend && !old(
                self,
            ).core_spec().flags().closer_pend,
            old(self).core_spec().flags().closer_pend ==> match old(
                self,
            ).core_spec().closer_spec().task_spec() {
                Some(SinkTask::Ready) => r is NeedSinkReady,
                Some(SinkTask::Send) => r is NeedSinkSend,
                Some(SinkTask::Flush) => r is NeedSinkFlush,
                None => false,
            },
            !old(self).core_spec().flags().closer_pend && !(r is Pending) ==> ((old(
                self,
            ).core_spec().flags().sink_closed ==> r == WriteStep::Fail(IoKind::NotConnected)) && (
            !old(self).core_spec().flags().sink_closed ==> r is NeedSinkReady)),
            (r is Pending || r is Fail || r is NeedSinkReady || r is NeedSinkSend || r
                is NeedSinkFlush),
    {
        self.inner.poll_ready_enter(cx)
    }

    /// Answer the write side's sink operation, as
    /// [`TungWebSocket::poll_ready_sink`] does.
    pub fn poll_ready_sink(&mut self, cx: &mut Context<'_>, outcome: SinkPoll) -> (r: WriteStep)
        requires
            old(self).wf(),
            old(self).core_spec().phase_spec() is WriteCloser || old(self).core_spec().phase_spec() is WriteReady,
            old(self).core_spec().phase_spec() is WriteCloser ==> old(self).core_spec().flags().closer_pend && (old(self).core_spec().closer_spec().spec_state()
                is Sending ==> !(outcome is Pending)),
            old(self).core_spec().phase_spec() is WriteReady ==> !old(self).core_spec().flags().sink_closed && !old(self).core_spec().flags().notifier_pend
                && !old(self).core_spec().flags().closer_pend,
        ensures
            final(self).wf(),
            final(self).budget() == old(self).budget(),
            final(self).buffered() == old(self).buffered(),
            write_step_ok(final(self).core_spec(), r),
            old(self).core_spec().events_log().is_prefix_of(final(self).core_spec().events_log()),
    {
        self.inner.poll_ready_sink(cx, outcome)
    }

    /// Whether one payload may be handed to the sink now, as
    /// [`TungWebSocket::start_send`] says.
    pub fn start_send(&self) -> (r: Result<(), IoKind>)
        ensures
            r is Ok <==> !self.core_spec().flags().sink_closed,
            r matches Err(k) ==> k == IoKind::NotConnected,
    {
        self.inner.start_send()
    }

    /// Record what the sink said to a payload, as
    /// [`TungWebSocket::start_send_outcome`] does.
    pub fn start_send_outcome(&mut self, outcome: SinkPoll) -> (r: WriteStep)
        requires
            old(self).wf(),
            old(self).core_spec().phase_spec() is Idle,
            !(outcome is Pending),
        ensures
            final(self).wf(),
            final(self).budget() == old(self).budget(),
            final(self).buffered() == old(self).buffered(),
            final(self).core_spec().events_log() == old(self).core_spec().events_log(),
            outcome is Accepted ==> r is Ready && *final(self) == *old(self),
            outcome matches SinkPoll::Refused(e) ==> final(self).core_spec().flags().sink_closed
                && final(self).core_spec().flags().stream_closed && (e.sendable() ==> r
                == WriteStep::Fail(crate::tung_websocket::io_kind_of(e))) && (!e.sendable() ==> r
                is Bug),
    {
        self.inner.start_send_outcome(outcome)
    }

    /// Record what the sink's flush said, as
    /// [`TungWebSocket::poll_flush_outcome`] does.
    pub fn poll_flush_outcome(&mut self, outcome: SinkPoll) -> (r: WriteStep)
        requires
            old(self).wf(),
            old(self).core_spec().phase_spec() is Idle,
        ensures
            final(self).wf(),
            final(self).budget() == old(self).budget(),
            final(self).buffered() == old(self).buffered(),
            final(self).core_spec().events_log() == old(self).core_spec().events_log(),
            outcome is Accepted ==> r is Ready && *final(self) == *old(self),
            outcome is Pending ==> r is Pending && *final(self) == *old(self),
            outcome matches SinkPoll::Refused(e) ==> final(self).core_spec().flags().stream_closed
                && (e.sendable() ==> r == WriteStep::Fail(crate::tung_websocket::io_kind_of(e)))
                && (!e.sendable() ==> r is Bug),
    {
        self.inner.poll_flush_outcome(outcome)
    }

    /// Record what the sink's close said, as
    /// [`TungWebSocket::poll_close_outcome`] does; the write side refuses
    /// further payloads from here on.
    pub fn poll_close_outcome(&mut self, outcome: SinkPoll) -> (r: WriteStep)
        requires
            old(self).wf(),
            old(self).core_spec().phase_spec() is Idle,
        ensures
            final(self).wf(),
            final(self).budget() == old(self).budget(),
            final(self).buffered() == old(self).buffered(),
            final(self).core_spec().events_log() == old(self).core_spec().events_log(),
            final(self).core_spec().flags().sink_closed,
            outcome is Accepted ==> r is Ready,
            outcome is Pending ==> r is Pending,
            outcome matches SinkPoll::Refused(e) ==> match e {
                SocketErr::ConnectionClosed => r is Ready,
                SocketErr::AlreadyClosed => r is Ready,
                _ => (e.sendable() ==> r == WriteStep::Fail(crate::tung_websocket::io_kind_of(e)))
                    && (!e.sendable() ==> r is Bug),
            },
    {
        self.inner.poll_close_outcome(outcome)
    }

    /// The close frame on its way out, while one is.
    pub fn close_frame(&self) -> (f: Option<&CloseFrameData>)
        ensures
            match self.core_spec().closer_spec().spec_state() {
                crate::tung_websocket::closer::State::Closing(fr) => f matches Some(x) && *x == fr,
                crate::tung_websocket::closer::State::Sending(fr) => f matches Some(x) && *x == fr,
                _ => f is None,
            },
    {
        self.inner.close_frame()
    }

    /// Subscribe to the out-of-band events, as
    /// [`TungWebSocket::observe`] does.
    pub fn observe(&mut self, options: ObserveConfig<WsEvent>) -> (r: Result<
        Events<WsEvent>,
        WsErr,
    >)
        requires
            old(self).wf(),
        ensures
            final(self).wf(),
            final(self).budget() == old(self).budget(),
            final(self).buffered() == old(self).buffered(),
            final(self).core_spec().events_log() == old(self).core_spec().events_log(),
            final(self).core_spec().phase_spec() == old(self).core_spec().phase_spec(),
            r matches Err(e) ==> e is Closed,
    {
        self.inner.observe(options)
    }
}

/// The smaller of two mathematical integers.
pub open spec fn min_int(a: int, b: int) -> int {
    if a < b {
        a
    } else {
        b
    }
}

/// The directive returned by a byte-read step fits the core's state, as
/// [`crate::tung_websocket::read_step_ok`] asks of the read side.
pub open spec fn bridge_read_ok(post: TungWebSocket, r: BridgeRead) -> bool {
    &&& (r is Pending ==> post.phase_spec() is Idle)
    &&& (r is Fail ==> post.phase_spec() is Idle && post.flags().stream_closed)
    &&& (r is NeedStream ==> post.phase_spec() is ReadStream && !post.flags().notifier_pend
        && !post.flags().closer_pend && !post.flags().stream_closed)
    &&& (r is NeedSinkReady ==> post.phase_spec() is ReadCloser && post.flags().closer_pend
        && post.closer_spec().task_spec() == Some(SinkTask::Ready))
    &&& (r is NeedSinkSend ==> post.phase_spec() is ReadCloser && post.flags().closer_pend
        && post.closer_spec().task_spec() == Some(SinkTask::Send))
    &&& (r is NeedSinkFlush ==> post.phase_spec() is ReadCloser && post.flags().closer_pend
        && post.closer_spec().task_spec() == Some(SinkTask::Flush))
}

/// The directive returned by a buffered-read step fits the core's state.
pub open spec fn bridge_fill_ok(post: TungWebSocket, r: BridgeFill) -> bool {
    &&& (r is Pending ==> post.phase_spec() is Idle)
    &&& (r is Fail ==> post.phase_spec() is Idle && post.flags().stream_closed)
    &&& (r is NeedStream ==> post.phase_spec() is ReadStream && !post.flags().notifier_pend
        && !post.flags().closer_pend && !post.flags().stream_closed)
    &&& (r is NeedSinkReady ==> post.phase_spec() is ReadCloser && post.flags().closer_pend
        && post.closer_spec().task_spec() == Some(SinkTask::Ready))
    &&& (r is NeedSinkSend ==> post.phase_spec() is ReadCloser && post.flags().closer_pend
        && post.closer_spec().task_spec() == Some(SinkTask::Send))
    &&& (r is NeedSinkFlush ==> post.phase_spec() is ReadCloser && post.flags().closer_pend
        && post.closer_spec().task_spec() == Some(SinkTask::Flush))
}

} // verus!
