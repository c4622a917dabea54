//! The core pump: classifies incoming websocket messages, drives the
//! close-frame sender and the event notifier, and exposes the decisions as
//! a step-wise state machine that an i/o driver executes.
//!
//! The adapter never performs i/o itself. Each public entry returns either
//! a result (`Pending`, data, end-of-stream, an error) or a request for one
//! sink or stream operation; the driver performs the operation and reports
//! its outcome to the matching resume entry. A request is always answered
//! before the driver returns to its caller, so between polls the adapter
//! is at rest.

use vstd::prelude::*;

pub mod closer;
pub mod notifier;

use core::task::Context;
use std::sync::Arc;
use pharos::{Events, ObserveConfig};
use crate::tung_websocket::closer::{Closer, CloserStep, SinkTask, State as CloserState, ws_err_of};
use crate::tung_websocket::notifier::Notifier;
use crate::ws_err::{IoKind, SocketErr, WsErr};
use crate::ws_event::{CloseCode, CloseFrameData, WsEvent};

verus! {

broadcast use vstd::string::group_string_axioms;

/// The outcome of one poll-style operation on the underlying message sink,
/// as the driver reports it back. `start_send` never reports `Pending`.
#[derive(Clone, Debug)]
pub enum SinkPoll {
    /// The operation completed.
    Accepted,
    /// The operation failed with this error.
    Refused(SocketErr),
    /// The operation cannot complete yet; the task will be woken.
    Pending,
}

/// A websocket message, as the driver hands it in from the underlying
/// stream. Raw frames never appear here: the underlying library does not
/// produce them from a read, and the driver aborts if one arrives.
#[derive(Clone, Debug)]
pub enum Msg {
    /// A binary message: the payload goes to the byte stream.
    Binary(Vec<u8>),
    /// A text message: not supported over a byte stream.
    Text(String),
    /// A close frame, with its optional code and reason.
    Close(Option<CloseFrameData>),
    /// A ping with its payload.
    Ping(Vec<u8>),
    /// A pong with its payload.
    Pong(Vec<u8>),
}

/// What one poll of the underlying message stream produced.
#[derive(Clone, Debug)]
pub enum StreamPoll {
    /// Nothing yet; the task will be woken.
    Pending,
    /// A message arrived.
    Item(Msg),
    /// The stream reported an error.
    Fault(SocketErr),
    /// The stream is exhausted; the connection can be dropped.
    End,
}

/// Sub-task progress flags of the adapter.
#[derive(Clone, Copy, Debug, PartialEq, Eq, Structural)]
pub struct Flags {
    /// The notifier has undelivered events; they must be delivered before
    /// further work.
    pub notifier_pend: bool,
    /// The closer is mid-flight; it must be driven before further reads.
    pub closer_pend: bool,
    /// The event broadcast refused an operation; events are discarded.
    pub pharos_closed: bool,
    /// The outbound half refuses further payloads.
    pub sink_closed: bool,
    /// The inbound half is exhausted; reads yield end-of-stream.
    pub stream_closed: bool,
}

/// Which request of the adapter the driver is currently answering.
#[derive(Clone, Copy, Debug, PartialEq, Eq, Structural)]
pub enum Phase {
    /// No request is outstanding.
    Idle,
    /// A sink operation for the closer, on behalf of the read side.
    ReadCloser,
    /// A poll of the message stream.
    ReadStream,
    /// A sink operation for the closer, on behalf of the write side.
    WriteCloser,
    /// A readiness poll of the sink for user payloads.
    WriteReady,
}

/// What the read side tells the driver after each step.
#[derive(Clone, Debug)]
pub enum ReadStep {
    /// Nothing can progress; return pending to the caller.
    Pending,
    /// A binary payload for the caller.
    Data(Vec<u8>),
    /// End of stream: the connection is ready to be dropped.
    End,
    /// A fatal transport error for the caller, by its kind; the driver
    /// returns the stashed underlying error itself where it kept one.
    Fail(IoKind),
    /// An invariant violation: the driver must abort.
    Bug,
    /// Poll the sink for readiness, then resume with the outcome.
    NeedSinkReady,
    /// Hand the close frame to the sink, then resume with the outcome.
    NeedSinkSend,
    /// Poll the sink's flush, then resume with the outcome.
    NeedSinkFlush,
    /// Poll the message stream, then resume with what it produced.
    NeedStream,
}

/// What the write side tells the driver after each step.
#[derive(Clone, Debug)]
pub enum WriteStep {
    /// Nothing can progress; return pending to the caller.
    Pending,
    /// The sink is ready for one user payload.
    Ready,
    /// The write side refuses, with an error of this kind.
    Fail(IoKind),
    /// An invariant violation: the driver must abort.
    Bug,
    /// Poll the sink for readiness, then resume with the outcome.
    NeedSinkReady,
    /// Hand the close frame to the sink, then resume with the outcome.
    NeedSinkSend,
    /// Poll the sink's flush, then resume with the outcome.
    NeedSinkFlush,
}

/// How many `Closed` events a sequence of events holds.
pub open spec fn closed_count_of(s: Seq<WsEvent>) -> int
    decreases s.len(),
{
    if s.len() == 0 {
        0
    } else {
        closed_count_of(s.drop_last()) + if s.last() is Closed {
            1int
        } else {
            0int
        }
    }
}

/// Appending one event changes the `Closed` count by one exactly when the
/// event is `Closed`.
pub proof fn lemma_closed_count_push(s: Seq<WsEvent>, e: WsEvent)
    ensures
        closed_count_of(s.push(e)) == closed_count_of(s) + if e is Closed {
            1int
        } else {
            0int
        },
{
    assert(s.push(e).drop_last() =~= s);
}

/// A sequence grew by exactly one event, and that event satisfies `ok`.
pub open spec fn pushed_event(pre: Seq<WsEvent>, post: Seq<WsEvent>, ok: spec_fn(WsEvent) -> bool) -> bool {
    &&& post.len() == pre.len() + 1
    &&& post.subrange(0, pre.len() as int) == pre
    &&& ok(post.last())
}

/// The adapter core: a wrapper around a websocket session that exposes a
/// message-granular stream and sink of byte vectors, intercepts non-data
/// frames, and drives the close handshake and event delivery as side work.
pub struct TungWebSocket {
    state: Flags,
    notifier: Notifier,
    closer: Closer,
    phase: Phase,
}

impl TungWebSocket {
    /// The progress flags.
    pub closed spec fn flags(&self) -> Flags {
        self.state
    }

    /// The event notifier.
    pub closed spec fn notifier_spec(&self) -> Notifier {
        self.notifier
    }

    /// The close sender.
    pub closed spec fn closer_spec(&self) -> Closer {
        self.closer
    }

    /// The outstanding request, if any.
    pub closed spec fn phase_spec(&self) -> Phase {
        self.phase
    }

    /// Every event ever queued, in order: those already handed to the
    /// broadcast followed by those still waiting.
    pub open spec fn events_log(&self) -> Seq<WsEvent> {
        self.notifier_spec().delivered() + self.notifier_spec().queued()
    }

    /// The adapter's invariant.
    ///
    /// - the closer is well formed, and is still untouched as long as the
    ///   sink is open (so the one close frame can always be queued);
    /// - while the closer is pending it has a sink task to offer, and the
    ///   sink is already marked closed;
    /// - at most one `Closed` event is ever queued, and only once the
    ///   stream is closed;
    /// - a stream poll is only requested while the stream is open;
    /// - a read-side sink request is only made with events delivered
    ///   (the read side drains the notifier before driving the closer).
    pub open spec fn wf(&self) -> bool {
        &&& self.closer_spec().wf()
        &&& (!self.flags().sink_closed ==> self.closer_spec().spec_state() is Ready)
        &&& (self.flags().closer_pend ==> self.closer_spec().task_spec() is Some)
        &&& (self.flags().closer_pend ==> self.flags().sink_closed)
        &&& closed_count_of(self.events_log()) <= 1
        &&& (closed_count_of(self.events_log()) != 0 ==> self.flags().stream_closed)
        &&& (self.phase_spec() is ReadStream ==> !self.flags().stream_closed)
        &&& (self.phase_spec() is ReadCloser ==> !self.flags().notifier_pend)
    }

    /// Create an adapter at rest: nothing pending, nothing closed, no
    /// events.
    pub fn new() -> (ws: TungWebSocket)
        ensures
            ws.wf(),
            ws.flags() == (Flags {
                notifier_pend: false,
                closer_pend: false,
                pharos_closed: false,
                sink_closed: false,
                stream_closed: false,
            }),
            ws.phase_spec() is Idle,
            ws.events_log() == Seq::<WsEvent>::empty(),
            ws.notifier_spec().spec_state() is Ready,
            !ws.closer_spec().sent(),
    {
        let ws = TungWebSocket {
            state: Flags {
                notifier_pend: false,
                closer_pend: false,
                pharos_closed: false,
                sink_closed: false,
                stream_closed: false,
            },
            notifier: Notifier::new(),
            closer: Closer::new(),
            phase: Phase::Idle,
        };
        proof {
            assert(ws.events_log() =~= Seq::<WsEvent>::empty());
        }
        ws
    }

    /// The progress flags, for inspection.
    pub fn flags_now(&self) -> (f: Flags)
        ensures
            f == self.flags(),
    {
        self.state
    }

    /// The outstanding request, for inspection.
    pub fn phase_now(&self) -> (p: Phase)
        ensures
            p == self.phase_spec(),
    {
        self.phase
    }

    /// The close frame on its way out, while one is.
    pub fn close_frame(&self) -> (f: Option<&CloseFrameData>)
        ensures
            match self.closer_spec().spec_state() {
                CloserState::Closing(fr) => f matches Some(x) && *x == fr,
                CloserState::Sending(fr) => f matches Some(x) && *x == fr,
                _ => f is None,
            },
    {
        self.closer.close_frame()
    }

    // Deliver queued events before anything else. Returns false while the
    // notifier reports backpressure from an observer; a failure of the
    // broadcast stops delivery for good and is recorded in the flags.
    fn check_notify(&mut self, cx: &mut Context<'_>) -> (done: bool)
        requires
            old(self).wf(),
        ensures
            final(self).wf(),
            final(self).events_log() == old(self).events_log(),
            final(self).closer_spec() == old(self).closer_spec(),
            final(self).phase_spec() == old(self).phase_spec(),
            final(self).flags().closer_pend == old(self).flags().closer_pend,
            final(self).flags().sink_closed == old(self).flags().sink_closed,
            final(self).flags().stream_closed == old(self).flags().stream_closed,
            done ==> !final(self).flags().notifier_pend,
            !done ==> final(self).flags() == old(self).flags() && old(self).flags().notifier_pend,
            !old(self).flags().notifier_pend ==> done && *final(self) == *old(self),
    {
        if !self.state.notifier_pend {
            return true;
        }
        let outcome = self.notifier.run(cx);
        match outcome {
            notifier::RunOutcome::Pending => false,
            notifier::RunOutcome::Done => {
                self.state.notifier_pend = false;
                true
            },
            notifier::RunOutcome::Failed => {
                self.state.pharos_closed = true;
                self.state.notifier_pend = false;
                true
            },
        }
    }

    // Queue a new event to be delivered to observers. Queueing after the
    // broadcast closed is a programming error of this library; the event
    // would be accepted and never delivered.
    fn queue_event(&mut self, evt: WsEvent)
        requires
            old(self).wf(),
            !(old(self).phase_spec() is ReadCloser),
            evt is Closed ==> closed_count_of(old(self).events_log()) == 0 && old(self).flags().stream_closed,
        ensures
            final(self).wf(),
            final(self).events_log() == old(self).events_log().push(evt),
            final(self).closer_spec() == old(self).closer_spec(),
            final(self).phase_spec() == old(self).phase_spec(),
            final(self).flags() == (Flags { notifier_pend: true, ..old(self).flags() }),
    {
        let ghost pre = self.events_log();
        self.notifier.queue(evt);
        self.state.notifier_pend = true;
        proof {
            assert(self.events_log() =~= pre.push(evt));
            lemma_closed_count_push(pre, evt);
        }
    }

    // Queue the one close frame and accept no more payloads. If the sink
    // is already closed no frame is queued: either a close is already on
    // its way out, or nothing can be sent at all any more.
    fn send_closeframe(&mut self, code: CloseCode, reason: String)
        requires
            old(self).wf(),
        ensures
            final(self).wf(),
            final(self).events_log() == old(self).events_log(),
            final(self).notifier_spec() == old(self).notifier_spec(),
            final(self).phase_spec() == old(self).phase_spec(),
            final(self).flags().notifier_pend == old(self).flags().notifier_pend,
            final(self).flags().stream_closed == old(self).flags().stream_closed,
            final(self).flags().sink_closed,
            !old(self).flags().sink_closed ==> final(self).flags().closer_pend && final(self).closer_spec().spec_state() == CloserState::Closing(CloseFrameData { code, reason }),
            old(self).flags().sink_closed ==> final(self).flags() == old(self).flags() && final(self).closer_spec() == old(self).closer_spec(),
    {
        if !self.state.sink_closed {
            self.state.sink_closed = true;
            self.state.closer_pend = true;
            let queued = self.closer.queue(CloseFrameData { code, reason });
            assert(queued is Ok);
        }
    }

    // After events are delivered and the closer is at rest, decide what
    // the read side does next: end of stream, or a poll of the message
    // stream; otherwise hand out the closer's next sink task, or report
    // the notifier's backpressure.
    fn read_resume(&mut self, cx: &mut Context<'_>) -> (r: ReadStep)
        requires
            old(self).wf(),
        ensures
            final(self).wf(),
            final(self).events_log() == old(self).events_log(),
            final(self).closer_spec() == old(self).closer_spec(),
            final(self).flags().closer_pend == old(self).flags().closer_pend,
            final(self).flags().sink_closed == old(self).flags().sink_closed,
            final(self).flags().stream_closed == old(self).flags().stream_closed,
            r is Pending ==> final(self).phase_spec() is Idle && final(self).flags().notifier_pend,
            r is End ==> final(self).phase_spec() is Idle && final(self).flags().stream_closed && !final(self).flags().notifier_pend,
            r is NeedStream ==> final(self).phase_spec() is ReadStream && !final(self).flags().notifier_pend && !final(self).flags().closer_pend && !final(self).flags().stream_closed,
            r is NeedSinkReady ==> final(self).phase_spec() is ReadCloser && !final(self).flags().notifier_pend && final(self).flags().closer_pend && final(self).closer_spec().task_spec() == Some(SinkTask::Ready),
            r is NeedSinkSend ==> final(self).phase_spec() is ReadCloser && !final(self).flags().notifier_pend && final(self).flags().closer_pend && final(self).closer_spec().task_spec() == Some(SinkTask::Send),
            r is NeedSinkFlush ==> final(self).phase_spec() is ReadCloser && !final(self).flags().notifier_pend && final(self).flags().closer_pend && final(self).closer_spec().task_spec() == Some(SinkTask::Flush),
            (r is Pending || r is End || r is NeedStream || r is NeedSinkReady || r
                is NeedSinkSend || r is NeedSinkFlush),
            r is Pending ==> old(self).flags().notifier_pend,
            !(r is Pending) && old(self).flags().closer_pend ==> match old(
                self,
            ).closer_spec().task_spec() {
                Some(SinkTask::Ready) => r is NeedSinkReady,
                Some(SinkTask::Send) => r is NeedSinkSend,
                Some(SinkTask::Flush) => r is NeedSinkFlush,
                None => false,
            },
            !(r is Pending) && !old(self).flags().closer_pend && old(self).flags().stream_closed
                ==> r is End,
            !(r is Pending) && !old(self).flags().closer_pend && !old(self).flags().stream_closed
                ==> r is NeedStream,
    {
        if !self.check_notify(cx) {
            self.phase = Phase::Idle;
            return ReadStep::Pending;
        }
        if self.state.closer_pend {
            self.phase = Phase::ReadCloser;
            match self.closer.task() {
                Some(SinkTask::Ready) => {
                    return ReadStep::NeedSinkReady;
                },
                Some(SinkTask::Send) => {
                    return ReadStep::NeedSinkSend;
                },
                Some(SinkTask::Flush) => {
                    return ReadStep::NeedSinkFlush;
                },
                None => {
                    assert(false);
                    return ReadStep::Bug;
                },
            }
        }
        if self.state.stream_closed {
            self.phase = Phase::Idle;
            return ReadStep::End;
        }
        self.phase = Phase::ReadStream;
        ReadStep::NeedStream
    }

    /// Begin one poll of the read side: deliver events, drive a close in
    /// flight, then either report end-of-stream or ask for a stream poll.
    pub fn poll_next_enter(&mut self, cx: &mut Context<'_>) -> (r: ReadStep)
        requires
            old(self).wf(),
            old(self).phase_spec() is Idle,
        ensures
            final(self).wf(),
            read_step_ok(*final(self), r),
            final(self).events_log() == old(self).events_log(),
            final(self).closer_spec() == old(self).closer_spec(),
            final(self).flags().closer_pend == old(self).flags().closer_pend,
            final(self).flags().sink_closed == old(self).flags().sink_closed,
            final(self).flags().stream_closed == old(self).flags().stream_closed,
            r is Pending ==> final(self).phase_spec() is Idle && final(self).flags().notifier_pend,
            r is End ==> final(self).phase_spec() is Idle && final(self).flags().stream_closed,
            r is NeedStream ==> final(self).phase_spec() is ReadStream && !final(self).flags().notifier_pend && !final(self).flags().closer_pend,
            (r is NeedSinkReady || r is NeedSinkSend || r is NeedSinkFlush) ==> final(self).phase_spec() is ReadCloser && final(self).flags().closer_pend,
            (r is Pending || r is End || r is NeedStream || r is NeedSinkReady || r
                is NeedSinkSend || r is NeedSinkFlush),
            r is Pending ==> old(self).flags().notifier_pend,
            !(r is Pending) && old(self).flags().closer_pend ==> match old(
                self,
            ).closer_spec().task_spec() {
                Some(SinkTask::Ready) => r is NeedSinkReady,
                Some(SinkTask::Send) => r is NeedSinkSend,
                Some(SinkTask::Flush) => r is NeedSinkFlush,
                None => false,
            },
            !(r is Pending) && !old(self).flags().closer_pend && old(self).flags().stream_closed
                ==> r is End,
            !(r is Pending) && !old(self).flags().closer_pend && !old(self).flags().stream_closed
                ==> r is NeedStream,
    {
        self.read_resume(cx)
    }

    /// Answer the sink operation the read side asked for on behalf of the
    /// closer.
    ///
    /// A refused operation queues exactly one error event; the rest of the
    /// close-sender's progress is as [`Closer::apply`] states. When the
    /// closer finishes, either way, the read side carries on: events first,
    /// then end-of-stream or the next stream poll.
    pub fn poll_next_sink(&mut self, cx: &mut Context<'_>, outcome: SinkPoll) -> (r: ReadStep)
        requires
            old(self).wf(),
            old(self).phase_spec() is ReadCloser,
            old(self).flags().closer_pend,
            old(self).closer_spec().spec_state() is Sending ==> !(outcome is Pending),
        ensures
            final(self).wf(),
            read_step_ok(*final(self), r),
            final(self).flags().stream_closed == old(self).flags().stream_closed,
            final(self).flags().sink_closed,
            outcome matches SinkPoll::Refused(e) ==> pushed_event(
                old(self).events_log(),
                final(self).events_log(),
                |ev: WsEvent| ev matches WsEvent::Error(a) && a == ws_err_of(e),
            ),
            !(outcome is Refused) ==> final(self).events_log() == old(self).events_log(),
            final(self).closer_spec().sent() == (old(self).closer_spec().sent() || old(self).closer_spec().spec_state() is Sending),
            !(r is Data) && !(r is Fail) && !(r is Bug),
            outcome is Pending ==> r is Pending,
            old(self).closer_spec().spec_state() matches CloserState::Closing(_) && outcome
                is Accepted ==> r is NeedSinkSend,
            old(self).closer_spec().spec_state() is Sending ==> r is NeedSinkFlush,
            ((outcome is Accepted && (old(self).closer_spec().spec_state() is InitialFlush || old(
                self,
            ).closer_spec().spec_state() is Flushing)) || (outcome is Refused && !(old(
                self,
            ).closer_spec().spec_state() is Sending))) ==> ((old(self).flags().stream_closed ==> r
                is End) && (!old(self).flags().stream_closed ==> r is NeedStream)),
    {
        let ghost pre_log = self.events_log();
        let ghost pre_queued = self.notifier.queued();
        let ghost go = outcome;
        let step = self.closer.apply(&mut self.notifier, outcome);
        proof {
            if go is Refused {
                let q1 = self.notifier.queued();
                assert(q1 =~= pre_queued.push(q1.last()));
                assert(self.events_log() =~= pre_log.push(q1.last()));
                assert(self.events_log().subrange(0, pre_log.len() as int) =~= pre_log);
                lemma_closed_count_push(pre_log, q1.last());
            } else {
                assert(self.events_log() =~= pre_log);
            }
        }
        match step {
            CloserStep::Continue => {
                match self.closer.task() {
                    Some(SinkTask::Ready) => ReadStep::NeedSinkReady,
                    Some(SinkTask::Send) => ReadStep::NeedSinkSend,
                    Some(SinkTask::Flush) => ReadStep::NeedSinkFlush,
                    None => {
                        assert(false);
                        ReadStep::Bug
                    },
                }
            },
            CloserStep::Pending => {
                self.phase = Phase::Idle;
                ReadStep::Pending
            },
            CloserStep::Done => {
                self.state.closer_pend = false;
                self.read_resume(cx)
            },
            CloserStep::Failed => {
                self.state.sink_closed = true;
                self.state.closer_pend = false;
                self.read_resume(cx)
            },
        }
    }

    /// Classify what one poll of the message stream produced, and carry
    /// the read side on.
    ///
    /// Binary payloads go to the caller. A text message is refused: it
    /// queues a `ReceivedText` error event and initiates a close with code
    /// `Unsupported`. Close, ping and pong frames become events and the
    /// read side polls on. End-of-stream closes the inbound half, as does
    /// a connection-closed error, which additionally queues the one
    /// `Closed` event. A transport error is fatal and is returned; a
    /// protocol violation initiates a close with code `Protocol` and the
    /// violation's reason; a utf-8 error is treated like text; a capacity
    /// error is an event only.
    pub fn poll_next_stream(&mut self, cx: &mut Context<'_>, polled: StreamPoll) -> (r: ReadStep)
        requires
            old(self).wf(),
            old(self).phase_spec() is ReadStream,
        ensures
            final(self).wf(),
            read_step_ok(*final(self), r),
            r is Data <==> polled matches StreamPoll::Item(Msg::Binary(_)),
            r is Fail <==> polled matches StreamPoll::Fault(SocketErr::Io(_)),
            r is Bug <==> polled matches StreamPoll::Fault(SocketErr::WriteBufferFull),
            polled is Pending ==> r is Pending && final(self).flags() == old(self).flags()
                && final(self).closer_spec() == old(self).closer_spec() && final(self).events_log()
                == old(self).events_log(),
            polled matches StreamPoll::Item(Msg::Binary(v)) ==> r == ReadStep::Data(v) && final(self).flags() == old(self).flags() && final(self).closer_spec() == old(self).closer_spec()
                && final(self).events_log() == old(self).events_log(),
            polled matches StreamPoll::Item(Msg::Text(_)) ==> pushed_event(
                old(self).events_log(),
                final(self).events_log(),
                |ev: WsEvent| ev matches WsEvent::Error(a) && a == WsErr::ReceivedText,
            ) && close_initiated(*old(self), *final(self), CloseCode::Unsupported, text_reason())
                && final(self).flags().stream_closed == old(self).flags().stream_closed,
            polled matches StreamPoll::Item(Msg::Close(c)) ==> final(self).events_log() == old(self).events_log().push(WsEvent::CloseFrame(c)) && final(self).flags().stream_closed == old(self).flags().stream_closed && final(self).flags().sink_closed == old(self).flags().sink_closed && final(self).closer_spec() == old(self).closer_spec(),
            polled matches StreamPoll::Item(Msg::Ping(d)) ==> final(self).events_log() == old(self).events_log().push(WsEvent::Ping(d)) && final(self).flags().stream_closed == old(self).flags().stream_closed && final(self).flags().sink_closed == old(self).flags().sink_closed && final(self).closer_spec() == old(self).closer_spec(),
            polled matches StreamPoll::Item(Msg::Pong(d)) ==> final(self).events_log() == old(self).events_log().push(WsEvent::Pong(d)) && final(self).flags().stream_closed == old(self).flags().stream_closed && final(self).flags().sink_closed == old(self).flags().sink_closed && final(self).closer_spec() == old(self).closer_spec(),
            polled is End ==> (r is Pending || r is End) && final(self).flags().stream_closed
                && !final(self).flags().closer_pend && final(self).events_log() == old(
                self,
            ).events_log().push(WsEvent::Closed) && closed_count_of(final(self).events_log())
                == 1,
            r is End ==> polled is End || polled matches StreamPoll::Fault(
                SocketErr::ConnectionClosed,
            ) || polled matches StreamPoll::Fault(SocketErr::AlreadyClosed) || polled matches StreamPoll::Item(Msg::Close(_)),
            (polled matches StreamPoll::Fault(SocketErr::ConnectionClosed) || polled matches StreamPoll::Fault(
                SocketErr::AlreadyClosed,
            )) ==> final(self).flags().stream_closed && !final(self).flags().closer_pend && final(self).events_log() == old(self).events_log().push(WsEvent::Closed) && closed_count_of(final(self).events_log()) == 1,
            polled matches StreamPoll::Fault(SocketErr::Io(k)) ==> r == ReadStep::Fail(k) && final(self).flags().stream_closed && !final(self).flags().closer_pend && pushed_event(
                old(self).events_log(),
                final(self).events_log(),
                |ev: WsEvent| ev matches WsEvent::Error(a) && a == (WsErr::Io { source: k }),
            ),
            polled matches StreamPoll::Fault(SocketErr::Protocol(reason)) ==> pushed_event(
                old(self).events_log(),
                final(self).events_log(),
                |ev: WsEvent| ev matches WsEvent::Error(a) && a == WsErr::Protocol,
            ) && close_initiated(*old(self), *final(self), CloseCode::Protocol, reason@) && final(self).flags().stream_closed == old(self).flags().stream_closed,
            polled matches StreamPoll::Fault(SocketErr::Utf8(s)) ==> pushed_event(
                old(self).events_log(),
                final(self).events_log(),
                |ev: WsEvent| ev matches WsEvent::Error(a) && a == (WsErr::Tungstenite {
                    source: SocketErr::Utf8(s),
                }),
            ) && close_initiated(*old(self), *final(self), CloseCode::Unsupported, utf8_reason())
                && final(self).flags().stream_closed == old(self).flags().stream_closed,
            polled matches StreamPoll::Fault(SocketErr::Capacity(s)) ==> pushed_event(
                old(self).events_log(),
                final(self).events_log(),
                |ev: WsEvent| ev matches WsEvent::Error(a) && a == (WsErr::Tungstenite {
                    source: SocketErr::Capacity(s),
                }),
            ) && final(self).flags().stream_closed == old(self).flags().stream_closed && final(self).flags().sink_closed == old(self).flags().sink_closed && final(self).closer_spec()
                == old(self).closer_spec(),
            polled matches StreamPoll::Fault(SocketErr::WriteBufferFull) ==> *final(self) == *old(self),
    {
        match polled {
            StreamPoll::Pending => {
                self.phase = Phase::Idle;
                ReadStep::Pending
            },
            StreamPoll::Item(Msg::Binary(v)) => {
                self.phase = Phase::Idle;
                ReadStep::Data(v)
            },
            StreamPoll::Item(Msg::Text(_)) => {
                let ghost pre_log = self.events_log();
                self.queue_event(WsEvent::Error(Arc::new(WsErr::ReceivedText)));
                proof {
                    assert(self.events_log().subrange(0, pre_log.len() as int) =~= pre_log);
                }
                self.send_closeframe(
                    CloseCode::Unsupported,
                    "Text messages are not supported.".to_string(),
                );
                self.read_resume(cx)
            },
            StreamPoll::Item(Msg::Close(c)) => {
                // Do not end the stream yet: the underlying library still
                // drives the close handshake and will report end-of-stream
                // itself once the connection can be dropped.
                self.queue_event(WsEvent::CloseFrame(c));
                self.read_resume(cx)
            },
            StreamPoll::Item(Msg::Ping(d)) => {
                // The underlying library answers the ping by itself.
                self.queue_event(WsEvent::Ping(d));
                self.read_resume(cx)
            },
            StreamPoll::Item(Msg::Pong(d)) => {
                self.queue_event(WsEvent::Pong(d));
                self.read_resume(cx)
            },
            StreamPoll::End => {
                // No close frame can reach the peer once its half is gone.
                // The end of the stream is the one point where the
                // connection is over for sure, so the Closed notification
                // is queued here; an earlier connection-closed report
                // would have closed the stream already and ended the read
                // before this point.
                let ghost pre_log = self.events_log();
                self.state.closer_pend = false;
                self.phase = Phase::Idle;
                self.state.stream_closed = true;
                self.queue_event(WsEvent::Closed);
                proof {
                    lemma_closed_count_push(pre_log, WsEvent::Closed);
                }
                self.read_resume(cx)
            },
            StreamPoll::Fault(SocketErr::ConnectionClosed) | StreamPoll::Fault(
                SocketErr::AlreadyClosed,
            ) => {
                // The peer's half is gone: a close frame still in flight
                // cannot reach it any more.
                let ghost pre_log = self.events_log();
                self.phase = Phase::Idle;
                self.state.closer_pend = false;
                self.state.stream_closed = true;
                self.queue_event(WsEvent::Closed);
                proof {
                    lemma_closed_count_push(pre_log, WsEvent::Closed);
                }
                self.read_resume(cx)
            },
            StreamPoll::Fault(SocketErr::Io(k)) => {
                // The transport is broken; this is fatal for the caller,
                // and a close frame in flight cannot go out any more.
                self.phase = Phase::Idle;
                let ghost pre_log = self.events_log();
                self.state.closer_pend = false;
                self.state.stream_closed = true;
                self.queue_event(WsEvent::Error(Arc::new(WsErr::Io { source: k })));
                proof {
                    assert(self.events_log().subrange(0, pre_log.len() as int) =~= pre_log);
                }
                ReadStep::Fail(k)
            },
            StreamPoll::Fault(SocketErr::Protocol(reason)) => {
                let ghost pre_log = self.events_log();
                self.queue_event(WsEvent::Error(Arc::new(WsErr::Protocol)));
                proof {
                    assert(self.events_log().subrange(0, pre_log.len() as int) =~= pre_log);
                }
                self.send_closeframe(CloseCode::Protocol, reason);
                self.read_resume(cx)
            },
            StreamPoll::Fault(SocketErr::Utf8(s)) => {
                let ghost pre_log = self.events_log();
                self.queue_event(
                    WsEvent::Error(Arc::new(WsErr::Tungstenite { source: SocketErr::Utf8(s) })),
                );
                proof {
                    assert(self.events_log().subrange(0, pre_log.len() as int) =~= pre_log);
                }
                self.send_closeframe(
                    CloseCode::Unsupported,
                    "Text messages are not supported".to_string(),
                );
                self.read_resume(cx)
            },
            StreamPoll::Fault(SocketErr::Capacity(s)) => {
                let ghost pre_log = self.events_log();
                self.queue_event(
                    WsEvent::Error(Arc::new(WsErr::Tungstenite { source: SocketErr::Capacity(s) })),
                );
                proof {
                    assert(self.events_log().subrange(0, pre_log.len() as int) =~= pre_log);
                }
                self.read_resume(cx)
            },
            StreamPoll::Fault(SocketErr::WriteBufferFull) => {
                // A write-buffer-full error from a read is an invariant
                // violation of the underlying library.
                ReadStep::Bug
            },
        }
    }

    // Once the closer rests, the write side carries on: deliver events,
    // then refuse if the sink is closed, else ask for the sink's
    // readiness for one user payload.
    fn write_after_closer(&mut self, cx: &mut Context<'_>) -> (r: WriteStep)
        requires
            old(self).wf(),
            !old(self).flags().closer_pend,
        ensures
            final(self).wf(),
            write_step_ok(*final(self), r),
            final(self).events_log() == old(self).events_log(),
            final(self).closer_spec() == old(self).closer_spec(),
            final(self).flags().closer_pend == old(self).flags().closer_pend,
            final(self).flags().sink_closed == old(self).flags().sink_closed,
            final(self).flags().stream_closed == old(self).flags().stream_closed,
            r is Pending ==> old(self).flags().notifier_pend,
            r is Fail ==> old(self).flags().sink_closed && r == WriteStep::Fail(
                IoKind::NotConnected,
            ),
            old(self).flags().sink_closed && !(r is Pending) ==> r is Fail,
            !old(self).flags().sink_closed && !(r is Pending) ==> r is NeedSinkReady,
            (r is Pending || r is Fail || r is NeedSinkReady),
    {
        if !self.check_notify(cx) {
            self.phase = Phase::Idle;
            return WriteStep::Pending;
        }
        if self.state.sink_closed {
            self.phase = Phase::Idle;
            return WriteStep::Fail(IoKind::NotConnected);
        }
        self.phase = Phase::WriteReady;
        WriteStep::NeedSinkReady
    }

    /// Begin one readiness poll of the write side: finish a close in
    /// flight first, then deliver events, then refuse if the sink is
    /// closed, else ask for the sink's readiness.
    pub fn poll_ready_enter(&mut self, cx: &mut Context<'_>) -> (r: WriteStep)
        requires
            old(self).wf(),
            old(self).phase_spec() is Idle,
        ensures
            final(self).wf(),
            write_step_ok(*final(self), r),
            final(self).events_log() == old(self).events_log(),
            final(self).closer_spec() == old(self).closer_spec(),
            final(self).flags().sink_closed == old(self).flags().sink_closed,
            final(self).flags().stream_closed == old(self).flags().stream_closed,
            r is Fail ==> r == WriteStep::Fail(IoKind::NotConnected) && old(self).flags().sink_closed,
            r is Pending ==> old(self).flags().notifier_pend && !old(self).flags().closer_pend,
            old(self).flags().closer_pend ==> match old(self).closer_spec().task_spec() {
                Some(SinkTask::Ready) => r is NeedSinkReady,
                Some(SinkTask::Send) => r is NeedSinkSend,
                Some(SinkTask::Flush) => r is NeedSinkFlush,
                None => false,
            },
            !old(self).flags().closer_pend && !(r is Pending) ==> ((old(self).flags().sink_closed
                ==> r == WriteStep::Fail(IoKind::NotConnected)) && (!old(self).flags().sink_closed
                ==> r is NeedSinkReady)),
            (r is Pending || r is Fail || r is NeedSinkReady || r is NeedSinkSend || r
                is NeedSinkFlush),
    {
        if self.state.closer_pend {
            self.phase = Phase::WriteCloser;
            match self.closer.task() {
                Some(SinkTask::Ready) => {
                    return WriteStep::NeedSinkReady;
                },
                Some(SinkTask::Send) => {
                    return WriteStep::NeedSinkSend;
                },
                Some(SinkTask::Flush) => {
                    return WriteStep::NeedSinkFlush;
                },
                None => {
                    assert(false);
                    return WriteStep::Bug;
                },
            }
        }
        self.write_after_closer(cx)
    }

    /// Answer the sink operation the write side asked for: either for the
    /// closer, or the readiness poll for the next user payload.
    ///
    /// Once a close was initiated the sink stays closed to user payloads,
    /// so after the closer finishes - either way - the write side reports
    /// `NotConnected`. An error on the readiness poll itself closes the
    /// inbound half too: the duplex is broken, as the read side depends on
    /// the sink to emit close frames.
    pub fn poll_ready_sink(&mut self, cx: &mut Context<'_>, outcome: SinkPoll) -> (r: WriteStep)
        requires
            old(self).wf(),
            old(self).phase_spec() is WriteCloser || old(self).phase_spec() is WriteReady,
            old(self).phase_spec() is WriteCloser ==> old(self).flags().closer_pend && (old(self).closer_spec().spec_state() is Sending ==> !(outcome is Pending)),
            old(self).phase_spec() is WriteReady ==> !old(self).flags().sink_closed && !old(self).flags().notifier_pend && !old(self).flags().closer_pend,
        ensures
            final(self).wf(),
            write_step_ok(*final(self), r),
            old(self).phase_spec() is WriteReady ==> final(self).events_log() == old(self).events_log() && match outcome {
                SinkPoll::Pending => r is Pending && final(self).flags() == old(self).flags(),
                SinkPoll::Accepted => r is Ready && final(self).flags() == old(self).flags(),
                SinkPoll::Refused(e) => final(self).flags().stream_closed && (e.sendable() ==> r
                    == WriteStep::Fail(io_kind_of(e))) && (!e.sendable() ==> r is Bug),
            },
            old(self).phase_spec() is WriteCloser ==> (outcome matches SinkPoll::Refused(e)
                ==> pushed_event(
                old(self).events_log(),
                final(self).events_log(),
                |ev: WsEvent| ev matches WsEvent::Error(a) && a == ws_err_of(e),
            )) && (!(outcome is Refused) ==> final(self).events_log() == old(self).events_log())
                && final(self).flags().stream_closed == old(self).flags().stream_closed,
            outcome is Pending ==> r is Pending,
            old(self).phase_spec() is WriteCloser ==> final(self).closer_spec().sent() == (old(
                self,
            ).closer_spec().sent() || old(self).closer_spec().spec_state() is Sending),
            old(self).phase_spec() is WriteReady ==> final(self).closer_spec() == old(
                self,
            ).closer_spec(),
            old(self).phase_spec() is WriteCloser && (old(self).closer_spec().spec_state() matches CloserState::Closing(_))
                && outcome is Accepted ==> r is NeedSinkSend,
            old(self).phase_spec() is WriteCloser && old(self).closer_spec().spec_state()
                is Sending ==> r is NeedSinkFlush,
            old(self).phase_spec() is WriteCloser && ((outcome is Accepted && (old(
                self,
            ).closer_spec().spec_state() is InitialFlush || old(self).closer_spec().spec_state()
                is Flushing)) || (outcome is Refused && !(old(self).closer_spec().spec_state()
                is Sending))) ==> ((r is Pending ==> old(self).flags().notifier_pend) && (!(r
                is Pending) ==> r == WriteStep::Fail(IoKind::NotConnected))),
    {
        if matches!(self.phase, Phase::WriteReady) {
            self.phase = Phase::Idle;
            return match outcome {
                SinkPoll::Pending => WriteStep::Pending,
                SinkPoll::Accepted => WriteStep::Ready,
                SinkPoll::Refused(e) => {
                    self.state.stream_closed = true;
                    if matches!(
                        e,
                        SocketErr::Protocol(_) | SocketErr::Utf8(_) | SocketErr::WriteBufferFull,
                    ) {
                        WriteStep::Bug
                    } else {
                        WriteStep::Fail(to_io_error(&e))
                    }
                },
            };
        }
        let ghost pre_log = self.events_log();
        let ghost pre_queued = self.notifier.queued();
        let ghost go = outcome;
        let step = self.closer.apply(&mut self.notifier, outcome);
        proof {
            if go is Refused {
                let q1 = self.notifier.queued();
                assert(q1 =~= pre_queued.push(q1.last()));
                assert(self.events_log() =~= pre_log.push(q1.last()));
                assert(self.events_log().subrange(0, pre_log.len() as int) =~= pre_log);
                lemma_closed_count_push(pre_log, q1.last());
            } else {
                assert(self.events_log() =~= pre_log);
            }
        }
        match step {
            CloserStep::Continue => {
                match self.closer.task() {
                    Some(SinkTask::Ready) => WriteStep::NeedSinkReady,
                    Some(SinkTask::Send) => WriteStep::NeedSinkSend,
                    Some(SinkTask::Flush) => WriteStep::NeedSinkFlush,
                    None => {
                        assert(false);
                        WriteStep::Bug
                    },
                }
            },
            CloserStep::Pending => {
                self.phase = Phase::Idle;
                WriteStep::Pending
            },
            CloserStep::Done => {
                self.state.closer_pend = false;
                self.write_after_closer(cx)
            },
            CloserStep::Failed => {
                self.state.sink_closed = true;
                self.state.closer_pend = false;
                self.write_after_closer(cx)
            },
        }
    }

    /// Whether one user payload may be handed to the sink now: refused
    /// with `NotConnected` exactly when the outbound half is closed.
    pub fn start_send(&self) -> (r: Result<(), IoKind>)
        ensures
            r is Ok <==> !self.flags().sink_closed,
            r matches Err(k) ==> k == IoKind::NotConnected,
    {
        if self.state.sink_closed {
            Err(IoKind::NotConnected)
        } else {
            Ok(())
        }
    }

    /// Record what the sink said to a user payload. On any error the
    /// duplex is considered broken: both halves close, and the error maps
    /// through `to_io_error` - or the driver aborts, where the sink
    /// reported an error this adapter can never legitimately cause.
    pub fn start_send_outcome(&mut self, outcome: SinkPoll) -> (r: WriteStep)
        requires
            old(self).wf(),
            !(outcome is Pending),
            old(self).phase_spec() is Idle,
        ensures
            final(self).wf(),
            final(self).events_log() == old(self).events_log(),
            final(self).closer_spec() == old(self).closer_spec(),
            final(self).phase_spec() == old(self).phase_spec(),
            outcome is Accepted ==> r is Ready && *final(self) == *old(self),
            outcome matches SinkPoll::Refused(e) ==> final(self).flags().sink_closed && final(self).flags().stream_closed && (e.sendable() ==> r == WriteStep::Fail(io_kind_of(e))) && (
            !e.sendable() ==> r is Bug),
    {
        match outcome {
            SinkPoll::Accepted => WriteStep::Ready,
            SinkPoll::Refused(e) => {
                self.state.sink_closed = true;
                self.state.stream_closed = true;
                if matches!(
                    e,
                    SocketErr::Protocol(_) | SocketErr::Utf8(_) | SocketErr::WriteBufferFull,
                ) {
                    WriteStep::Bug
                } else {
                    WriteStep::Fail(to_io_error(&e))
                }
            },
            SinkPoll::Pending => {
                assert(false);
                WriteStep::Bug
            },
        }
    }

    /// Record what the sink's flush said. An error breaks the inbound
    /// half too and maps through `to_io_error`, as for a send.
    pub fn poll_flush_outcome(&mut self, outcome: SinkPoll) -> (r: WriteStep)
        requires
            old(self).wf(),
            old(self).phase_spec() is Idle,
        ensures
            final(self).wf(),
            final(self).events_log() == old(self).events_log(),
            final(self).closer_spec() == old(self).closer_spec(),
            final(self).phase_spec() == old(self).phase_spec(),
            outcome is Accepted ==> r is Ready && *final(self) == *old(self),
            outcome is Pending ==> r is Pending && *final(self) == *old(self),
            outcome matches SinkPoll::Refused(e) ==> final(self).flags().stream_closed && (
            e.sendable() ==> r == WriteStep::Fail(io_kind_of(e))) && (!e.sendable() ==> r is Bug),
    {
        match outcome {
            SinkPoll::Accepted => WriteStep::Ready,
            SinkPoll::Pending => WriteStep::Pending,
            SinkPoll::Refused(e) => {
                self.state.stream_closed = true;
                if matches!(
                    e,
                    SocketErr::Protocol(_) | SocketErr::Utf8(_) | SocketErr::WriteBufferFull,
                ) {
                    WriteStep::Bug
                } else {
                    WriteStep::Fail(to_io_error(&e))
                }
            },
        }
    }

    /// Record what the sink's close said, refusing further payloads
    /// either way. A connection that was already closed counts as
    /// success; any other error breaks the inbound half and maps through
    /// `to_io_error`.
    pub fn poll_close_outcome(&mut self, outcome: SinkPoll) -> (r: WriteStep)
        requires
            old(self).wf(),
            old(self).phase_spec() is Idle,
        ensures
            final(self).wf(),
            final(self).events_log() == old(self).events_log(),
            final(self).closer_spec() == old(self).closer_spec(),
            final(self).phase_spec() == old(self).phase_spec(),
            final(self).flags().sink_closed,
            outcome is Accepted ==> r is Ready,
            outcome is Pending ==> r is Pending,
            outcome matches SinkPoll::Refused(e) ==> match e {
                SocketErr::ConnectionClosed => r is Ready,
                SocketErr::AlreadyClosed => r is Ready,
                _ => final(self).flags().stream_closed && (e.sendable() ==> r == WriteStep::Fail(
                    io_kind_of(e),
                )) && (!e.sendable() ==> r is Bug),
            },
    {
        self.state.sink_closed = true;
        match outcome {
            SinkPoll::Accepted => WriteStep::Ready,
            SinkPoll::Pending => WriteStep::Pending,
            SinkPoll::Refused(e) => {
                match e {
                    SocketErr::ConnectionClosed | SocketErr::AlreadyClosed => WriteStep::Ready,
                    e => {
                        self.state.stream_closed = true;
                        if matches!(
                            e,
                            SocketErr::Protocol(_) | SocketErr::Utf8(_)
                                | SocketErr::WriteBufferFull,
                        ) {
                            WriteStep::Bug
                        } else {
                            WriteStep::Fail(to_io_error(&e))
                        }
                    },
                }
            },
        }
    }

    /// Subscribe to the out-of-band events, with the channel kind and
    /// filter the configuration asks for. A refused subscription - the
    /// broadcast was closed, or the configuration asked for a zero-sized
    /// bounded channel - is reported as a `Closed` error.
    pub fn observe(&mut self, options: ObserveConfig<WsEvent>) -> (r: Result<
        Events<WsEvent>,
        WsErr,
    >)
        requires
            old(self).wf(),
        ensures
            final(self).wf(),
            final(self).events_log() == old(self).events_log(),
            final(self).closer_spec() == old(self).closer_spec(),
            final(self).flags() == old(self).flags(),
            final(self).phase_spec() == old(self).phase_spec(),
            r matches Err(e) ==> e is Closed,
    {
        match self.notifier.observe(options) {
            Ok(events) => Ok(events),
            Err(_) => Err(WsErr::Closed),
        }
    }

    /// Law: the `Closed` event is queued at most once in an adapter's
    /// lifetime, and only once the inbound half is closed. Together with
    /// the notifier's conservation - delivered events plus queued events
    /// never lose or reorder an entry - each live subscriber receives it
    /// at most once, and the inbound paths queue it exactly once when the
    /// stream ends by a connection-closed report.
    pub proof fn closed_event_at_most_once(ws: TungWebSocket)
        requires
            ws.wf(),
        ensures
            closed_count_of(ws.events_log()) <= 1,
            closed_count_of(ws.events_log()) != 0 ==> ws.flags().stream_closed,
    {
    }

    /// Law: backpressure from observers throttles the adapter. A poll of
    /// the message stream, or readiness for a user payload, is only ever
    /// reported while no event delivery is recorded as pending: the
    /// notifier's last run handed everything it was asked about to the
    /// observers' channels.
    pub proof fn events_precede_io(post: TungWebSocket, r: ReadStep, w: WriteStep)
        requires
            read_step_ok(post, r),
            write_step_ok(post, w),
        ensures
            r is NeedStream ==> !post.flags().notifier_pend,
            w is Ready ==> !post.flags().notifier_pend,
    {
    }
}

/// The close reason sent for a text message.
pub open spec fn text_reason() -> Seq<char> {
    "Text messages are not supported."@
}

/// The close reason sent for a utf-8 error.
pub open spec fn utf8_reason() -> Seq<char> {
    "Text messages are not supported"@
}

/// A close was initiated, unless the sink was already closed: the one
/// close frame with this code and reason is queued on the closer, the sink
/// refuses further payloads, and the closer is pending.
pub open spec fn close_initiated(
    pre: TungWebSocket,
    post: TungWebSocket,
    code: CloseCode,
    reason: Seq<char>,
) -> bool {
    if !pre.flags().sink_closed {
        &&& post.flags().sink_closed
        &&& post.flags().closer_pend
        &&& (post.closer_spec().spec_state() matches CloserState::Closing(f) && f.code == code
            && f.reason@ == reason)
    } else {
        &&& post.flags().sink_closed
        &&& post.flags().closer_pend == pre.flags().closer_pend
        &&& post.closer_spec() == pre.closer_spec()
    }
}

/// The i/o error kind that a sink-side error maps to.
pub open spec fn io_kind_of(e: SocketErr) -> IoKind {
    match e {
        SocketErr::Io(k) => k,
        SocketErr::ConnectionClosed => IoKind::NotConnected,
        SocketErr::AlreadyClosed => IoKind::NotConnected,
        SocketErr::Capacity(_) => IoKind::InvalidData,
        _ => IoKind::Other,
    }
}

/// Map an error that a send-side operation reported into the i/o error
/// kind returned to the caller: i/o errors pass through, a closed
/// connection becomes `NotConnected`, a capacity overflow becomes
/// `InvalidData`. The remaining variants mean a bug in this adapter - it
/// never produces protocol violations, oversized writes or text on the
/// write path - and the caller must abort instead of calling this.
pub fn to_io_error(err: &SocketErr) -> (k: IoKind)
    requires
        err.sendable(),
    ensures
        k == io_kind_of(*err),
{
    match err {
        SocketErr::Io(kind) => *kind,
        SocketErr::ConnectionClosed => IoKind::NotConnected,
        SocketErr::AlreadyClosed => IoKind::NotConnected,
        SocketErr::Capacity(_) => IoKind::InvalidData,
        _ => {
            assert(false);
            IoKind::Other
        },
    }
}

/// The directive returned by a write-side step fits the adapter's state:
/// readiness for a user payload is only reported with events delivered,
/// no close in flight and the sink open; a sink request either serves the
/// closer's next task or, once the closer rests, the user payload's
/// readiness poll.
pub open spec fn write_step_ok(post: TungWebSocket, r: WriteStep) -> bool {
    &&& (r is Pending ==> post.phase_spec() is Idle)
    &&& (r is Ready ==> post.phase_spec() is Idle && !post.flags().sink_closed
        && !post.flags().notifier_pend && !post.flags().closer_pend)
    &&& (r is Fail ==> post.phase_spec() is Idle)
    &&& (r is NeedSinkReady ==> (post.phase_spec() is WriteCloser && post.flags().closer_pend
        && post.closer_spec().task_spec() == Some(SinkTask::Ready)) || (post.phase_spec()
        is WriteReady && !post.flags().sink_closed && !post.flags().notifier_pend
        && !post.flags().closer_pend))
    &&& (r is NeedSinkSend ==> post.phase_spec() is WriteCloser && post.flags().closer_pend
        && post.closer_spec().task_spec() == Some(SinkTask::Send))
    &&& (r is NeedSinkFlush ==> post.phase_spec() is WriteCloser && post.flags().closer_pend
        && post.closer_spec().task_spec() == Some(SinkTask::Flush))
}

/// The directive returned by a read-side step fits the adapter's state:
/// results leave no request outstanding, a stream poll is only asked for
/// with events delivered, no close in flight and the stream open, and a
/// sink request matches the closer's next task.
pub open spec fn read_step_ok(post: TungWebSocket, r: ReadStep) -> bool {
    &&& (r is Pending ==> post.phase_spec() is Idle)
    &&& (r is Data ==> post.phase_spec() is Idle)
    &&& (r is End ==> post.phase_spec() is Idle && post.flags().stream_closed)
    &&& (r is Fail ==> post.phase_spec() is Idle && post.flags().stream_closed)
    &&& (r is NeedStream ==> post.phase_spec() is ReadStream && !post.flags().notifier_pend
        && !post.flags().closer_pend && !post.flags().stream_closed)
    &&& (r is NeedSinkReady ==> post.phase_spec() is ReadCloser && post.flags().closer_pend
        && post.closer_spec().task_spec() == Some(SinkTask::Ready))
    &&& (r is NeedSinkSend ==> post.phase_spec() is ReadCloser && post.flags().closer_pend
        && post.closer_spec().task_spec() == Some(SinkTask::Send))
    &&& (r is NeedSinkFlush ==> post.phase_spec() is ReadCloser && post.flags().closer_pend
        && post.closer_spec().task_spec() == Some(SinkTask::Flush))
}

} // verus!
