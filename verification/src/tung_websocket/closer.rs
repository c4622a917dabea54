//! Progress-tracking state machine for sending exactly one close frame
//! into the outbound sink.
//!
//! When the read side detects a protocol violation or a text message, a
//! close frame must go out even though the sink may not be ready and the
//! caller is a reader task. The closer keeps the frame and remembers how
//! far the send has progressed; the i/o driver asks it which sink
//! operation to perform next and reports the outcome back. Errors from the
//! sink are surfaced as events through the notifier, not as return values.

use vstd::prelude::*;
use std::sync::Arc;
use super::SinkPoll;
use super::notifier::Notifier;
use crate::ws_err::{SocketErr, WsErr};
use crate::ws_event::{CloseFrameData, WsEvent};

verus! {

/// The value `WsErr::from` gives for a socket error.
pub open spec fn ws_err_of(e: SocketErr) -> WsErr {
    match e {
        SocketErr::Protocol(_) => WsErr::Protocol,
        _ => WsErr::Tungstenite { source: e },
    }
}

/// The sink operation the closer needs next.
#[derive(Clone, Copy, Debug, PartialEq, Eq, Structural)]
pub enum SinkTask {
    /// Poll the sink for readiness.
    Ready,
    /// Start sending the close frame (see [`Closer::close_frame`]).
    Send,
    /// Poll the sink's flush.
    Flush,
}

/// What one applied outcome means for the caller.
#[derive(Clone, Copy, Debug, PartialEq, Eq, Structural)]
pub enum CloserStep {
    /// Progress was made; ask for the next task at once.
    Continue,
    /// The sink cannot progress; try again when the task is woken.
    Pending,
    /// The close frame went out and was flushed.
    Done,
    /// The close could not complete; the sink should be considered closed.
    Failed,
}

/// The states of the close sender. They only move forward.
#[derive(Clone, Debug)]
pub enum State {
    /// No close frame was requested yet.
    Ready,
    /// A close frame is queued; the sink has not accepted readiness yet.
    Closing(CloseFrameData),
    /// The sink is ready; the frame must now be handed to it.
    Sending(CloseFrameData),
    /// The frame was handed over; the first flush is in progress.
    InitialFlush,
    /// A flush reported pending earlier; keep flushing.
    Flushing,
    /// The sink reported an error; nothing more will be sent.
    SinkError,
    /// The close frame went out and was flushed; nothing more to do.
    Closed,
}

/// Sends one close frame over the sink, even in the face of partial
/// readiness, and never initiates it twice.
pub struct Closer {
    state: State,
    sent: Ghost<bool>,
}

impl Closer {
    /// The state the closer is in.
    pub closed spec fn spec_state(&self) -> State {
        self.state
    }

    /// Whether the close frame was already handed to the sink.
    pub closed spec fn sent(&self) -> bool {
        self.sent@
    }

    /// `sent` agrees with the progress the state records: before the sink
    /// accepted readiness nothing was handed over; from the first flush on
    /// the frame is out. A sink error can lie on either side.
    pub open spec fn wf(&self) -> bool {
        match self.spec_state() {
            State::Ready => !self.sent(),
            State::Closing(_) => !self.sent(),
            State::Sending(_) => !self.sent(),
            State::InitialFlush => self.sent(),
            State::Flushing => self.sent(),
            State::Closed => self.sent(),
            State::SinkError => true,
        }
    }

    /// The sink operation to perform next, `None` when the closer is in a
    /// resting state.
    pub open spec fn task_spec(&self) -> Option<SinkTask> {
        match self.spec_state() {
            State::Ready => None,
            State::Closing(_) => Some(SinkTask::Ready),
            State::Sending(_) => Some(SinkTask::Send),
            State::InitialFlush => Some(SinkTask::Flush),
            State::Flushing => Some(SinkTask::Flush),
            State::SinkError => None,
            State::Closed => None,
        }
    }

    /// Create a closer with no close frame queued.
    pub fn new() -> (c: Closer)
        ensures
            c.spec_state() is Ready,
            !c.sent(),
            c.wf(),
    {
        Closer { state: State::Ready, sent: Ghost(false) }
    }

    /// The state, for inspection.
    pub fn state(&self) -> (s: &State)
        ensures
            *s == self.spec_state(),
    {
        &self.state
    }

    /// The sink operation to perform next, `None` when there is nothing to
    /// drive.
    pub fn task(&self) -> (t: Option<SinkTask>)
        ensures
            t == self.task_spec(),
    {
        match &self.state {
            State::Ready => None,
            State::Closing(_) => Some(SinkTask::Ready),
            State::Sending(_) => Some(SinkTask::Send),
            State::InitialFlush => Some(SinkTask::Flush),
            State::Flushing => Some(SinkTask::Flush),
            State::SinkError => None,
            State::Closed => None,
        }
    }

    /// The close frame being sent, while one is on its way out.
    pub fn close_frame(&self) -> (f: Option<&CloseFrameData>)
        ensures
            match self.spec_state() {
                State::Closing(fr) => f matches Some(x) && *x == fr,
                State::Sending(fr) => f matches Some(x) && *x == fr,
                _ => f is None,
            },
    {
        match &self.state {
            State::Closing(fr) => Some(fr),
            State::Sending(fr) => Some(fr),
            _ => None,
        }
    }

    /// Queue the one close frame. Accepted only in the initial state:
    /// every later state means a close was already initiated, and the
    /// request is refused.
    pub fn queue(&mut self, frame: CloseFrameData) -> (r: Result<(), ()>)
        requires
            old(self).wf(),
        ensures
            final(self).wf(),
            final(self).sent() == old(self).sent(),
            old(self).spec_state() is Ready ==> r is Ok && final(self).spec_state()
                == State::Closing(frame),
            !(old(self).spec_state() is Ready) ==> r is Err && final(self).spec_state() == old(self).spec_state(),
    {
        if matches!(self.state, State::Ready) {
            self.state = State::Closing(frame);
            Ok(())
        } else {
            Err(())
        }
    }

    /// Apply the outcome of the sink operation that `task` asked for.
    ///
    /// Errors from the sink are queued on the notifier as events and the
    /// closer moves to `SinkError`; after the frame was handed over, a
    /// failed send still proceeds to the flush, exactly once. A flush that
    /// completes reports `Done` whether or not it had to be suspended
    /// first: the close frame is out either way.
    pub fn apply(&mut self, n: &mut Notifier, outcome: SinkPoll) -> (s: CloserStep)
        requires
            old(self).wf(),
            old(self).task_spec() is Some,
            old(self).spec_state() is Sending ==> !(outcome is Pending),
        ensures
            final(self).wf(),
            final(self).sent() == (old(self).sent() || old(self).spec_state() is Sending),
            final(n).delivered() == old(n).delivered(),
            outcome matches SinkPoll::Refused(e) ==> final(n).queued().len() == old(n).queued().len() + 1 && final(n).queued().subrange(
                0,
                old(n).queued().len() as int,
            ) == old(n).queued() && (final(n).queued().last() matches WsEvent::Error(a) && a
                == ws_err_of(e)),
            !(outcome is Refused) ==> *final(n) == *old(n),
            old(self).spec_state() matches State::Closing(f) ==> match outcome {
                SinkPoll::Pending => final(self).spec_state() == State::Closing(f) && s
                    == CloserStep::Pending,
                SinkPoll::Refused(_) => final(self).spec_state() is SinkError && s
                    == CloserStep::Failed,
                SinkPoll::Accepted => final(self).spec_state() == State::Sending(f) && s
                    == CloserStep::Continue,
            },
            old(self).spec_state() is Sending ==> final(self).spec_state() is InitialFlush && s
                == CloserStep::Continue,
            old(self).spec_state() is InitialFlush ==> match outcome {
                SinkPoll::Pending => final(self).spec_state() is Flushing && s
                    == CloserStep::Pending,
                SinkPoll::Refused(_) => final(self).spec_state() is SinkError && s
                    == CloserStep::Failed,
                SinkPoll::Accepted => final(self).spec_state() is Closed && s == CloserStep::Done,
            },
            old(self).spec_state() is Flushing ==> match outcome {
                SinkPoll::Pending => final(self).spec_state() is Flushing && s
                    == CloserStep::Pending,
                SinkPoll::Refused(_) => final(self).spec_state() is SinkError && s
                    == CloserStep::Failed,
                SinkPoll::Accepted => final(self).spec_state() is Closed && s == CloserStep::Done,
            },
    {
        let mut cur = State::Ready;
        core::mem::swap(&mut self.state, &mut cur);
        let was_sending = matches!(cur, State::Sending(_));
        match outcome {
            SinkPoll::Refused(e) => {
                n.queue(WsEvent::Error(Arc::new(WsErr::from(e))));
                if was_sending {
                    // The sink refused the frame itself; record the attempt
                    // and still drive the flush once, as a fresh flush.
                    self.sent = Ghost(true);
                    self.state = State::InitialFlush;
                    CloserStep::Continue
                } else {
                    self.state = State::SinkError;
                    CloserStep::Failed
                }
            },
            SinkPoll::Pending => {
                match cur {
                    State::InitialFlush => {
                        self.state = State::Flushing;
                    },
                    other => {
                        self.state = other;
                    },
                }
                CloserStep::Pending
            },
            SinkPoll::Accepted => {
                match cur {
                    State::Closing(f) => {
                        self.state = State::Sending(f);
                        CloserStep::Continue
                    },
                    State::Sending(_) => {
                        self.sent = Ghost(true);
                        self.state = State::InitialFlush;
                        CloserStep::Continue
                    },
                    State::InitialFlush => {
                        self.state = State::Closed;
                        CloserStep::Done
                    },
                    State::Flushing => {
                        self.state = State::Closed;
                        CloserStep::Done
                    },
                    other => {
                        assert(false);
                        self.state = other;
                        CloserStep::Failed
                    },
                }
            },
        }
    }

    /// Law: at most one close frame is ever handed to the sink in a
    /// closer's lifetime. Once `sent` holds - and every transition out of
    /// `Sending` makes it hold forever, as `apply`'s contract states - no
    /// reachable state offers the `Send` task again: the task is only
    /// offered in `Sending`, which is entered exactly once, from `Closing`,
    /// where nothing was sent yet.
    pub proof fn close_frame_sent_at_most_once(c: Closer)
        requires
            c.wf(),
            c.sent(),
        ensures
            c.task_spec() != Some(SinkTask::Send),
    {
    }
}

} // verus!
