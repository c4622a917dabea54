//! Queue-and-broadcast of out-of-band events to observers, with
//! per-observer backpressure.
//!
//! Events are queued on an internal FIFO and handed to a `pharos::Pharos`
//! broadcast in queue order. Delivery respects each observer's bounded
//! channel: while any observer cannot accept the next event, `run` reports
//! `Pending` and the caller must not generate further events.

use vstd::prelude::*;
use core::future::Future;
use core::pin::Pin;
use core::task::{Context, Poll};
use std::collections::VecDeque;
use futures_sink::Sink;
use futures_util::task::noop_waker;
use pharos::{Events, Observable, ObserveConfig, Pharos};
use crate::error::{Error, ErrorKind};
use crate::ws_event::WsEvent;

verus! {

/// The task context in which a poll-style operation runs.
#[verifier::external_type_specification]
#[verifier::external_body]
pub struct ExContext<'a>(Context<'a>);

/// The pharos broadcast that fans events out to observers.
#[verifier::external_type_specification]
#[verifier::external_body]
#[verifier::reject_recursive_types(Event)]
pub struct ExPharos<Event: 'static + Clone + Send>(Pharos<Event>);

/// A subscription handle: the lazy stream of events one observer receives.
#[verifier::external_type_specification]
#[verifier::external_body]
#[verifier::reject_recursive_types(Event)]
pub struct ExEvents<Event: 'static + Clone + Send>(Events<Event>);

/// What a subscriber asks for: channel kind and event filter.
#[verifier::external_type_specification]
#[verifier::external_body]
#[verifier::reject_recursive_types(Event)]
pub struct ExObserveConfig<Event: 'static + Clone + Send>(ObserveConfig<Event>);

/// Outcome of one poll-style call into the pharos sink.
enum PharPoll {
    /// The call completed successfully.
    Ready,
    /// The call failed; pharos reports an error only when it was closed.
    Failed,
    /// The call cannot complete until an observer makes progress.
    Pending,
}

/// Relies on pharos' `Sink::poll_ready`: ready once every live observer
/// channel can accept one more event, pending while any of them is full,
/// an error only if the pharos itself was closed (which this library never
/// does). Which of these happens depends on the observers and is outside
/// this library's control, so nothing more is claimed of the outcome.
#[verifier::external_body]
fn ph_poll_ready(ph: &mut Pharos<WsEvent>, cx: &mut Context<'_>) -> (r: PharPoll) {
    match Pin::new(ph).poll_ready(cx) {
        Poll::Ready(Ok(())) => PharPoll::Ready,
        Poll::Ready(Err(_)) => PharPoll::Failed,
        Poll::Pending => PharPoll::Pending,
    }
}

/// Relies on pharos' `Sink::start_send`: hands one event to every live
/// observer channel that accepts it (observers that dropped their handle
/// are pruned). Returns whether the pharos accepted the event; it refuses
/// only when it was closed, which this library never does.
#[verifier::external_body]
fn ph_start_send(ph: &mut Pharos<WsEvent>, evt: WsEvent) -> (ok: bool) {
    Pin::new(ph).start_send(evt).is_ok()
}

/// Relies on pharos' `Sink::poll_flush`: ready once every live observer
/// channel has flushed, pending otherwise, an error only if the pharos was
/// closed. As with `ph_poll_ready`, the outcome is outside this library's
/// control.
#[verifier::external_body]
fn ph_poll_flush(ph: &mut Pharos<WsEvent>, cx: &mut Context<'_>) -> (r: PharPoll) {
    match Pin::new(ph).poll_flush(cx) {
        Poll::Ready(Ok(())) => PharPoll::Ready,
        Poll::Ready(Err(_)) => PharPoll::Failed,
        Poll::Pending => PharPoll::Pending,
    }
}

/// Relies on `Pharos::new`: a fresh broadcast with no observers, sized for
/// the given number of observer slots.
#[verifier::external_body]
fn ph_new(capacity: usize) -> (ph: Pharos<WsEvent>) {
    Pharos::new(capacity)
}

/// Relies on pharos' `Observable::observe`: registers one more observer and
/// returns its event stream. The future it returns completes on the first
/// poll, since its body never suspends. `Err` covers every refusal: the
/// pharos was closed, the configuration asked for a zero-sized bounded
/// channel, or the future was not ready after all. (Pharos itself panics
/// on the non-exhaustive placeholder variant of its channel kind; nothing
/// outside pharos can construct or intercept that.)
#[verifier::external_body]
fn ph_observe(ph: &mut Pharos<WsEvent>, config: ObserveConfig<WsEvent>) -> (r: Result<
    Events<WsEvent>,
    (),
>) {
    let waker = noop_waker();
    let mut cx = Context::from_waker(&waker);
    let mut fut = ph.observe(config);
    match fut.as_mut().poll(&mut cx) {
        Poll::Ready(Ok(events)) => Ok(events),
        Poll::Ready(Err(_)) => Err(()),
        Poll::Pending => Err(()),
    }
}

/// The states the notifier can be in.
#[derive(Clone, Copy, Debug, PartialEq, Eq, Structural)]
pub enum State {
    /// Nothing to do.
    Ready,
    /// Something is in the queue.
    Pending,
    /// The pharos broadcast refused an operation and delivery has stopped.
    Closed,
    /// The broadcast reported pending on flush; flush again before sending
    /// anything else.
    Flushing,
}

/// Accepts events from the adapter and delivers them to all observers in
/// queue order, providing backpressure when a bounded observer channel is
/// full.
pub struct Notifier {
    pharos: Pharos<WsEvent>,
    events: VecDeque<WsEvent>,
    state: State,
    delivered: Ghost<Seq<WsEvent>>,
}

/// The outcome of one `run` call.
#[derive(Clone, Copy, Debug, PartialEq, Eq, Structural)]
pub enum RunOutcome {
    /// All work that could be done is done; nothing is in flight.
    Done,
    /// The broadcast is closed; events will no longer be delivered.
    Failed,
    /// An observer cannot accept more yet; run again when woken.
    Pending,
}

impl Notifier {
    /// The state the notifier is in.
    pub closed spec fn spec_state(&self) -> State {
        self.state
    }

    /// The events queued and not yet handed to the broadcast, oldest first.
    pub closed spec fn queued(&self) -> Seq<WsEvent> {
        self.events@
    }

    /// The events handed to the broadcast so far, oldest first.
    pub closed spec fn delivered(&self) -> Seq<WsEvent> {
        self.delivered@
    }

    /// Create a notifier with no queued events and no observers.
    pub fn new() -> (n: Notifier)
        ensures
            n.spec_state() == State::Ready,
            n.queued() == Seq::<WsEvent>::empty(),
            n.delivered() == Seq::<WsEvent>::empty(),
    {
        Notifier {
            // Most of the time there will not be many observers; a small
            // initial capacity keeps memory consumption down.
            pharos: ph_new(2),
            events: VecDeque::new(),
            state: State::Ready,
            delivered: Ghost(Seq::empty()),
        }
    }

    /// The state, for inspection.
    pub fn state(&self) -> (s: State)
        ensures
            s == self.spec_state(),
    {
        self.state
    }

    /// How many events are queued and not yet handed to the broadcast.
    pub fn events_len(&self) -> (n: usize)
        ensures
            n == self.queued().len(),
    {
        self.events.len()
    }

    /// Queue one event for delivery.
    ///
    /// Queueing after the broadcast closed is a programming error in the
    /// caller: the event is accepted but will never be delivered.
    pub fn queue(&mut self, evt: WsEvent)
        ensures
            final(self).queued() == old(self).queued().push(evt),
            final(self).spec_state() == State::Pending,
            final(self).delivered() == old(self).delivered(),
    {
        self.events.push_back(evt);
        self.state = State::Pending;
    }

    /// Try to hand queued events to the broadcast, in queue order.
    ///
    /// Every event leaves the queue only by being handed to the broadcast,
    /// and in order: the delivered log only grows, and log plus queue are
    /// conserved. `Pending` means an observer provides backpressure;
    /// `Failed` means the broadcast refused and delivery has stopped.
    pub fn run(&mut self, cx: &mut Context<'_>) -> (r: RunOutcome)
        ensures
            old(self).delivered() + old(self).queued() == final(self).delivered()
                + final(self).queued(),
            old(self).delivered().is_prefix_of(final(self).delivered()),
            old(self).spec_state() == State::Ready ==> r == RunOutcome::Done && *final(self)
                == *old(self),
            old(self).spec_state() == State::Closed ==> r == RunOutcome::Failed && *final(self)
                == *old(self),
            r == RunOutcome::Done ==> final(self).spec_state() == State::Ready,
            r == RunOutcome::Done && old(self).spec_state() == State::Pending
                ==> final(self).queued().len() == 0,
            r == RunOutcome::Failed ==> final(self).spec_state() == State::Closed || *final(self)
                == *old(self),
            r == RunOutcome::Pending ==> final(self).spec_state() == State::Pending
                || final(self).spec_state() == State::Flushing,
    {
        match self.state {
            State::Ready => RunOutcome::Done,
            State::Closed => RunOutcome::Failed,
            State::Pending => {
                while self.events.len() > 0
                    invariant
                        self.state == State::Pending,
                        old(self).spec_state() == State::Pending,
                        old(self).delivered() + old(self).queued() == self.delivered@
                            + self.events@,
                        old(self).delivered().is_prefix_of(self.delivered@),
                    decreases self.events@.len(),
                {
                    match ph_poll_ready(&mut self.pharos, cx) {
                        PharPoll::Pending => {
                            return RunOutcome::Pending;
                        },
                        PharPoll::Failed => {
                            self.state = State::Closed;
                            return RunOutcome::Failed;
                        },
                        PharPoll::Ready => {
                            let ghost qpre = self.events@;
                            let evt = self.events.pop_front().unwrap();
                            let ghost gev = evt;
                            let accepted = ph_start_send(&mut self.pharos, evt);
                            if !accepted {
                                self.state = State::Closed;
                                proof {
                                    assert(self.delivered@ + qpre =~= (self.delivered@.push(gev))
                                        + self.events@);
                                }
                                self.delivered = Ghost(self.delivered@.push(gev));
                                return RunOutcome::Failed;
                            }
                            proof {
                                assert(self.delivered@ + qpre =~= (self.delivered@.push(gev))
                                    + self.events@);
                            }
                            self.delivered = Ghost(self.delivered@.push(gev));
                            match ph_poll_flush(&mut self.pharos, cx) {
                                PharPoll::Pending => {
                                    self.state = State::Flushing;
                                    return RunOutcome::Pending;
                                },
                                PharPoll::Failed => {
                                    self.state = State::Closed;
                                    return RunOutcome::Failed;
                                },
                                PharPoll::Ready => {},
                            }
                        },
                    }
                }
                self.state = State::Ready;
                RunOutcome::Done
            },
            State::Flushing => {
                match ph_poll_flush(&mut self.pharos, cx) {
                    PharPoll::Pending => RunOutcome::Pending,
                    PharPoll::Failed => {
                        self.state = State::Closed;
                        RunOutcome::Failed
                    },
                    PharPoll::Ready => {
                        self.state = State::Ready;
                        RunOutcome::Done
                    },
                }
            },
        }
    }

    /// Subscribe to the events, with the channel kind and filter the
    /// configuration asks for. A refused subscription - the broadcast was
    /// closed, or the configuration asked for a zero-sized bounded channel
    /// - is reported as a `Closed` error.
    pub fn observe(&mut self, options: ObserveConfig<WsEvent>) -> (r: Result<
        Events<WsEvent>,
        Error,
    >)
        ensures
            final(self).spec_state() == old(self).spec_state(),
            final(self).queued() == old(self).queued(),
            final(self).delivered() == old(self).delivered(),
            r is Err ==> r->Err_0.kind == ErrorKind::Closed,
    {
        match ph_observe(&mut self.pharos, options) {
            Ok(events) => Ok(events),
            Err(()) => Err(Error { kind: ErrorKind::Closed }),
        }
    }
}

} // verus!
