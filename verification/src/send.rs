//! The compound send operation: readiness, queueing, then flush.
//!
//! One asynchronous send resolves only once its message is fully flushed (or
//! an error occurs). Each poll of the operation walks through up to three
//! engine steps; [`SendJob::next_action`] decides which step comes next, and
//! the three `send_on_*` functions apply the engine's report and either
//! continue the walk, suspend the poll, or settle the whole operation.

use vstd::prelude::*;

use crate::conn::ConnState;
use crate::conn::Outcome;
use crate::conn::Signal;
use crate::conn::SinkPoll;

verus! {

/// A send operation's cross-poll state: the message still waiting to be
/// queued, if any. Once the message has been handed to a write step, only
/// the final flush remains.
#[derive(Debug, PartialEq, Eq)]
pub struct SendJob<M> {
    /// The message not yet handed to the engine.
    pub msg: Option<M>,
}

/// Which engine step a send poll must run next.
#[derive(Debug, PartialEq, Eq)]
pub enum SendAction<M> {
    /// The sink is blocked: flush before the message can be queued.
    FlushFirst,
    /// Queue this message with one engine write step, no waker bound.
    Write(M),
    /// The message is queued: flush until it is fully on the wire.
    FlushLast,
}

/// How a send poll proceeds after one engine step.
#[derive(Debug, PartialEq, Eq)]
pub enum SendProgress<E> {
    /// Ask [`SendJob::next_action`] for the next step within this same poll.
    Continue,
    /// Suspend; re-poll when the write-direction waker fires.
    Suspend,
    /// The whole send resolved successfully: the message is flushed.
    Done,
    /// The whole send resolved with this error. Never [`Signal::WouldBlock`].
    Fail(Signal<E>),
}

/// Decision of the next step: a pending message is handed to a write step as
/// soon as the sink is ready; otherwise readiness must be flushed in first;
/// with no message pending only the final flush remains.
pub open spec fn spec_next_action<M>(job: SendJob<M>, st: ConnState) -> (SendJob<M>, SendAction<
    M,
>) {
    match job.msg {
        Some(m) => if st.ready {
            (SendJob { msg: None }, SendAction::Write(m))
        } else {
            (job, SendAction::FlushFirst)
        },
        None => (job, SendAction::FlushLast),
    }
}

impl<M> SendJob<M> {
    /// A send of `msg`, not yet begun.
    pub fn new(msg: M) -> (job: SendJob<M>)
        ensures
            job.msg == Some(msg),
    {
        SendJob { msg: Some(msg) }
    }

    /// Which engine step this send must run next. Hands the pending message
    /// out exactly once, to the write step that queues it.
    pub fn next_action(&mut self, st: &ConnState) -> (a: SendAction<M>)
        ensures
            (*final(self), a) == spec_next_action(*old(self), *st),
    {
        if st.ready_now() {
            match self.msg.take() {
                Some(m) => SendAction::Write(m),
                None => SendAction::FlushLast,
            }
        } else if self.msg.is_some() {
            SendAction::FlushFirst
        } else {
            SendAction::FlushLast
        }
    }
}

/// Applies the engine's report for the preparatory flush (the readiness
/// poll's flush): success lets the send go on to the write step within the
/// same poll; any error settles the send.
pub fn send_on_flush_first<E>(st: &mut ConnState, outcome: Outcome<(), E>) -> (p: SendProgress<E>)
    requires
        !old(st).ready,
    ensures
        ({
            let (st2, r) = crate::conn::spec_on_ready_flush(*old(st), outcome);
            &&& *final(st) == st2
            &&& p == (match r {
                SinkPoll::Done => SendProgress::<E>::Continue,
                SinkPoll::Pending => SendProgress::<E>::Suspend,
                SinkPoll::Failed(s) => SendProgress::<E>::Fail(s),
            })
        }),
{
    match st.on_ready_flush(outcome) {
        SinkPoll::Done => SendProgress::Continue,
        SinkPoll::Pending => SendProgress::Suspend,
        SinkPoll::Failed(s) => SendProgress::Fail(s),
    }
}

/// Applies the engine's report for the write step that queues the message:
/// acceptance (immediate or with backpressure) lets the send go on to the
/// final flush; any error settles the send.
pub fn send_on_write<E>(st: &mut ConnState, outcome: Outcome<(), E>) -> (p: SendProgress<E>)
    ensures
        ({
            let (st2, r) = crate::conn::spec_on_write(*old(st), outcome);
            &&& *final(st) == st2
            &&& p == (match r {
                Ok(_) => SendProgress::<E>::Continue,
                Err(s) => SendProgress::<E>::Fail(s),
            })
        }),
{
    match st.on_write(outcome) {
        Ok(_) => SendProgress::Continue,
        Err(s) => SendProgress::Fail(s),
    }
}

/// Applies the engine's report for the final flush: a definite outcome
/// settles the send (a closed connection counting as success), "would
/// block" suspends until the next poll.
pub fn send_on_flush_last<E>(st: &mut ConnState, outcome: Outcome<(), E>) -> (p: SendProgress<E>)
    ensures
        ({
            let (st2, r) = crate::conn::spec_on_flush(*old(st), outcome);
            &&& *final(st) == st2
            &&& p == (match r {
                SinkPoll::Done => SendProgress::<E>::Done,
                SinkPoll::Pending => SendProgress::<E>::Suspend,
                SinkPoll::Failed(s) => SendProgress::<E>::Fail(s),
            })
        }),
{
    match st.on_flush(outcome) {
        SinkPoll::Done => SendProgress::Done,
        SinkPoll::Pending => SendProgress::Suspend,
        SinkPoll::Failed(s) => SendProgress::Fail(s),
    }
}

/// When every engine step completes, a send walks its three steps in order,
/// hands the message to exactly one write, and resolves with the connection
/// flushed and ready; a blocked sink is first flushed back to readiness by
/// one successful preparatory flush.
pub proof fn lemma_send_completes_when_engine_cooperates<M, E>(st0: ConnState, m: M)
    ensures
        !st0.ready ==> ({
            let (j1, a1) = spec_next_action(SendJob { msg: Some(m) }, st0);
            a1 is FlushFirst && j1.msg == Some(m) && crate::conn::spec_on_ready_flush::<E>(
                st0,
                Ok(()),
            ).0.ready
        }),
        st0.ready ==> ({
            let (j1, a1) = spec_next_action(SendJob { msg: Some(m) }, st0);
            a1 == SendAction::Write(m) && j1.msg is None
        }),
        ({
            let st1 = crate::conn::spec_on_write::<E>(st0, Ok(())).0;
            let (j2, a2) = spec_next_action(SendJob { msg: None::<M> }, st1);
            &&& crate::conn::spec_on_write::<E>(st0, Ok(())).1 is Ok
            &&& a2 is FlushLast
            &&& crate::conn::spec_on_flush::<E>(st1, Ok(())).1 is Done
            &&& crate::conn::spec_on_flush::<E>(st1, Ok(())).0.ready
        }),
{
}

} // verus!
