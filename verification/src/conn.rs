//! The duplex stream/sink state machine of an adapted connection.
//!
//! A connection owns a synchronous protocol engine; every engine step either
//! completes or reports a [`Signal`]. The functions here are the per-poll
//! transitions of the adaptation layer: they take the engine's report and
//! update the readiness/termination bookkeeping, returning what the poll must
//! yield. The caller performs the engine calls and the task wake-up plumbing.

use vstd::prelude::*;

verus! {

/// What a protocol engine step reports when it does not complete.
#[derive(Debug, PartialEq, Eq)]
pub enum Signal<E> {
    /// The step cannot make progress without more I/O right now; not an
    /// error, always converted into suspension or queueing bookkeeping.
    WouldBlock,
    /// The connection was closed cleanly.
    ConnectionClosed,
    /// The connection had already been closed earlier.
    AlreadyClosed,
    /// A genuine failure, carried through unchanged.
    Failed(E),
}

/// The report of one engine step: completion with a value, or a [`Signal`].
pub type Outcome<T, E> = Result<T, Signal<E>>;

/// Readiness and termination bookkeeping of an adapted connection.
#[derive(Debug, Clone, Copy, PartialEq, Eq, Structural)]
pub struct ConnState {
    /// The engine is believed able to accept a further queued message without
    /// blocking: false once a write reported "would block", true again after
    /// a flush resolves.
    pub ready: bool,
    /// The inbound sequence has produced its terminal signal; once set it
    /// never clears, and the sequence reports end-of-sequence forever.
    pub ended: bool,
    /// A close frame has been queued and closing has entered its
    /// flush-to-completion phase.
    pub closing: bool,
}

/// What one inbound poll yields.
#[derive(Debug, PartialEq, Eq)]
pub enum NextPoll<M, E> {
    /// Suspend; the read-direction waker will fire when progress is possible.
    Pending,
    /// The next inbound message.
    Item(M),
    /// End of the sequence (a normal termination, not an error).
    Finished,
    /// The terminal error, emitted as the final item.
    Failed(E),
}

/// What one outbound (readiness, flush or close) poll yields.
#[derive(Debug, PartialEq, Eq)]
pub enum SinkPoll<E> {
    /// Suspend; the write-direction waker will fire when progress is possible.
    Pending,
    /// The operation resolved successfully.
    Done,
    /// The operation resolved with this error. Never [`Signal::WouldBlock`]:
    /// that signal is always turned into `Pending` instead.
    Failed(Signal<E>),
}

/// Which engine step a close poll must run.
#[derive(Debug, Clone, Copy, PartialEq, Eq, Structural)]
pub enum CloseOp {
    /// Instruct the engine to send a close frame (first phase).
    EmitClose,
    /// Flush until the close handshake is fully drained (second phase).
    DrainClose,
}

/// Transition of an inbound poll, given the engine's read report.
pub open spec fn spec_on_read<M, E>(st: ConnState, outcome: Outcome<M, E>) -> (ConnState, NextPoll<
    M,
    E,
>) {
    match outcome {
        Ok(m) => (st, NextPoll::Item(m)),
        Err(Signal::WouldBlock) => (st, NextPoll::Pending),
        Err(Signal::ConnectionClosed) => (ConnState { ended: true, ..st }, NextPoll::Finished),
        Err(Signal::AlreadyClosed) => (ConnState { ended: true, ..st }, NextPoll::Finished),
        Err(Signal::Failed(e)) => (ConnState { ended: true, ..st }, NextPoll::Failed(e)),
    }
}

impl ConnState {
    /// A freshly adapted connection: ready to send, not ended, not closing.
    pub fn new() -> (st: ConnState)
        ensures
            st == (ConnState { ready: true, ended: false, closing: false }),
    {
        ConnState { ready: true, ended: false, closing: false }
    }

    /// The inbound sequence has terminated; polling it must yield
    /// end-of-sequence without consulting the engine.
    pub fn is_terminated(&self) -> (r: bool)
        ensures
            r == self.ended,
    {
        self.ended
    }

    /// Applies the engine's read report to one inbound poll.
    ///
    /// A message is emitted unchanged; "would block" suspends; a closed
    /// connection ends the sequence normally; any other error ends the
    /// sequence and is emitted as its final item.
    pub fn on_read<M, E>(&mut self, outcome: Outcome<M, E>) -> (r: NextPoll<M, E>)
        requires
            !old(self).ended,
        ensures
            (*final(self), r) == spec_on_read(*old(self), outcome),
    {
        match outcome {
            Ok(m) => NextPoll::Item(m),
            Err(Signal::WouldBlock) => NextPoll::Pending,
            Err(Signal::ConnectionClosed) => {
                self.ended = true;
                NextPoll::Finished
            },
            Err(Signal::AlreadyClosed) => {
                self.ended = true;
                NextPoll::Finished
            },
            Err(Signal::Failed(e)) => {
                self.ended = true;
                NextPoll::Failed(e)
            },
        }
    }
}

/// Transition of a readiness poll's flush attempt, made only while the sink
/// is not ready: success restores readiness, "would block" suspends, and any
/// other signal propagates and leaves readiness unset.
pub open spec fn spec_on_ready_flush<E>(st: ConnState, outcome: Outcome<(), E>) -> (ConnState,
SinkPoll<E>) {
    match outcome {
        Ok(_) => (ConnState { ready: true, ..st }, SinkPoll::Done),
        Err(Signal::WouldBlock) => (st, SinkPoll::Pending),
        Err(Signal::ConnectionClosed) => (st, SinkPoll::Failed(Signal::ConnectionClosed)),
        Err(Signal::AlreadyClosed) => (st, SinkPoll::Failed(Signal::AlreadyClosed)),
        Err(Signal::Failed(e)) => (st, SinkPoll::Failed(Signal::Failed(e))),
    }
}

/// Transition of queueing one message, given the engine's write report.
/// "Would block" means the engine accepted and queued the message but needs a
/// flush before the next one: not an error, but readiness is cleared.
pub open spec fn spec_on_write<E>(st: ConnState, outcome: Outcome<(), E>) -> (ConnState, Result<
    (),
    Signal<E>,
>) {
    match outcome {
        Ok(_) => (ConnState { ready: true, ..st }, Ok(())),
        Err(Signal::WouldBlock) => (ConnState { ready: false, ..st }, Ok(())),
        Err(Signal::ConnectionClosed) => (
            ConnState { ready: true, ..st },
            Err(Signal::ConnectionClosed),
        ),
        Err(Signal::AlreadyClosed) => (ConnState { ready: true, ..st }, Err(Signal::AlreadyClosed)),
        Err(Signal::Failed(e)) => (ConnState { ready: true, ..st }, Err(Signal::Failed(e))),
    }
}

/// Transition of a flush poll: any definite outcome restores readiness, a
/// closed connection counts as a successful flush, and "would block"
/// suspends with the state unchanged.
pub open spec fn spec_on_flush<E>(st: ConnState, outcome: Outcome<(), E>) -> (ConnState, SinkPoll<
    E,
>) {
    match outcome {
        Ok(_) => (ConnState { ready: true, ..st }, SinkPoll::Done),
        Err(Signal::WouldBlock) => (st, SinkPoll::Pending),
        Err(Signal::ConnectionClosed) => (ConnState { ready: true, ..st }, SinkPoll::Done),
        Err(Signal::AlreadyClosed) => (ConnState { ready: true, ..st }, SinkPoll::Done),
        Err(Signal::Failed(e)) => (ConnState { ready: true, ..st }, SinkPoll::Failed(
            Signal::Failed(e),
        )),
    }
}

/// Start of a close poll: closing supersedes ordinary send readiness, and the
/// phase decides whether a close frame must still be emitted or the close
/// handshake only needs draining.
pub open spec fn spec_begin_close(st: ConnState) -> (ConnState, CloseOp) {
    (
        ConnState { ready: true, ..st },
        if st.closing {
            CloseOp::DrainClose
        } else {
            CloseOp::EmitClose
        },
    )
}

/// Transition of a close poll, given the engine's report for either phase: a
/// closed connection counts as success, "would block" enters (or stays in)
/// the draining phase and suspends, and any other error ends the attempt.
pub open spec fn spec_on_close<E>(st: ConnState, outcome: Outcome<(), E>) -> (ConnState, SinkPoll<
    E,
>) {
    match outcome {
        Ok(_) => (st, SinkPoll::Done),
        Err(Signal::WouldBlock) => (ConnState { closing: true, ..st }, SinkPoll::Pending),
        Err(Signal::ConnectionClosed) => (st, SinkPoll::Done),
        Err(Signal::AlreadyClosed) => (st, SinkPoll::Done),
        Err(Signal::Failed(e)) => (st, SinkPoll::Failed(Signal::Failed(e))),
    }
}

impl ConnState {
    /// The sink can accept a message right now, with no engine interaction.
    pub fn ready_now(&self) -> (r: bool)
        ensures
            r == self.ready,
    {
        self.ready
    }

    /// Applies the engine's flush report to a readiness poll. Called only
    /// when the sink is not ready, to flush the blockage away.
    pub fn on_ready_flush<E>(&mut self, outcome: Outcome<(), E>) -> (r: SinkPoll<E>)
        requires
            !old(self).ready,
        ensures
            (*final(self), r) == spec_on_ready_flush(*old(self), outcome),
    {
        match outcome {
            Ok(_) => {
                self.ready = true;
                SinkPoll::Done
            },
            Err(Signal::WouldBlock) => SinkPoll::Pending,
            Err(s) => SinkPoll::Failed(s),
        }
    }

    /// Applies the engine's write report to queueing one message.
    pub fn on_write<E>(&mut self, outcome: Outcome<(), E>) -> (r: Result<(), Signal<E>>)
        ensures
            (*final(self), r) == spec_on_write(*old(self), outcome),
    {
        match outcome {
            Ok(_) => {
                self.ready = true;
                Ok(())
            },
            Err(Signal::WouldBlock) => {
                self.ready = false;
                Ok(())
            },
            Err(s) => {
                self.ready = true;
                Err(s)
            },
        }
    }

    /// Applies the engine's flush report to a flush poll.
    pub fn on_flush<E>(&mut self, outcome: Outcome<(), E>) -> (r: SinkPoll<E>)
        ensures
            (*final(self), r) == spec_on_flush(*old(self), outcome),
    {
        match outcome {
            Ok(_) => {
                self.ready = true;
                SinkPoll::Done
            },
            Err(Signal::WouldBlock) => SinkPoll::Pending,
            Err(Signal::ConnectionClosed) => {
                self.ready = true;
                SinkPoll::Done
            },
            Err(Signal::AlreadyClosed) => {
                self.ready = true;
                SinkPoll::Done
            },
            Err(Signal::Failed(e)) => {
                self.ready = true;
                SinkPoll::Failed(Signal::Failed(e))
            },
        }
    }

    /// Starts one close poll and says which engine step to run.
    pub fn begin_close(&mut self) -> (op: CloseOp)
        ensures
            (*final(self), op) == spec_begin_close(*old(self)),
    {
        self.ready = true;
        if self.closing {
            CloseOp::DrainClose
        } else {
            CloseOp::EmitClose
        }
    }

    /// Applies the engine's report (of either close phase) to a close poll.
    pub fn on_close<E>(&mut self, outcome: Outcome<(), E>) -> (r: SinkPoll<E>)
        ensures
            (*final(self), r) == spec_on_close(*old(self), outcome),
    {
        match outcome {
            Ok(_) => SinkPoll::Done,
            Err(Signal::WouldBlock) => {
                self.closing = true;
                SinkPoll::Pending
            },
            Err(Signal::ConnectionClosed) => SinkPoll::Done,
            Err(Signal::AlreadyClosed) => SinkPoll::Done,
            Err(Signal::Failed(e)) => SinkPoll::Failed(Signal::Failed(e)),
        }
    }
}

/// Once the inbound sequence reports end-of-sequence or its terminal error,
/// the connection is marked ended, and an ended connection stays ended: the
/// sequence is fused.
pub proof fn lemma_stream_fused<M, E>(st: ConnState, outcome: Outcome<M, E>)
    ensures
        ({
            let (st2, r) = spec_on_read(st, outcome);
            &&& (r is Finished || r is Failed) ==> st2.ended
            &&& st.ended ==> st2.ended
        }),
{
}

/// No outbound operation disturbs the inbound sequence's termination flag:
/// send-side activity and close driving neither end the sequence nor revive
/// an ended one.
pub proof fn lemma_sink_preserves_termination<E>(st: ConnState, outcome: Outcome<(), E>)
    ensures
        spec_on_ready_flush(st, outcome).0.ended == st.ended,
        spec_on_write(st, outcome).0.ended == st.ended,
        spec_on_flush(st, outcome).0.ended == st.ended,
        spec_begin_close(st).0.ended == st.ended,
        spec_on_close(st, outcome).0.ended == st.ended,
{
}

/// A write that the engine answers with backpressure is accepted without
/// error but clears readiness, and a subsequent readiness poll restores
/// readiness exactly when its flush resolves successfully: no further send
/// can slip through before that.
pub proof fn lemma_backpressure_blocks_until_flush<E>(st: ConnState, outcome: Outcome<(), E>)
    ensures
        spec_on_write::<E>(st, Err(Signal::WouldBlock)).1 is Ok,
        !spec_on_write::<E>(st, Err(Signal::WouldBlock)).0.ready,
        !st.ready ==> (spec_on_ready_flush(st, outcome).0.ready <==> spec_on_ready_flush(
            st,
            outcome,
        ).1 is Done),
{
}

/// A would-block condition is never a user-visible error: every outbound
/// poll turns it into suspension (or, for a write, into queued-not-flushed
/// bookkeeping), so no resolved operation ever carries it.
pub proof fn lemma_would_block_never_escapes<E>(st: ConnState, outcome: Outcome<(), E>)
    ensures
        !(spec_on_ready_flush(st, outcome).1 matches SinkPoll::Failed(s) && s is WouldBlock),
        !(spec_on_write(st, outcome).1 matches Err(s) && s is WouldBlock),
        !(spec_on_flush(st, outcome).1 matches SinkPoll::Failed(s) && s is WouldBlock),
        !(spec_on_close(st, outcome).1 matches SinkPoll::Failed(s) && s is WouldBlock),
{
}

/// Flushing or closing a connection that the engine reports as closed
/// (cleanly closed or already closed) always resolves as success, never as
/// an error.
pub proof fn lemma_closed_flush_and_close_succeed<E>(st: ConnState)
    ensures
        spec_on_flush::<E>(st, Err(Signal::ConnectionClosed)).1 is Done,
        spec_on_flush::<E>(st, Err(Signal::AlreadyClosed)).1 is Done,
        spec_on_close::<E>(st, Err(Signal::ConnectionClosed)).1 is Done,
        spec_on_close::<E>(st, Err(Signal::AlreadyClosed)).1 is Done,
{
}

} // verus!
