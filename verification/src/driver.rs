//! The driver for blocking-capable one-shot operations.
//!
//! A handshake (or the adoption of an already-open transport) is a resumable
//! operation that either completes, fails terminally, or reports that it
//! needs more I/O and hands back a continuation. The driver turns this into
//! an asynchronous computation: each poll makes one attempt, and the
//! decision functions here say whether that poll resolves, rejects, or
//! suspends until the bound waker fires. At resolution every error is
//! normalized so the caller receives either the operation's own failure or
//! an I/O-shaped fault.

use vstd::prelude::*;

verus! {

/// How one attempt of a resumable operation ended: interrupted with the
/// continuation to resume from, or failed terminally.
#[derive(Debug, PartialEq, Eq)]
pub enum HandshakeError<C, E> {
    /// More I/O is needed; resume from this continuation on the next poll.
    Interrupted(C),
    /// The operation itself failed.
    Failure(E),
}

/// What one poll of the driven computation does.
#[derive(Debug, PartialEq, Eq)]
pub enum DriveStep<T, C, E> {
    /// Resolve with the operation's success value.
    Resolve(T),
    /// Reject with the operation's own failure.
    Reject(E),
    /// Suspend, keeping this continuation for the next poll.
    Suspend(C),
}

/// The caller-facing error of a driven operation: the operation's failure
/// surfaced verbatim, or an I/O-shaped fault for a would-block condition
/// that reached resolution instead of being retried.
#[derive(Debug, PartialEq, Eq)]
pub enum DriverFault<E> {
    /// The operation's own failure reason.
    Failure(E),
    /// A generic I/O fault: the operation was still waiting for I/O when it
    /// was forced to resolve.
    StalledIo,
}

/// Decision of one poll: completion resolves, a terminal failure rejects,
/// an interruption suspends with the continuation.
pub open spec fn spec_drive_step<T, C, E>(attempt: Result<T, HandshakeError<C, E>>) -> DriveStep<
    T,
    C,
    E,
> {
    match attempt {
        Ok(t) => DriveStep::Resolve(t),
        Err(HandshakeError::Interrupted(c)) => DriveStep::Suspend(c),
        Err(HandshakeError::Failure(e)) => DriveStep::Reject(e),
    }
}

/// Decides what one poll does from the result of one attempt.
pub fn drive_step<T, C, E>(attempt: Result<T, HandshakeError<C, E>>) -> (s: DriveStep<T, C, E>)
    ensures
        s == spec_drive_step(attempt),
{
    match attempt {
        Ok(t) => DriveStep::Resolve(t),
        Err(HandshakeError::Interrupted(c)) => DriveStep::Suspend(c),
        Err(HandshakeError::Failure(e)) => DriveStep::Reject(e),
    }
}

/// Normalizes the error a driven operation resolved with: the operation's
/// own failure is surfaced verbatim, and an interruption that unexpectedly
/// reached resolution becomes a generic I/O fault rather than being retried
/// indefinitely.
pub fn normalize_handshake_error<C, E>(e: HandshakeError<C, E>) -> (f: DriverFault<E>)
    ensures
        e matches HandshakeError::Failure(x) ==> f == DriverFault::Failure(x),
        e is Interrupted ==> f is StalledIo,
{
    match e {
        HandshakeError::Failure(x) => DriverFault::Failure(x),
        HandshakeError::Interrupted(_) => DriverFault::StalledIo,
    }
}

} // verus!
