//! Verified core of an asynchronous adaptation layer for a synchronous,
//! message-oriented protocol engine.
//!
//! The engine itself (framing, masking, handshake construction) is an external
//! collaborator: it reads and writes whole messages over a blocking-style byte
//! stream and reports success, a "would block" condition, or a terminal error.
//! This crate holds the verified decision logic that turns those reports into
//! a non-blocking duplex stream/sink state machine: readiness and termination
//! bookkeeping, the per-poll transitions of the inbound sequence and of the
//! outbound channel, the compound send operation, the retry driver for
//! blocking-capable one-shot operations such as handshakes, and the small
//! helpers that extract a host and port from request data.
//!
//! The unverifiable surroundings (waker plumbing, futures traits, locks) drive
//! these functions and perform the engine calls they ask for.

pub mod conn;
pub mod driver;
pub mod host;
pub mod send;

pub use conn::CloseOp;
pub use conn::ConnState;
pub use conn::NextPoll;
pub use conn::Outcome;
pub use conn::Signal;
pub use conn::SinkPoll;
pub use driver::DriveStep;
pub use driver::DriverFault;
pub use driver::HandshakeError;
pub use host::UrlFault;
pub use send::SendAction;
pub use send::SendJob;
pub use send::SendProgress;
