//! A session engine for agents that a streaming host drives over a local
//! socket with length-prefixed messages.
//!
//! The engine decides and never waits: it frames and parses bytes, dispatches
//! requests to a `Handler`, queues the points that the handler emits, and
//! says what the owner of the socket has to do next.

use vstd::prelude::*;

pub mod agent;
pub mod buffer;
pub mod connection;
pub mod error;
pub mod shutdown;
pub mod udf;
pub mod unix;
pub mod varint;

pub use agent::{Agent, Points};
pub use error::Error;
pub use shutdown::Shutdown;

verus! {

/// Takes the points that a handler emits.
pub trait PointSender {
    /// Offers a point. It is taken, or refused at once with
    /// `Error::Backpressure`; the call never waits for room.
    fn send(&mut self, point: udf::Point) -> Result<(), Error>;
}

/// The logic that a session runs: one method for each kind of request.
///
/// The methods run to completion on the session that calls them. An error
/// from any of them ends the session.
pub trait Handler: Send {
    /// Says what the handler wants, provides and accepts.
    fn info(&self) -> Result<udf::InfoResponse, Error>;

    /// Configures the handler.
    fn init(&mut self, req: udf::InitRequest) -> Result<udf::InitResponse, Error>;

    /// Captures the handler's state.
    fn snapshot(&mut self, req: udf::SnapshotRequest) -> Result<udf::SnapshotResponse, Error>;

    /// Puts a captured state back.
    fn restore(&mut self, req: udf::RestoreRequest) -> Result<udf::RestoreResponse, Error>;

    /// Opens a batch.
    fn begin_batch(&mut self, req: udf::BeginBatch) -> Result<(), Error>;

    /// Takes one point and may emit any number of points through `sender`.
    ///
    /// The queue is lent for sending only: the points that it held are still
    /// there after the call, in front of those emitted, and its capacity is
    /// the same.
    fn point(&mut self, point: udf::Point, sender: &mut Points) -> (r: Result<(), Error>)
        requires
            old(sender).wf(),
        ensures
            final(sender).wf(),
            final(sender).capacity() == old(sender).capacity(),
            old(sender)@.is_prefix_of(final(sender)@),
    ;

    /// Closes a batch.
    fn end_batch(&mut self, req: udf::EndBatch) -> Result<(), Error>;
}

/// Builds the agent of each new session.
pub trait Acceptor {
    /// Builds the agent of a new session around the shutdown token made for
    /// it, with a handler of its own.
    fn accept(&self, shutdown: Shutdown) -> (r: Result<Agent, Error>)
        ensures
            r matches Ok(agent) ==> agent.wf(),
    ;
}

} // verus!
