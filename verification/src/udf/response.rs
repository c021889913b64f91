//! The kinds of response.

use crate::error::Error;
use crate::udf::{
    BeginBatch, EndBatch, ErrorResponse, InfoResponse, InitResponse, KeepaliveRequest,
    KeepaliveResponse, Point, RestoreResponse, SnapshotResponse,
};
use vstd::prelude::*;

verus! {

/// The message of a response.
#[derive(Debug, Clone, PartialEq, Eq)]
pub enum Message {
    Info(InfoResponse),
    Init(InitResponse),
    Keepalive(KeepaliveResponse),
    Snapshot(SnapshotResponse),
    Restore(RestoreResponse),
    Error(ErrorResponse),
    Begin(BeginBatch),
    Point(Point),
    End(EndBatch),
}

/// The answer to a keepalive: the time of the request, unchanged.
pub fn keepalive(request: KeepaliveRequest) -> (message: Message)
    ensures
        message == Message::Keepalive(KeepaliveResponse { time: request.time }),
{
    Message::Keepalive(KeepaliveResponse { time: request.time })
}

/// What goes back to the host for what `Handler::info` returned: the
/// information, or the failure of the session.
pub fn info(outcome: Result<InfoResponse, Error>) -> (r: Result<Option<Message>, Error>)
    ensures
        r == (match outcome {
            Ok(info) => Ok(Some(Message::Info(info))),
            Err(e) => Err(e),
        }),
{
    match outcome {
        Ok(info) => Ok(Some(Message::Info(info))),
        Err(e) => Err(e),
    }
}

/// What goes back to the host for what `Handler::init` returned. A
/// `HandlerFailure` becomes a negative response with the text of the failure
/// and the session goes on; any other error ends the session.
pub fn init(outcome: Result<InitResponse, Error>) -> (r: Result<Option<Message>, Error>)
    ensures
        r == (match outcome {
            Ok(init) => Ok(Some(Message::Init(init))),
            Err(Error::HandlerFailure(text)) => Ok(
                Some(Message::Init(InitResponse { success: false, error: text })),
            ),
            Err(e) => Err(e),
        }),
{
    match outcome {
        Ok(init) => Ok(Some(Message::Init(init))),
        Err(Error::HandlerFailure(text)) => Ok(
            Some(Message::Init(InitResponse { success: false, error: text })),
        ),
        Err(e) => Err(e),
    }
}

/// What goes back to the host for what `Handler::snapshot` returned: the
/// state, or the failure of the session.
pub fn snapshot(outcome: Result<SnapshotResponse, Error>) -> (r: Result<Option<Message>, Error>)
    ensures
        r == (match outcome {
            Ok(snapshot) => Ok(Some(Message::Snapshot(snapshot))),
            Err(e) => Err(e),
        }),
{
    match outcome {
        Ok(snapshot) => Ok(Some(Message::Snapshot(snapshot))),
        Err(e) => Err(e),
    }
}

/// What goes back to the host for what `Handler::restore` returned. A
/// `HandlerFailure` becomes a negative response with the text of the failure
/// and the session goes on; any other error ends the session.
pub fn restore(outcome: Result<RestoreResponse, Error>) -> (r: Result<Option<Message>, Error>)
    ensures
        r == (match outcome {
            Ok(restore) => Ok(Some(Message::Restore(restore))),
            Err(Error::HandlerFailure(text)) => Ok(
                Some(Message::Restore(RestoreResponse { success: false, error: text })),
            ),
            Err(e) => Err(e),
        }),
{
    match outcome {
        Ok(restore) => Ok(Some(Message::Restore(restore))),
        Err(Error::HandlerFailure(text)) => Ok(
            Some(Message::Restore(RestoreResponse { success: false, error: text })),
        ),
        Err(e) => Err(e),
    }
}

/// What goes back to the host for what `Handler::begin_batch` or
/// `Handler::end_batch` returned: nothing, or the failure of the session.
pub fn batch(outcome: Result<(), Error>) -> (r: Result<Option<Message>, Error>)
    ensures
        r == (match outcome {
            Ok(_) => Ok::<Option<Message>, Error>(None),
            Err(e) => Err::<Option<Message>, Error>(e),
        }),
{
    match outcome {
        Ok(_) => Ok(None),
        Err(e) => Err(e),
    }
}

/// What goes back to the host for what `Handler::point` returned: nothing.
/// A handler that passes on the `Backpressure` of a full queue has lost the
/// point it tried to emit, and the session goes on; any other error ends the
/// session.
pub fn point(outcome: Result<(), Error>) -> (r: Result<Option<Message>, Error>)
    ensures
        r == (match outcome {
            Ok(_) => Ok::<Option<Message>, Error>(None),
            Err(Error::Backpressure) => Ok::<Option<Message>, Error>(None),
            Err(e) => Err::<Option<Message>, Error>(e),
        }),
{
    match outcome {
        Ok(_) => Ok(None),
        Err(Error::Backpressure) => Ok(None),
        Err(e) => Err(e),
    }
}

} // verus!
