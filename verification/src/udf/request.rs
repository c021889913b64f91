//! The kinds of request.

use crate::udf::{
    BeginBatch, EndBatch, InfoRequest, InitRequest, KeepaliveRequest, Point, RestoreRequest,
    SnapshotRequest,
};
use vstd::prelude::*;

verus! {

/// The message of a request.
#[derive(Debug, Clone, PartialEq, Eq)]
pub enum Message {
    Info(InfoRequest),
    Init(InitRequest),
    Keepalive(KeepaliveRequest),
    Snapshot(SnapshotRequest),
    Restore(RestoreRequest),
    Begin(BeginBatch),
    Point(Point),
    End(EndBatch),
}

} // verus!
