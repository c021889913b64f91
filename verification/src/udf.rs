//! The messages of the session protocol.
//!
//! A `Request` comes from the host, a `Response` goes back to it. Each holds
//! at most one message; a request without one asks for nothing. How a message
//! is laid out in the body of a frame is not decided here.

use std::collections::HashMap;
use vstd::prelude::*;

pub mod request;
pub mod response;

verus! {

/// Whether an edge carries single points or batches of them.
#[derive(Debug, Clone, Copy, PartialEq, Eq, Hash)]
pub enum EdgeType {
    Stream,
    Batch,
}

/// The type of one value of an option.
#[derive(Debug, Clone, Copy, PartialEq, Eq, Hash)]
pub enum ValueType {
    Bool,
    Int,
    Double,
    Text,
    Duration,
}

/// Asks what the handler wants, provides and accepts.
#[derive(Debug, Clone, PartialEq, Eq)]
pub struct InfoRequest {}

/// The value types that an option expects, in order.
#[derive(Debug, Clone, PartialEq, Eq)]
pub struct OptionInfo {
    pub value_types: Vec<ValueType>,
}

/// What the handler wants, provides and accepts.
#[derive(Debug, Clone, PartialEq, Eq)]
pub struct InfoResponse {
    pub wants: EdgeType,
    pub provides: EdgeType,
    /// The options accepted, by name.
    pub options: HashMap<String, OptionInfo>,
}

/// One value of an option. A double is held as its IEEE 754 bit pattern.
#[derive(Debug, Clone, PartialEq, Eq)]
pub enum OptionValue {
    Bool(bool),
    Int(i64),
    Double(u64),
    Text(String),
    Duration(i64),
}

/// A named option with its values, in order.
#[derive(Debug, Clone, PartialEq, Eq)]
pub struct InitOption {
    pub name: String,
    pub values: Vec<OptionValue>,
}

/// Configures the handler.
#[derive(Debug, Clone, PartialEq, Eq)]
pub struct InitRequest {
    pub options: Vec<InitOption>,
    pub task_id: String,
    pub node_id: String,
}

/// Whether the handler took the configuration.
#[derive(Debug, Clone, PartialEq, Eq)]
pub struct InitResponse {
    pub success: bool,
    pub error: String,
}

/// Asks for the handler's state.
#[derive(Debug, Clone, PartialEq, Eq)]
pub struct SnapshotRequest {}

/// The handler's state, opaque to the engine.
#[derive(Debug, Clone, PartialEq, Eq)]
pub struct SnapshotResponse {
    pub snapshot: Vec<u8>,
}

/// Hands a state captured earlier back to the handler.
#[derive(Debug, Clone, PartialEq, Eq)]
pub struct RestoreRequest {
    pub snapshot: Vec<u8>,
}

/// Whether the handler took the state.
#[derive(Debug, Clone, PartialEq, Eq)]
pub struct RestoreResponse {
    pub success: bool,
    pub error: String,
}

/// Asks for a sign of life. `time` is in nanoseconds since the epoch.
#[derive(Debug, Clone, Copy, PartialEq, Eq)]
pub struct KeepaliveRequest {
    pub time: i64,
}

/// The sign of life, with the time of the request that asked for it.
#[derive(Debug, Clone, Copy, PartialEq, Eq)]
pub struct KeepaliveResponse {
    pub time: i64,
}

/// Tells the host that the agent has failed.
#[derive(Debug, Clone, PartialEq, Eq)]
pub struct ErrorResponse {
    pub error: String,
}

/// Opens a batch.
#[derive(Debug, Clone, PartialEq, Eq)]
pub struct BeginBatch {
    pub name: String,
    pub group: String,
    pub tags: HashMap<String, String>,
    pub size: i64,
    pub by_name: bool,
}

/// One data point. Double fields are held as IEEE 754 bit patterns.
#[derive(Debug, Clone, PartialEq, Eq)]
pub struct Point {
    pub time: i64,
    pub name: String,
    pub database: String,
    pub retention_policy: String,
    pub group: String,
    pub dimensions: Vec<String>,
    pub tags: HashMap<String, String>,
    pub fields_double: HashMap<String, u64>,
    pub fields_int: HashMap<String, i64>,
    pub fields_string: HashMap<String, String>,
    pub fields_bool: HashMap<String, bool>,
    pub by_name: bool,
}

/// Closes a batch.
#[derive(Debug, Clone, PartialEq, Eq)]
pub struct EndBatch {
    pub name: String,
    pub group: String,
    pub tmax: i64,
    pub tags: HashMap<String, String>,
    pub by_name: bool,
}

/// What the host sends.
#[derive(Debug, Clone, PartialEq, Eq)]
pub struct Request {
    pub message: Option<request::Message>,
}

/// What the agent sends.
#[derive(Debug, Clone, PartialEq, Eq)]
pub struct Response {
    pub message: Option<response::Message>,
}

} // verus!
