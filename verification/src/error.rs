//! The failures a session can meet.

use vstd::prelude::*;

verus! {

/// Why an operation of the engine failed.
///
/// `Transport` and `Codec` end the session they occur in. `Backpressure` is
/// handed back to the handler call that tried to emit a point and never ends
/// a session. `HandlerFailure` goes to the host as a negative response where
/// the response has a field for it. `Protocol` is for a handler to raise.
#[derive(Debug, Clone, PartialEq, Eq)]
pub enum Error {
    /// The byte stream failed or ended in the middle of a frame.
    Transport(String),
    /// A frame or its body is malformed.
    Codec(String),
    /// The outbound point queue is full.
    Backpressure,
    /// A handler method reported a failure.
    HandlerFailure(String),
    /// A request arrived that the handler does not support in its mode.
    Protocol(String),
}

impl Error {
    /// A short text for logs.
    pub fn description(&self) -> (text: String)
        ensures
            self is Backpressure ==> text@ == "channel is full"@,
            self matches Error::Transport(m) ==> text@ == m@,
            self matches Error::Codec(m) ==> text@ == m@,
            self matches Error::HandlerFailure(m) ==> text@ == m@,
            self matches Error::Protocol(m) ==> text@ == m@,
    {
        match self {
            Error::Backpressure => "channel is full".to_string(),
            Error::Transport(m) => m.clone(),
            Error::Codec(m) => m.clone(),
            Error::HandlerFailure(m) => m.clone(),
            Error::Protocol(m) => m.clone(),
        }
    }
}

} // verus!
