//! The units of the wire protocol, with their payloads kept as text.

use vstd::prelude::*;
use vstd::string::*;

verus! {

/// What a response frame carries.
#[derive(Debug, PartialEq, Eq)]
pub enum Reply {
    /// The result payload of a call that succeeded.
    Result(String),
    /// The error payload of a call that the engine refused.
    Error(String),
    /// The frame named a request but held neither exactly a result nor
    /// exactly an error.
    Malformed,
}

/// One self-contained message of the protocol.
#[derive(Debug, PartialEq, Eq)]
pub enum Frame {
    /// A call that expects exactly one response with the same identifier.
    Request { id: u64, method: String, params: String },
    /// The answer to the request with this identifier.
    Response { id: u64, reply: Reply },
    /// A one-way message.
    Notification { method: String, params: String },
}

/// Why a call brought no result.
#[derive(Debug, PartialEq, Eq)]
pub enum CallError {
    /// The engine answered with an error payload.
    Refused(String),
    /// The engine answered with a frame that could not be read as an answer.
    InvalidResponse,
    /// The frame could not be written to the engine.
    WriteFailed,
    /// The connection ended before an answer came.
    ConnectionClosed,
}

impl Reply {
    /// What the caller sees when this reply is delivered to it.
    pub open spec fn outcome(self) -> Result<String, CallError> {
        match self {
            Reply::Result(payload) => Ok(payload),
            Reply::Error(payload) => Err(CallError::Refused(payload)),
            Reply::Malformed => Err(CallError::InvalidResponse),
        }
    }

    /// Turns a delivered reply into what the caller sees.
    pub fn into_outcome(self) -> (outcome: Result<String, CallError>)
        ensures
            outcome == self.outcome(),
    {
        match self {
            Reply::Result(payload) => Ok(payload),
            Reply::Error(payload) => Err(CallError::Refused(payload)),
            Reply::Malformed => Err(CallError::InvalidResponse),
        }
    }
}

impl CallError {
    /// Whether the error says that the transport itself is gone, so that no
    /// later call can succeed.
    pub open spec fn transport_lost(self) -> bool {
        self is WriteFailed || self is ConnectionClosed
    }

    /// Whether the transport itself is gone.
    pub fn is_transport_lost(&self) -> (lost: bool)
        ensures
            lost == self.transport_lost(),
    {
        match self {
            CallError::WriteFailed => true,
            CallError::ConnectionClosed => true,
            _ => false,
        }
    }

    /// The error in words.
    pub open spec fn phrase(self) -> Seq<char> {
        match self {
            CallError::Refused(payload) => "the engine refused the call: "@ + payload@,
            CallError::InvalidResponse => "the engine sent an invalid response"@,
            CallError::WriteFailed => "the call could not be written to the engine"@,
            CallError::ConnectionClosed => "the connection to the engine is closed"@,
        }
    }

    /// The error in words.
    pub fn to_text(&self) -> (text: String)
        ensures
            text@ == self.phrase(),
    {
        match self {
            CallError::Refused(payload) => {
                "the engine refused the call: ".to_owned().concat(payload.as_str())
            },
            CallError::InvalidResponse => "the engine sent an invalid response".to_owned(),
            CallError::WriteFailed => "the call could not be written to the engine".to_owned(),
            CallError::ConnectionClosed => "the connection to the engine is closed".to_owned(),
        }
    }
}

/// The reply that a response with these members carries: exactly one of a
/// result and an error is well formed.
pub open spec fn reply_of(result: Option<String>, error: Option<String>) -> Reply {
    match (result, error) {
        (Some(payload), None) => Reply::Result(payload),
        (None, Some(payload)) => Reply::Error(payload),
        _ => Reply::Malformed,
    }
}

/// The frame that a message with these members is: one with an identifier
/// and no method is a response, one with both a request, one with a
/// method alone a notification, and one with neither is no frame.
pub open spec fn frame_of(
    id: Option<u64>,
    method: Option<String>,
    params: String,
    result: Option<String>,
    error: Option<String>,
) -> Option<Frame> {
    match (id, method) {
        (Some(id), None) => Some(Frame::Response { id, reply: reply_of(result, error) }),
        (Some(id), Some(method)) => Some(Frame::Request { id, method, params }),
        (None, Some(method)) => Some(Frame::Notification { method, params }),
        (None, None) => None,
    }
}

impl Frame {
    /// Tells what kind of frame a decoded message is, from the members
    /// that it has.
    pub fn from_members(
        id: Option<u64>,
        method: Option<String>,
        params: String,
        result: Option<String>,
        error: Option<String>,
    ) -> (frame: Option<Frame>)
        ensures
            frame == frame_of(id, method, params, result, error),
    {
        match (id, method) {
            (Some(id), None) => {
                let reply = match (result, error) {
                    (Some(payload), None) => Reply::Result(payload),
                    (None, Some(payload)) => Reply::Error(payload),
                    _ => Reply::Malformed,
                };
                Some(Frame::Response { id, reply })
            },
            (Some(id), Some(method)) => Some(Frame::Request { id, method, params }),
            (None, Some(method)) => Some(Frame::Notification { method, params }),
            (None, None) => None,
        }
    }


    /// The identifier that the frame carries, if it has one.
    pub open spec fn spec_id(&self) -> Option<u64> {
        match *self {
            Frame::Request { id, .. } => Some(id),
            Frame::Response { id, .. } => Some(id),
            Frame::Notification { .. } => None,
        }
    }

    /// The identifier that the frame carries, if it has one.
    #[verifier::when_used_as_spec(spec_id)]
    pub fn id(&self) -> (id: Option<u64>)
        ensures
            id == self.spec_id(),
    {
        match self {
            Frame::Request { id, .. } => Some(*id),
            Frame::Response { id, .. } => Some(*id),
            Frame::Notification { .. } => None,
        }
    }
}

} // verus!
