//! The errors that peer operations surface to their callers.

use vstd::prelude::*;

verus! {

/// Error returned by peer operations.
///
/// Transport failures are never surfaced here directly: the I/O task tears the
/// connection down first, so dependent operations observe `ConnectionClosed`.
#[derive(Clone, PartialEq, Eq, Debug)]
pub enum RpcError {
    /// The target connection is unknown to the peer, or its queues are closed.
    ConnectionClosed,
    /// The remote peer answered a request with an error payload; carries the
    /// remote message text.
    RemoteError(String),
    /// A reply's payload did not decode into the response type expected by
    /// the request.  Fatal for that request only.
    WrongResponseType,
    /// An envelope that was expected to be forwarded traffic carried no
    /// original sender.
    MissingOriginalSenderId,
}

impl RpcError {
    /// A human-readable description of the error.
    pub fn message(&self) -> (r: String)
        ensures
            r@ == match self {
                RpcError::ConnectionClosed => "connection was closed"@,
                RpcError::RemoteError(m) => m@,
                RpcError::WrongResponseType => "received response of the wrong type"@,
                RpcError::MissingOriginalSenderId => "missing original_sender_id"@,
            },
    {
        match self {
            RpcError::ConnectionClosed => "connection was closed".to_owned(),
            RpcError::RemoteError(m) => m.clone(),
            RpcError::WrongResponseType => "received response of the wrong type".to_owned(),
            RpcError::MissingOriginalSenderId => "missing original_sender_id".to_owned(),
        }
    }
}

} // verus!
