//! Errors the session coordinator surfaces to its callers.

use vstd::prelude::*;

verus! {

/// A field of a connection descriptor that a complete handshake populates.
#[derive(Clone, Copy, PartialEq, Eq, Structural, Debug)]
pub enum ConnectionField {
    ChannelId,
    Endpoint,
    Token,
    SessionId,
}

/// Every failure a session-affecting operation can report.
///
/// - `Timeout`: waiting on the connection descriptor exceeded its
///   event-count bound.
/// - `MissingField`: session creation was attempted with an incomplete
///   connection descriptor; the payload names a missing field.
/// - `NoSessionPresent`: a queue operation ran before `create_session`.
/// - `NetworkError`: a request to the audio backend failed. The coordinator
///   never constructs this variant itself; the runtime that performs the
///   returned commands reports transport failures with it.
#[derive(Clone, Copy, PartialEq, Eq, Structural, Debug)]
pub enum LavalinkError {
    Timeout,
    MissingField(ConnectionField),
    NoSessionPresent,
    NetworkError,
}

impl LavalinkError {
    /// A short description of the error, for embedding environments that
    /// report failures as text.
    pub fn describe(&self) -> (r: &'static str)
        ensures
            (match self {
                LavalinkError::Timeout => r@ == "timed out waiting on the connection info"@,
                LavalinkError::MissingField(_) => r@ == "a connection info field is missing"@,
                LavalinkError::NoSessionPresent => r@ == "no session is present; call create_session first"@,
                LavalinkError::NetworkError => r@ == "the request to the audio backend failed"@,
            }),
    {
        match self {
            LavalinkError::Timeout => "timed out waiting on the connection info",
            LavalinkError::MissingField(_) => "a connection info field is missing",
            LavalinkError::NoSessionPresent => "no session is present; call create_session first",
            LavalinkError::NetworkError => "the request to the audio backend failed",
        }
    }
}

} // verus!
