//! The kinds of failure that the protocol engine tells apart.

use vstd::prelude::*;

verus! {

/// What went wrong, from the point of view of a caller of the engine.
#[derive(Clone, Copy, Debug, PartialEq, Eq, Structural)]
pub enum ErrorKind {
    /// The transport failed to send or to receive.
    Transport,
    /// No response arrived before the deadline of a request.
    Timeout,
    /// The transport ended; nothing can be issued or resolved any more.
    ConnectionClosed,
    /// An inbound message was malformed.
    ProtocolError,
    /// An inbound request named a method that has no handler.
    MethodNotFound,
    /// A registered handler failed.
    HandlerFailure,
}

impl ErrorKind {
    /// A few words that say what went wrong.
    pub open spec fn text(self) -> Seq<char> {
        match self {
            ErrorKind::Transport => "transport failure"@,
            ErrorKind::Timeout => "request timed out"@,
            ErrorKind::ConnectionClosed => "connection closed"@,
            ErrorKind::ProtocolError => "malformed message"@,
            ErrorKind::MethodNotFound => "method not found"@,
            ErrorKind::HandlerFailure => "handler failed"@,
        }
    }

    /// A few words that say what went wrong.
    pub fn describe(&self) -> (text: &'static str)
        ensures
            text@ == self.text(),
    {
        match self {
            ErrorKind::Transport => "transport failure",
            ErrorKind::Timeout => "request timed out",
            ErrorKind::ConnectionClosed => "connection closed",
            ErrorKind::ProtocolError => "malformed message",
            ErrorKind::MethodNotFound => "method not found",
            ErrorKind::HandlerFailure => "handler failed",
        }
    }
}

} // verus!
