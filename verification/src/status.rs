//! The outcome of a call that failed: a kind and a line of text.

use vstd::prelude::*;

verus! {

/// The kinds of failure that cross the RPC boundary or end the program.
#[derive(Debug, Clone, Copy, PartialEq, Eq, Structural)]
pub enum Code {
    /// A malformed port, or a message out of place.
    InvalidArgument,
    /// No token, or one that the server does not know.
    Unauthenticated,
    /// The server could not bind or use a socket.
    Internal,
    /// The stream ended before a required message.
    Cancelled,
    /// The transport or a tunneled socket failed.
    Io,
    /// A file on disk is missing or malformed.
    Config,
}

#[derive(Debug, Clone, PartialEq, Eq)]
pub struct Status {
    pub code: Code,
    pub message: String,
}

pub struct StatusView {
    pub code: Code,
    pub message: Seq<char>,
}

impl View for Status {
    type V = StatusView;

    open spec fn view(&self) -> StatusView {
        StatusView { code: self.code, message: self.message@ }
    }
}

impl Status {
    pub fn new(code: Code, message: String) -> (s: Status)
        ensures
            s@ == (StatusView { code, message: message@ }),
    {
        Status { code, message }
    }

    pub fn invalid_argument(message: String) -> (s: Status)
        ensures
            s@ == (StatusView { code: Code::InvalidArgument, message: message@ }),
    {
        Status { code: Code::InvalidArgument, message }
    }

    pub fn unauthenticated(message: String) -> (s: Status)
        ensures
            s@ == (StatusView { code: Code::Unauthenticated, message: message@ }),
    {
        Status { code: Code::Unauthenticated, message }
    }

    pub fn internal(message: String) -> (s: Status)
        ensures
            s@ == (StatusView { code: Code::Internal, message: message@ }),
    {
        Status { code: Code::Internal, message }
    }

    pub fn cancelled(message: String) -> (s: Status)
        ensures
            s@ == (StatusView { code: Code::Cancelled, message: message@ }),
    {
        Status { code: Code::Cancelled, message }
    }

    pub fn io(message: String) -> (s: Status)
        ensures
            s@ == (StatusView { code: Code::Io, message: message@ }),
    {
        Status { code: Code::Io, message }
    }
}

} // verus!
