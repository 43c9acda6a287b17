//! The per-call status a failing call terminates with: a kind out of the
//! error taxonomy of the service, and a human-readable message.

use vstd::prelude::*;

verus! {

/// The error taxonomy of a call.
#[derive(Debug, Clone, Copy, PartialEq, Eq, Structural)]
pub enum StatusKind {
    /// First chunk not a `Command`, or the resolved executable path is
    /// relative.
    InvalidArgument,
    /// Executable not on the search path, or the working directory cannot be
    /// defaulted.
    NotFound,
    /// Child spawn failed.
    Unknown,
    /// A stdin write or a child wait failed.
    Internal,
}

/// A terminal call status: kind plus message.
#[derive(Debug, Clone)]
pub struct Status {
    pub kind: StatusKind,
    pub message: String,
}

impl Status {
    pub fn invalid_argument(message: String) -> (r: Status)
        ensures
            r.kind == StatusKind::InvalidArgument,
            r.message == message,
    {
        Status { kind: StatusKind::InvalidArgument, message }
    }

    pub fn not_found(message: String) -> (r: Status)
        ensures
            r.kind == StatusKind::NotFound,
            r.message == message,
    {
        Status { kind: StatusKind::NotFound, message }
    }

    pub fn unknown(message: String) -> (r: Status)
        ensures
            r.kind == StatusKind::Unknown,
            r.message == message,
    {
        Status { kind: StatusKind::Unknown, message }
    }

    pub fn internal(message: String) -> (r: Status)
        ensures
            r.kind == StatusKind::Internal,
            r.message == message,
    {
        Status { kind: StatusKind::Internal, message }
    }
}

} // verus!
