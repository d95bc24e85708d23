//! The failures that the router and the poller report.

use vstd::prelude::*;
use vstd::string::*;

verus! {

/// What went wrong, as far as callers tell failures apart.
#[derive(Clone, Copy, Debug, PartialEq, Eq, Structural)]
pub enum ErrorKind {
    /// No issue carries the token that the command was sent with.
    NotFound,
    /// The issue is already in the subscription state that was asked for.
    AlreadyInState,
    /// The tracker could not be reached or answered with a failure status.
    RemoteCallFailed,
    /// The tracker's answer lacks a field that the bot relies on.
    MalformedRemoteResponse,
    /// The notifier could not hand a mail on.
    DeliveryFailed,
    /// Any other failure; only its description is known.
    Other,
}

/// A failure: its kind and the short description that is shown to users.
#[derive(Debug)]
pub struct Error {
    pub kind: ErrorKind,
    pub message: String,
}

/// A failure as a mathematical value.
pub struct ErrorView {
    pub kind: ErrorKind,
    pub message: Seq<char>,
}

impl View for Error {
    type V = ErrorView;

    open spec fn view(&self) -> ErrorView {
        ErrorView { kind: self.kind, message: self.message@ }
    }
}

impl Error {
    /// A failure of kind `Other` described by `msg`.
    pub fn new(msg: &str) -> (e: Error)
        ensures
            e.kind == ErrorKind::Other,
            e.message@ == msg@,
    {
        Error { kind: ErrorKind::Other, message: String::from_str(msg) }
    }

    /// A failure of the given kind described by `msg`.
    pub fn with_kind(kind: ErrorKind, msg: &str) -> (e: Error)
        ensures
            e.kind == kind,
            e.message@ == msg@,
    {
        Error { kind, message: String::from_str(msg) }
    }

    /// The short description, as it appears in a reply.
    pub fn to_string(&self) -> (s: String)
        ensures
            s@ == self.message@,
    {
        self.message.clone()
    }
}

impl Clone for Error {
    fn clone(&self) -> (e: Error)
        ensures
            e == *self,
    {
        Error { kind: self.kind, message: self.message.clone() }
    }
}

} // verus!
