//! Errors of input and output.

use vstd::prelude::*;

verus! {

/// The kinds of errors that are told apart.
#[derive(Clone, Copy, Debug, PartialEq, Eq, Structural)]
pub enum ErrorKind {
    /// Nothing can be done right now.
    WouldBlock,
    /// The other side closed before everything was read.
    UnexpectedEof,
    /// A write took nothing.
    WriteZero,
    /// Anything else.
    Other,
}

/// An error of input or output.
#[derive(Debug)]
pub struct IoError {
    pub kind: ErrorKind,
    pub message: String,
}

impl IoError {
    /// Whether this is an error of this kind with this message.
    pub open spec fn says(&self, kind: ErrorKind, message: Seq<char>) -> bool {
        self.kind == kind && self.message@ == message
    }

    /// An error of the given kind.
    pub fn new(kind: ErrorKind, message: &str) -> (e: IoError)
        ensures
            e.says(kind, message@),
    {
        IoError { kind, message: message.to_string() }
    }

    /// An error of no particular kind.
    pub fn other(message: &str) -> (e: IoError)
        ensures
            e.says(ErrorKind::Other, message@),
    {
        IoError::new(ErrorKind::Other, message)
    }
}

/// An error says exactly its kind and its message.
pub proof fn law_errors_say_what_they_are(error: IoError, kind: ErrorKind, message: Seq<char>)
    ensures
        error.says(kind, message) <==> error.kind == kind && error.message@ == message,
{
}

} // verus!
