//! Failures of parsing.

use vstd::prelude::*;

verus! {

/// What was wrong with a tag.
#[derive(Clone, Copy, Debug, PartialEq, Eq, Structural)]
pub enum ErrorKind {
    /// The tag was given too few or too many arguments.
    ArgumentCount,
    /// An argument is malformed.
    Argument,
    /// The body does not fit the tag.
    Body,
}

/// A failure to parse a tag: its kind, and a message for the template's author.
#[derive(Clone, Debug, PartialEq, Eq)]
pub struct Error {
    pub kind: ErrorKind,
    pub message: String,
}

impl Error {
    /// A failure of the given kind with the given message.
    pub fn new(kind: ErrorKind, message: &str) -> (error: Error)
        ensures
            error.kind == kind,
            error.message@ == message@,
    {
        Error { kind, message: message.to_owned() }
    }
}

} // verus!
