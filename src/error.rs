use vstd::prelude::*;

verus! {

/// The kind of failure behind an [`Error`].
#[derive(Clone, Copy, Debug, PartialEq, Eq, Structural)]
pub enum ErrorKind {
    /// The request could not be built, sent or answered.
    Transport,
    /// The API answered with a status outside the success class.
    RequestFailed(u16),
    /// The body of a successful reply had an unexpected shape.
    Decode,
    /// A scenario's expectation did not hold.
    AssertionFailed,
}

/// A failure, with a human-readable message.
#[derive(Clone, Debug)]
pub struct Error {
    pub kind: ErrorKind,
    pub message: String,
}

impl Error {
    pub fn new(kind: ErrorKind, message: String) -> (r: Error)
        ensures
            r.kind == kind,
            r.message@ == message@,
    {
        Error { kind, message }
    }

    /// A failed expectation of a scenario.
    pub fn assertion(message: &str) -> (r: Error)
        ensures
            r.kind == ErrorKind::AssertionFailed,
            r.message@ == message@,
    {
        Error { kind: ErrorKind::AssertionFailed, message: String::from_str(message) }
    }

    /// The message, as the text shown to an operator.
    pub fn message(&self) -> (r: String)
        ensures
            r@ == self.message@,
    {
        self.message.clone()
    }
}

} // verus!
