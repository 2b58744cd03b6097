//! What can go wrong while a reply is asked for and read.

use vstd::prelude::*;

verus! {

/// Why an exchange with the server, or the reading of its reply, failed.
#[derive(Debug, PartialEq, Eq)]
pub enum ErrorKind {
    /// The request could not be sent, or no reply came in time. Carries the
    /// transport's own description of the failure.
    Transport(String),
    /// The reply did not begin with the single-packet marker. Carries the
    /// four bytes that stood there, read as a little-endian number.
    UnexpectedHeader(u32),
    /// A read asked for more bytes than the buffer still holds.
    OutOfRange,
    /// No zero byte closes the text that starts at the cursor.
    MissingTerminator,
    /// The bytes of a text are not valid UTF-8.
    InvalidText,
}

impl Clone for ErrorKind {
    fn clone(&self) -> (copy: Self)
        ensures
            copy == *self,
    {
        match self {
            ErrorKind::Transport(reason) => ErrorKind::Transport(reason.clone()),
            ErrorKind::UnexpectedHeader(header) => ErrorKind::UnexpectedHeader(*header),
            ErrorKind::OutOfRange => ErrorKind::OutOfRange,
            ErrorKind::MissingTerminator => ErrorKind::MissingTerminator,
            ErrorKind::InvalidText => ErrorKind::InvalidText,
        }
    }
}

/// The exchange during which a failure happened.
#[derive(Debug, Clone, Copy, PartialEq, Eq)]
pub enum Step {
    /// The info query.
    Info,
    /// The first round trip of the player query, which fetches the challenge.
    Challenge,
    /// The second round trip of the player query, which fetches the list.
    Players,
}

/// A failed query: the step that failed and why.
#[derive(Debug, PartialEq, Eq)]
pub struct Error {
    pub step: Step,
    pub kind: ErrorKind,
}

impl Clone for Error {
    fn clone(&self) -> (copy: Self)
        ensures
            copy == *self,
    {
        Error { step: self.step, kind: self.kind.clone() }
    }
}

/// The outcome of a query: what was asked for, or the failure.
pub type Response<T> = Result<T, Error>;

} // verus!
