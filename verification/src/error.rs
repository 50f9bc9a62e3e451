//! The error that every fallible step of the adapter returns.

use vstd::prelude::*;

verus! {

/// What went wrong, at the granularity on which callers branch.
#[derive(Clone, Copy, Debug, PartialEq, Eq, Structural)]
pub enum ErrorKind {
    /// The peer said something that the session protocol does not allow.
    InvalidData,
    /// The operation is not offered by this backend.
    Unsupported,
    /// No answer came in time.
    TimedOut,
    /// The peer closed the stream where a message was due.
    UnexpectedEof,
    /// The event buffer of the renderer is full.
    WouldBlock,
    /// The other end of an internal channel is gone.
    BrokenPipe,
    /// Anything else.
    Other,
}

/// A failed step: its kind and a message for people.
#[derive(Clone, Debug)]
pub struct BackendError {
    /// The kind of failure.
    pub kind: ErrorKind,
    /// The text shown to the user.
    pub message: String,
}

/// A [`BackendError`] with its text as a sequence of characters.
#[verifier::ext_equal]
pub struct ErrorView {
    pub kind: ErrorKind,
    pub message: Seq<char>,
}

impl DeepView for BackendError {
    type V = ErrorView;

    open spec fn deep_view(&self) -> ErrorView {
        ErrorView { kind: self.kind, message: self.message@ }
    }
}

/// A result with both sides seen through their models.
pub open spec fn result_view<T: DeepView, E: DeepView>(result: Result<T, E>) -> Result<T::V, E::V> {
    match result {
        Ok(value) => Ok(value.deep_view()),
        Err(error) => Err(error.deep_view()),
    }
}

/// The model of a protocol violation with the given text.
pub open spec fn protocol_error(message: Seq<char>) -> ErrorView {
    ErrorView { kind: ErrorKind::InvalidData, message }
}

impl BackendError {
    /// An error of the given kind with the given text.
    pub fn new(kind: ErrorKind, message: &str) -> (res: BackendError)
        ensures
            res.deep_view() == (ErrorView { kind, message: message@ }),
    {
        BackendError { kind, message: message.to_owned() }
    }

    /// The kind of failure.
    pub fn kind(&self) -> (res: ErrorKind)
        ensures
            res == self.deep_view().kind,
    {
        self.kind
    }

    /// The error's text.
    pub fn message(&self) -> (res: &str)
        ensures
            res@ == self.deep_view().message,
    {
        self.message.as_str()
    }
}

/// A protocol violation described by this library.
pub fn invalid_data(message: &str) -> (res: BackendError)
    ensures
        res.deep_view() == protocol_error(message@),
{
    BackendError::new(ErrorKind::InvalidData, message)
}

/// A protocol violation described by the text of a decoder's or parser's error.
pub fn invalid_wire(error: String) -> (res: BackendError)
    ensures
        res.deep_view() == protocol_error(error@),
{
    BackendError { kind: ErrorKind::InvalidData, message: error }
}

} // verus!
