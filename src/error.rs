use vstd::prelude::*;

verus! {

/// What an error is, as plain values.
pub ghost enum ErrorView {
    InvalidOperation { key: Seq<char>, reason: Seq<char> },
    WrongArgumentCount { start: usize, end: usize, actual: usize },
    UnexpectedError(Seq<char>),
}

/// Errors raised while recognizing or evaluating an operation.
#[derive(Debug, PartialEq)]
pub enum Error {
    /// A single-key object naming an operator whose value is not an array.
    InvalidOperation { key: String, reason: String },
    /// An argument count outside the operator's accepted range.
    WrongArgumentCount { expected: std::ops::Range<usize>, actual: usize },
    /// A state that the recognition logic rules out.
    UnexpectedError(String),
}

impl View for Error {
    type V = ErrorView;

    open spec fn view(&self) -> ErrorView {
        match self {
            Error::InvalidOperation { key, reason } => ErrorView::InvalidOperation {
                key: key@,
                reason: reason@,
            },
            Error::WrongArgumentCount { expected, actual } => ErrorView::WrongArgumentCount {
                start: expected.start,
                end: expected.end,
                actual: *actual,
            },
            Error::UnexpectedError(m) => ErrorView::UnexpectedError(m@),
        }
    }
}

} // verus!
