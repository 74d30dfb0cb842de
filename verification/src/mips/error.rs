//! Errors of the machine model.
use vstd::prelude::*;

verus! {

/// What can go wrong when a text is read as a part of an instruction.
#[derive(Debug, Clone, PartialEq, Eq)]
pub enum Error {
    /// The form is not supported.
    Todo,
    /// The text, carried here, is none of the accepted ones.
    ParseError(String),
}

/// An `Error` with its text as a sequence of characters.
pub enum ErrorView {
    Todo,
    ParseError(Seq<char>),
}

impl View for Error {
    type V = ErrorView;

    open spec fn view(&self) -> ErrorView {
        match self {
            Error::Todo => ErrorView::Todo,
            Error::ParseError(s) => ErrorView::ParseError(s@),
        }
    }
}

impl ErrorView {
    /// The message of the error.
    pub open spec fn message(self) -> Seq<char> {
        match self {
            ErrorView::Todo => "todo"@,
            ErrorView::ParseError(_) => "failed to parse"@,
        }
    }
}

impl Error {
    /// The message of the error.
    pub fn to_string(&self) -> (r: String)
        ensures
            r@ == self@.message(),
    {
        match self {
            Error::Todo => "todo".to_string(),
            Error::ParseError(_) => "failed to parse".to_string(),
        }
    }
}

} // verus!
