//! What stops a compilation.
use vstd::prelude::*;
use vstd::string::*;
use crate::text::concat2;

verus! {

/// The reason why a program was not compiled.
#[derive(Debug, Clone, PartialEq, Eq)]
pub enum Error {
    /// A variable, or the name of a device, is used where nothing defines it.
    UndefinedVariable(String),
    /// A label is asked for that was never placed, as in a call of a
    /// function that the program does not define.
    UndefinedFunction(String),
    /// The program defines no function named `main`.
    UndefinedMain,
    /// A device or a device variable could not be read from its text.
    Mips(crate::mips::error::Error),
    /// The operator, named here, is one that the compiler does not lower.
    Unimplemented(String),
}

/// An `Error` with its texts as sequences of characters.
pub enum ErrorView {
    UndefinedVariable(Seq<char>),
    UndefinedFunction(Seq<char>),
    UndefinedMain,
    Mips(crate::mips::error::ErrorView),
    Unimplemented(Seq<char>),
}

impl View for Error {
    type V = ErrorView;

    open spec fn view(&self) -> ErrorView {
        match self {
            Error::UndefinedVariable(name) => ErrorView::UndefinedVariable(name@),
            Error::UndefinedFunction(name) => ErrorView::UndefinedFunction(name@),
            Error::UndefinedMain => ErrorView::UndefinedMain,
            Error::Mips(inner) => ErrorView::Mips(inner@),
            Error::Unimplemented(name) => ErrorView::Unimplemented(name@),
        }
    }
}

impl ErrorView {
    /// The message of the error.
    pub open spec fn message(self) -> Seq<char> {
        match self {
            ErrorView::UndefinedVariable(name) => "usage of undefined variable: "@ + name,
            ErrorView::UndefinedFunction(name) => "usage of undefined function: "@ + name,
            ErrorView::UndefinedMain => "main function not defined"@,
            ErrorView::Mips(inner) => inner.message(),
            ErrorView::Unimplemented(name) => "unimplemented operator: "@ + name,
        }
    }
}

impl Error {
    /// The message of the error.
    pub fn to_string(&self) -> (r: String)
        ensures
            r@ == self@.message(),
    {
        match self {
            Error::UndefinedVariable(name) => concat2(
                "usage of undefined variable: ",
                name.as_str(),
            ),
            Error::UndefinedFunction(name) => concat2(
                "usage of undefined function: ",
                name.as_str(),
            ),
            Error::UndefinedMain => "main function not defined".to_string(),
            Error::Mips(inner) => inner.to_string(),
            Error::Unimplemented(name) => concat2("unimplemented operator: ", name.as_str()),
        }
    }
}

impl From<crate::mips::error::Error> for Error {
    fn from(inner: crate::mips::error::Error) -> (r: Error) {
        Error::Mips(inner)
    }
}

impl vstd::std_specs::convert::FromSpecImpl<crate::mips::error::Error> for Error {
    open spec fn obeys_from_spec() -> bool {
        true
    }

    open spec fn from_spec(inner: crate::mips::error::Error) -> Error {
        Error::Mips(inner)
    }
}

} // verus!
