//! The error returned when text is rejected by a validator.

use vstd::prelude::*;
use vstd::string::StringExecFns;

verus! {

/// Why a string could not be wrapped.
#[derive(Debug)]
pub enum Error {
    /// The text did not satisfy the validator. The payload describes the failure.
    InvalidStringError(String),
}

/// The description carried by every rejection.
pub open spec fn rejection_detail() -> Seq<char> {
    "Invalid string"@
}

/// The prefix of every rendered rejection.
pub open spec fn rejection_prefix() -> Seq<char> {
    "Invalid string: "@
}

impl View for Error {
    type V = Seq<char>;

    /// The payload of the error.
    open spec fn view(&self) -> Seq<char> {
        match self {
            Error::InvalidStringError(detail) => detail@,
        }
    }
}

impl Error {
    /// The error that every rejected construction returns.
    pub fn rejected() -> (e: Error)
        ensures
            e@ == rejection_detail(),
    {
        Error::InvalidStringError(String::from_str("Invalid string"))
    }

    /// The rendered form of the error: the prefix followed by the payload.
    pub open spec fn rendered(&self) -> Seq<char> {
        rejection_prefix() + self@
    }

    /// Renders the error for display.
    pub fn message(&self) -> (s: String)
        ensures
            s@ == self.rendered(),
    {
        match self {
            Error::InvalidStringError(detail) => {
                String::from_str("Invalid string: ").concat(detail.as_str())
            },
        }
    }
}

} // verus!
