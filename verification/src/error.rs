//! What can go wrong in finding removable storage.

use vstd::prelude::*;
use vstd::string::*;

verus! {

/// A failure of the library.
#[derive(Debug, PartialEq, Eq)]
pub enum Error {
    /// The list of devices could not be understood.
    UsbParsingError,
    /// A failure described by its message.
    Generic(String),
}

/// The message of a failure.
pub open spec fn message_text(error: Error) -> Seq<char> {
    match error {
        Error::UsbParsingError => "USB enumeration parsing error"@,
        Error::Generic(message) => message@,
    }
}

impl Error {
    /// The message of the failure.
    pub fn message(&self) -> (message: String)
        ensures
            message@ == message_text(*self),
    {
        match self {
            Error::UsbParsingError => String::from_str("USB enumeration parsing error"),
            Error::Generic(message) => message.clone(),
        }
    }
}

} // verus!
