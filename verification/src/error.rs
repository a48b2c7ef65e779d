//! The failures of a load or a store.

use vstd::prelude::*;
use vstd::std_specs::convert::FromSpecImpl;
use vstd::string::to_string_from_display_ensures;

use crate::backend::FormatError;
use crate::persist::{Persist, PersistView};

verus! {

/// `std::io::Error`: a failure of the file system, carried as it came.
#[verifier::external_type_specification]
#[verifier::external_body]
pub struct ExIoError(std::io::Error);

/// Why a load or a store failed.
#[derive(Debug)]
pub enum Error {
    /// No storage location could be resolved for this coordinator.
    AppData(Persist),
    /// The file system failed; the error is the one it gave.
    IO(std::io::Error),
    /// The backend could not read the file's content or write the value.
    Serialization(FormatError),
}

/// The I/O error that carries `message` and did not come from the operating
/// system: what `std::io::Error::other` returns for the message.
pub uninterp spec fn other_error(message: Seq<char>) -> std::io::Error;

/// `std::io::Error::other` on a message. The result is a function of the
/// message alone.
#[verifier::external_body]
fn io_error_other(message: String) -> (error: std::io::Error)
    ensures
        error == other_error(message@),
{
    std::io::Error::other(message)
}

impl Error {
    /// Whether this is the `AppData` error for a coordinator configured as
    /// `persist`.
    pub open spec fn reports(&self, persist: PersistView) -> bool {
        self matches Error::AppData(named) && named@ == persist
    }

    /// Whether `text` is the message of this error: for `AppData` a fixed
    /// phrase and the coordinator's name, otherwise what the underlying error
    /// displays as.
    pub open spec fn displayed_as(&self, text: String) -> bool {
        match self {
            Error::AppData(persist) => text@ == "unable to open storage for "@
                + persist@.display(),
            Error::IO(error) => to_string_from_display_ensures::<std::io::Error>(error, text),
            Error::Serialization(error) => error.displayed_as(text),
        }
    }

    /// The human-readable message of this error.
    pub fn to_string(&self) -> (text: String)
        ensures
            self.displayed_as(text),
    {
        match self {
            Error::AppData(persist) => {
                let name = persist.to_string();
                let mut text = "unable to open storage for ".to_owned();
                text.append(name.as_str());
                text
            },
            Error::IO(error) => error.to_string(),
            Error::Serialization(error) => error.to_string(),
        }
    }
}

impl From<std::io::Error> for Error {
    fn from(error: std::io::Error) -> (wrapped: Error) {
        Error::IO(error)
    }
}

impl FromSpecImpl<std::io::Error> for Error {
    open spec fn obeys_from_spec() -> bool {
        true
    }

    open spec fn from_spec(error: std::io::Error) -> Error {
        Error::IO(error)
    }
}

impl From<FormatError> for Error {
    fn from(error: FormatError) -> (wrapped: Error) {
        Error::Serialization(error)
    }
}

impl FromSpecImpl<FormatError> for Error {
    open spec fn obeys_from_spec() -> bool {
        true
    }

    open spec fn from_spec(error: FormatError) -> Error {
        Error::Serialization(error)
    }
}

/// What [`Error`] becomes as an I/O error: an `IO` error is handed out as it
/// is, any other as an error of kind `Other` that carries its message.
pub open spec fn as_io_error(error: Error, converted: std::io::Error) -> bool {
    match error {
        Error::IO(inner) => converted == inner,
        other => exists|message: String|
            other.displayed_as(message) && converted == other_error(message@),
    }
}

impl From<Error> for std::io::Error {
    fn from(error: Error) -> (converted: std::io::Error)
        ensures
            as_io_error(error, converted),
    {
        match error {
            Error::IO(inner) => inner,
            other => {
                let message = other.to_string();
                io_error_other(message)
            },
        }
    }
}

/// What an outside error displays as is known as a relation only, so this
/// conversion has no defining function: `from` states it by [`as_io_error`].
impl FromSpecImpl<Error> for std::io::Error {
    open spec fn obeys_from_spec() -> bool {
        false
    }

    open spec fn from_spec(error: Error) -> std::io::Error {
        arbitrary()
    }
}

} // verus!
