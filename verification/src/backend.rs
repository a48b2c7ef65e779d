//! What a serialization backend can report.
//!
//! The coordinator does not serialize anything itself: it asks its caller to
//! run the backend and takes the outcome. Either textual format can be the
//! active one; a failure of either is a [`FormatError`].

use serde_json::Error as JsonError;
use toml::de::Error as TomlReadError;
use toml::ser::Error as TomlWriteError;
use vstd::prelude::*;
use vstd::std_specs::convert::FromSpecImpl;
use vstd::string::to_string_from_display_ensures;

verus! {

/// `serde_json::Error`: a failure of the JSON reader or writer, carried as
/// it came.
#[verifier::external_type_specification]
#[verifier::external_body]
pub struct ExJsonError(JsonError);

/// `toml::de::Error`: a failure of the TOML reader, carried as it came.
#[verifier::external_type_specification]
#[verifier::external_body]
pub struct ExTomlReadError(TomlReadError);

/// `toml::ser::Error`: a failure of the TOML writer, carried as it came.
#[verifier::external_type_specification]
#[verifier::external_body]
pub struct ExTomlWriteError(TomlWriteError);

/// A failure of the active backend, whichever reader or writer it came from.
#[derive(Debug)]
pub enum FormatError {
    /// The JSON backend failed, reading or writing.
    Json(JsonError),
    /// The TOML backend failed to read.
    TomlRead(TomlReadError),
    /// The TOML backend failed to write.
    TomlWrite(TomlWriteError),
}

impl FormatError {
    /// Whether `text` is what the underlying error displays as.
    pub open spec fn displayed_as(&self, text: String) -> bool {
        match self {
            FormatError::Json(error) => to_string_from_display_ensures::<JsonError>(
                error,
                text,
            ),
            FormatError::TomlRead(error) => to_string_from_display_ensures::<TomlReadError>(
                error,
                text,
            ),
            FormatError::TomlWrite(error) => to_string_from_display_ensures::<TomlWriteError>(
                error,
                text,
            ),
        }
    }

    /// The backend's own diagnostic message.
    pub fn to_string(&self) -> (text: String)
        ensures
            self.displayed_as(text),
    {
        match self {
            FormatError::Json(error) => error.to_string(),
            FormatError::TomlRead(error) => error.to_string(),
            FormatError::TomlWrite(error) => error.to_string(),
        }
    }
}

impl From<JsonError> for FormatError {
    fn from(error: JsonError) -> (wrapped: FormatError) {
        FormatError::Json(error)
    }
}

impl FromSpecImpl<JsonError> for FormatError {
    open spec fn obeys_from_spec() -> bool {
        true
    }

    open spec fn from_spec(error: JsonError) -> FormatError {
        FormatError::Json(error)
    }
}

impl From<TomlReadError> for FormatError {
    fn from(error: TomlReadError) -> (wrapped: FormatError) {
        FormatError::TomlRead(error)
    }
}

impl FromSpecImpl<TomlReadError> for FormatError {
    open spec fn obeys_from_spec() -> bool {
        true
    }

    open spec fn from_spec(error: TomlReadError) -> FormatError {
        FormatError::TomlRead(error)
    }
}

impl From<TomlWriteError> for FormatError {
    fn from(error: TomlWriteError) -> (wrapped: FormatError) {
        FormatError::TomlWrite(error)
    }
}

impl FromSpecImpl<TomlWriteError> for FormatError {
    open spec fn obeys_from_spec() -> bool {
        true
    }

    open spec fn from_spec(error: TomlWriteError) -> FormatError {
        FormatError::TomlWrite(error)
    }
}

} // verus!
