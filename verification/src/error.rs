//! What can go wrong while a configuration is found, loaded or watched.

use vstd::prelude::*;
use vstd::string::StringExecFns;

verus! {

/// The one validation rule of the schema, as it is reported.
pub const ROOT_RULE: &'static str = "root layout must be NotificationBlock";

/// A failure of the configuration subsystem. None of them is fatal: the
/// daemon falls back to the built-in configuration or keeps the one it has.
///
/// `Io`, `Parse` and `Watch` carry the text of the failure as the caller
/// observed it.
#[derive(Debug, PartialEq, Eq)]
pub enum Error {
    /// No configuration file was found.
    NotFound,
    /// The document is well-formed but breaks a rule of the schema.
    Validation(&'static str),
    /// The file could not be read.
    Io(String),
    /// The document is malformed or does not fit the schema.
    Parse(String),
    /// The directory of the configuration file could not be watched.
    Watch(String),
}

impl Error {
    /// The text of `message`.
    pub open spec fn message_text(self) -> Seq<char> {
        match self {
            Error::NotFound => "No config found"@,
            Error::Validation(problem) => "Error validating config file: "@ + problem@,
            Error::Io(detail) => "Error reading config file: "@ + detail@,
            Error::Parse(detail) => "Problem with config file: "@ + detail@,
            Error::Watch(detail) => "Error watching config directory: "@ + detail@,
        }
    }

    /// The diagnostic to show to the user.
    pub fn message(&self) -> (text: String)
        ensures
            text@ == self.message_text(),
    {
        match self {
            Error::NotFound => String::from_str("No config found"),
            Error::Validation(problem) => String::from_str("Error validating config file: ").concat(
                problem,
            ),
            Error::Io(detail) => String::from_str("Error reading config file: ").concat(
                detail.as_str(),
            ),
            Error::Parse(detail) => String::from_str("Problem with config file: ").concat(
                detail.as_str(),
            ),
            Error::Watch(detail) => String::from_str("Error watching config directory: ").concat(
                detail.as_str(),
            ),
        }
    }
}

} // verus!
