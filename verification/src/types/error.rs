//! The error type of every fallible operation in this crate.

use vstd::prelude::*;
use vstd::std_specs::convert::FromSpecImpl;

verus! {

/// `serde_json::Error`, carried through unchanged: nothing here looks inside.
#[verifier::external_type_specification]
#[verifier::external_body]
pub struct ExJsonError(serde_json::Error);

/// `std::io::Error`, carried through unchanged: nothing here looks inside.
#[verifier::external_type_specification]
#[verifier::external_body]
pub struct ExIoError(std::io::Error);

/// `std::string::FromUtf8Error`, carried through unchanged.
#[verifier::external_type_specification]
#[verifier::external_body]
pub struct ExFromUtf8Error(std::string::FromUtf8Error);

/// What can go wrong while driving the tool.
#[derive(Debug)]
pub enum BjigError {
    /// No binary at the configured path.
    BinaryNotFound(String),
    /// The tool ran and reported failure, or a monitor task ended abnormally.
    CommandFailed(String),
    /// The tool's output is not a JSON document.
    JsonParseError(serde_json::Error),
    /// Spawning the tool or reading from it failed.
    IoError(std::io::Error),
    /// No serial port was given, configured, or found in the environment.
    PortNotConfigured,
    /// No baud rate was given or configured.
    BaudNotConfigured,
    /// The tool's output is not UTF-8.
    Utf8Error(std::string::FromUtf8Error),
    /// A parameter is out of its allowed range.
    InvalidParameter(String),
    /// A file named in a command does not exist.
    FileNotFound(String),
}

impl From<serde_json::Error> for BjigError {
    fn from(error: serde_json::Error) -> (converted: BjigError) {
        BjigError::JsonParseError(error)
    }
}

impl FromSpecImpl<serde_json::Error> for BjigError {
    open spec fn obeys_from_spec() -> bool {
        true
    }

    open spec fn from_spec(error: serde_json::Error) -> BjigError {
        BjigError::JsonParseError(error)
    }
}

impl From<std::io::Error> for BjigError {
    fn from(error: std::io::Error) -> (converted: BjigError) {
        BjigError::IoError(error)
    }
}

impl FromSpecImpl<std::io::Error> for BjigError {
    open spec fn obeys_from_spec() -> bool {
        true
    }

    open spec fn from_spec(error: std::io::Error) -> BjigError {
        BjigError::IoError(error)
    }
}

impl From<std::string::FromUtf8Error> for BjigError {
    fn from(error: std::string::FromUtf8Error) -> (converted: BjigError) {
        BjigError::Utf8Error(error)
    }
}

impl FromSpecImpl<std::string::FromUtf8Error> for BjigError {
    open spec fn obeys_from_spec() -> bool {
        true
    }

    open spec fn from_spec(error: std::string::FromUtf8Error) -> BjigError {
        BjigError::Utf8Error(error)
    }
}

} // verus!
