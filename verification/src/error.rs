//! The ways an operation can fail.

use crate::cli_path::{resolution_message, ResolutionError};
use crate::json::{error_text, json_error_text};
use vstd::prelude::*;
use vstd::string::*;

verus! {

/// Why an operation produced no payload. Every failure ends the one
/// invocation it belongs to; nothing is tried again.
#[derive(Debug)]
pub enum FiberpathError {
    /// No executable was found, neither bundled nor on the search path.
    Resolution(ResolutionError),
    /// The executable could not be run at all. Holds the reason.
    Launch(String),
    /// The process ran and exited with a status other than zero. Holds the
    /// report of its exit code and of both its output streams.
    Process(String),
    /// The process exited with status zero, but what it wrote to its standard
    /// output is not JSON.
    Parse(serde_json::Error),
    /// The process exited with status zero, but the file it was to write
    /// could not be read. Holds the reason.
    ArtifactRead(String),
}

impl From<serde_json::Error> for FiberpathError {
    /// A parse error is a parse failure.
    fn from(error: serde_json::Error) -> (failure: FiberpathError) {
        FiberpathError::Parse(error)
    }
}

impl vstd::std_specs::convert::FromSpecImpl<serde_json::Error> for FiberpathError {
    open spec fn obeys_from_spec() -> bool {
        true
    }

    open spec fn from_spec(error: serde_json::Error) -> FiberpathError {
        FiberpathError::Parse(error)
    }
}

impl FiberpathError {
    /// The text this failure is shown with.
    pub open spec fn message_spec(&self) -> Seq<char> {
        match *self {
            FiberpathError::Resolution(error) => resolution_message(error.tried@),
            FiberpathError::Launch(reason) => "fiberpath exited with an error: "@ + reason@,
            FiberpathError::Process(report) => report@,
            FiberpathError::Parse(error) => "Unable to parse JSON: "@ + json_error_text(error),
            FiberpathError::ArtifactRead(reason) => "File error: "@ + reason@,
        }
    }

    /// Describes the failure for a reader.
    pub fn message(&self) -> (text: String)
        ensures
            text@ == self.message_spec(),
    {
        match self {
            FiberpathError::Resolution(error) => error.message(),
            FiberpathError::Launch(reason) => {
                let mut text = String::from_str("fiberpath exited with an error: ");
                text.append(reason.as_str());
                text
            },
            FiberpathError::Process(report) => report.clone(),
            FiberpathError::Parse(error) => {
                let mut text = String::from_str("Unable to parse JSON: ");
                let detail = error_text(error);
                text.append(detail.as_str());
                text
            },
            FiberpathError::ArtifactRead(reason) => {
                let mut text = String::from_str("File error: ");
                text.append(reason.as_str());
                text
            },
        }
    }
}

} // verus!
