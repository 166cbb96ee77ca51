//! Error type for checklist operations.

use vstd::prelude::*;

verus! {

/// Everything that can go wrong while loading, saving or addressing
/// checklist documents. Carries plain text so that callers can show it.
#[derive(Debug, Clone)]
pub enum Error {
    /// An input/output failure, with the underlying message.
    Io(String),
    /// A document could not be parsed, with the parser's message.
    Parse(String),
    /// A document could not be serialized, with the serializer's message.
    Serialize(String),
    /// The testlist file was not found, with its path.
    TestlistNotFound(String),
    /// A test ID did not name any test.
    InvalidTestId(String),
    /// The results file was not found, with its path.
    ResultsNotFound(String),
}

impl Error {
    /// A human-readable description of the error.
    pub fn message(&self) -> (r: String)
        ensures
            r@ == self.message_spec(),
    {
        let mut s = String::new();
        match self {
            Error::Io(m) => {
                s.push_str("IO error: ");
                s.push_str(m.as_str());
            },
            Error::Parse(m) => {
                s.push_str("Failed to parse RON file: ");
                s.push_str(m.as_str());
            },
            Error::Serialize(m) => {
                s.push_str("Failed to serialize RON: ");
                s.push_str(m.as_str());
            },
            Error::TestlistNotFound(p) => {
                s.push_str("Testlist file not found: ");
                s.push_str(p.as_str());
            },
            Error::InvalidTestId(id) => {
                s.push_str("Invalid test ID: ");
                s.push_str(id.as_str());
            },
            Error::ResultsNotFound(p) => {
                s.push_str("Results file not found: ");
                s.push_str(p.as_str());
            },
        }
        s
    }

    /// The text that `message` produces: a fixed prefix naming the kind of
    /// failure, followed by the carried detail.
    pub open spec fn message_spec(&self) -> Seq<char> {
        match self {
            Error::Io(m) => "IO error: "@ + m@,
            Error::Parse(m) => "Failed to parse RON file: "@ + m@,
            Error::Serialize(m) => "Failed to serialize RON: "@ + m@,
            Error::TestlistNotFound(p) => "Testlist file not found: "@ + p@,
            Error::InvalidTestId(id) => "Invalid test ID: "@ + id@,
            Error::ResultsNotFound(p) => "Results file not found: "@ + p@,
        }
    }
}

/// Result type used throughout the library.
pub type Result<T> = core::result::Result<T, Error>;

} // verus!
