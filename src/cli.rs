//! The operations offered to an operator, as plain values.
use vstd::prelude::*;

verus! {

/// A parsed command line.
#[derive(Clone, Debug, PartialEq, Eq)]
pub struct Cli {
    pub command: Commands,
}

/// The operations, with their arguments. Paths are kept as given.
#[derive(Clone, Debug, PartialEq, Eq)]
pub enum Commands {
    /// Show the license and copyright notice, or the full license text.
    License { full: bool },
    /// Generate an identity for `name` and `email` and write it to `output`.
    Generate { name: String, email: String, armor: bool, output: String },
    /// Encrypt `text`, or the file `input`, to the key in `key_file`.
    Encrypt {
        key_file: String,
        text: Option<String>,
        armor: bool,
        output: String,
        input: Option<String>,
    },
    /// Decrypt the file `input` with the key in `key_file`.
    Decrypt { key_file: String, armor: bool, output: String, input: String },
}

/// Where the payload of an encryption comes from.
#[derive(Clone, Debug, PartialEq, Eq)]
pub enum PayloadSource {
    /// The contents of the file at this path.
    File(String),
    /// These characters, as UTF-8.
    Text(String),
    /// Neither was given.
    Missing,
}

/// The payload source for the given arguments: an input file wins over
/// literal text.
pub open spec fn payload_source_of(text: Option<String>, input: Option<String>) -> PayloadSource {
    match input {
        Some(path) => PayloadSource::File(path),
        None => match text {
            Some(t) => PayloadSource::Text(t),
            None => PayloadSource::Missing,
        },
    }
}

/// Decides where the payload of an encryption comes from.
pub fn payload_source(text: Option<String>, input: Option<String>) -> (r: PayloadSource)
    ensures
        r == payload_source_of(text, input),
{
    match input {
        Some(path) => PayloadSource::File(path),
        None => match text {
            Some(t) => PayloadSource::Text(t),
            None => PayloadSource::Missing,
        },
    }
}

} // verus!
