//! The pipeline's error taxonomy. Every error is terminal: it aborts the
//! run, and its message names the operation that was attempted together
//! with the offending token or path.

use vstd::prelude::*;
use crate::escape::escape_seq;
use crate::escape::escape_str;

verus! {

/// One error for each way a run can fail after argument parsing: a mode
/// token outside the closed set, an unreadable source file, a path that
/// cannot be canonicalized, a canonical path without a final component,
/// or a source the compiler rejected.
#[derive(Debug)]
pub enum CliError {
    InvalidMode { token: String },
    SourceRead { path: String },
    PathResolution { path: String },
    MissingFileName { path: String },
    Compilation { diagnostic: String },
}

impl CliError {
    /// The diagnostic message owed for each error: a fixed phrase for the
    /// operation, then the token (escaped) or path it was attempted on.
    pub open spec fn message_spec(&self) -> Seq<char> {
        match self {
            CliError::InvalidMode { token } => "Invalid mode name `"@ + escape_seq(token@) + "`"@,
            CliError::SourceRead { path } => "Unable to read "@ + path@,
            CliError::PathResolution { path } => "Unable to resolve path: "@ + path@,
            CliError::MissingFileName { path } => "Expected source path to have filename: "@
                + path@,
            CliError::Compilation { diagnostic } => "Failed to compile bytecode: "@ + diagnostic@,
        }
    }

    /// Renders the message this error owes.
    pub fn message(&self) -> (r: String)
        ensures
            r@ == self.message_spec(),
    {
        match self {
            CliError::InvalidMode { token } => {
                let mut m = String::from_str("Invalid mode name `");
                let escaped = escape_str(token.as_str());
                m.append(escaped.as_str());
                m.append("`");
                m
            },
            CliError::SourceRead { path } => {
                let mut m = String::from_str("Unable to read ");
                m.append(path.as_str());
                m
            },
            CliError::PathResolution { path } => {
                let mut m = String::from_str("Unable to resolve path: ");
                m.append(path.as_str());
                m
            },
            CliError::MissingFileName { path } => {
                let mut m = String::from_str("Expected source path to have filename: ");
                m.append(path.as_str());
                m
            },
            CliError::Compilation { diagnostic } => {
                let mut m = String::from_str("Failed to compile bytecode: ");
                m.append(diagnostic.as_str());
                m
            },
        }
    }
}

} // verus!
