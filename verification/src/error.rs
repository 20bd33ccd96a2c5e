//! The ways in which an operation can fail, and the text shown for each.

use vstd::prelude::*;
use vstd::string::StringExecFns;
use crate::text::{join, joined, texts};

verus! {

/// Why an operation did not succeed. Every failure reaches the caller as one
/// of these; none is retried.
#[derive(Debug, PartialEq, Eq)]
pub enum OperationError {
    /// The source video was not an existing regular file when the operation
    /// began. No argument was built and no process started.
    SourceNotFound,
    /// The tool could not be started; the text is the system's reason.
    SpawnError(String),
    /// The tool started, but its output could not be read.
    StreamError(String),
    /// The tool reported lines of severity error or fatal; they are kept in
    /// the order in which they came.
    ToolDiagnostics(Vec<String>),
    /// Providing the tool locally failed.
    InstallError(String),
}

impl OperationError {
    /// The text shown to a person: a fixed sentence for a missing source, the
    /// reported lines joined with `; ` for diagnostics, and the reason as it
    /// was given for the others.
    pub open spec fn message_text(&self) -> Seq<char> {
        match self {
            OperationError::SourceNotFound => "Source video does not exist"@,
            OperationError::SpawnError(reason) => reason@,
            OperationError::StreamError(reason) => reason@,
            OperationError::ToolDiagnostics(lines) => joined(texts(lines@), "; "@),
            OperationError::InstallError(reason) => reason@,
        }
    }

    /// The reported lines of a diagnostics failure; empty for the others.
    pub open spec fn lines(&self) -> Seq<Seq<char>> {
        match self {
            OperationError::ToolDiagnostics(lines) => texts(lines@),
            _ => Seq::empty(),
        }
    }

    /// Computes `message_text`.
    pub fn message(&self) -> (text: String)
        ensures
            text@ == self.message_text(),
    {
        match self {
            OperationError::SourceNotFound => String::from_str("Source video does not exist"),
            OperationError::SpawnError(reason) => reason.clone(),
            OperationError::StreamError(reason) => reason.clone(),
            OperationError::ToolDiagnostics(lines) => join(lines, "; "),
            OperationError::InstallError(reason) => reason.clone(),
        }
    }
}

} // verus!
