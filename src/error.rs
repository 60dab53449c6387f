//! Errors of the document operations.
use vstd::prelude::*;

verus! {

/// Why an operation refused its input.
pub enum InputProblem {
    /// Fewer sources than the operation needs.
    TooFewSources { given: usize, needed: usize },
    /// The output path is (canonically) one of the input paths.
    OutputIsInput { input: String },
    /// No page range was given.
    NoRanges,
}

/// An operation's failure.
pub enum OpError {
    /// No candidate location holds the tool; `looked_for` names the
    /// executables that were looked for.
    ToolNotFound { tool: String, looked_for: Vec<String> },
    /// The executable found does not identify as the expected tool.
    ToolVerificationFailed { tool: String, detail: String },
    /// The process could not be started at all.
    SpawnFailed { detail: String },
    /// The process ran and exited unsuccessfully; carries its diagnostics.
    ToolExecutionFailed { diagnostics: String },
    /// The request itself is unacceptable.
    InvalidInput(InputProblem),
    /// A filesystem operation failed.
    Io { detail: String },
}

} // verus!
