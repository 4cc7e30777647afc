//! What can end a session.

use vstd::prelude::*;
use vstd::string::StringExecFns;

verus! {

/// Why a session could not go on.
#[derive(Debug, Clone, Copy, PartialEq, Eq, Structural)]
pub enum AppError {
    /// The root directory could not be opened.
    RootUnreadable,
    /// No solution file lies under the root.
    NoSolutions,
    /// The chosen solution file could not be read.
    SolutionUnreadable,
    /// The run command could not be started.
    RunNotStarted,
}

impl AppError {
    /// Whether the error says that something was not found, as opposed to
    /// something that could not be read or started.
    pub open spec fn not_found(self) -> bool {
        self == AppError::NoSolutions
    }

    /// Tells a missing thing from a failed read or start.
    pub fn is_not_found(self) -> (r: bool)
        ensures
            r == self.not_found(),
    {
        match self {
            AppError::NoSolutions => true,
            _ => false,
        }
    }

    /// The error in words.
    pub open spec fn text(self) -> Seq<char> {
        match self {
            AppError::RootUnreadable => "The root directory could not be read"@,
            AppError::NoSolutions => "No .sln files found"@,
            AppError::SolutionUnreadable => "The solution file could not be read"@,
            AppError::RunNotStarted => "The run command could not be started"@,
        }
    }

    /// The error in words.
    pub fn message(self) -> (r: String)
        ensures
            r@ == self.text(),
    {
        match self {
            AppError::RootUnreadable => String::from_str("The root directory could not be read"),
            AppError::NoSolutions => String::from_str("No .sln files found"),
            AppError::SolutionUnreadable => String::from_str("The solution file could not be read"),
            AppError::RunNotStarted => String::from_str("The run command could not be started"),
        }
    }
}

} // verus!
