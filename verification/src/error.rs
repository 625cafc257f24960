//! The errors that the dashboard reports to its caller.

use vstd::prelude::*;
use vstd::string::StringExecFns;

verus! {

/// Why a request to the dashboard failed.
#[derive(Debug, PartialEq, Eq)]
pub enum TerminalError {
    /// The output stream of the process shall be shown, and the process has
    /// no output pipe.
    MissingStdout { process: String },
    /// The error stream of the process shall be shown, and the process has no
    /// error pipe.
    MissingStderr { process: String },
    /// A pane would get a number above nine, for which no focus key exists.
    TooManyProcesses,
    /// No process of that name is registered.
    ProcessNotFound,
}

impl TerminalError {
    /// The text of the error, as shown to a user.
    pub open spec fn spec_message(self) -> Seq<char> {
        match self {
            TerminalError::MissingStdout { process } => "Failed to get stdout on process: "@
                + process@,
            TerminalError::MissingStderr { process } => "Failed to get stderr on process: "@
                + process@,
            TerminalError::TooManyProcesses => "Can't add more then 9 processes."@,
            TerminalError::ProcessNotFound => "Process not found."@,
        }
    }

    /// The text of the error, as shown to a user.
    pub fn message(&self) -> (text: String)
        ensures
            text@ == self.spec_message(),
    {
        match self {
            TerminalError::MissingStdout { process } => String::from_str(
                "Failed to get stdout on process: ",
            ).concat(process.as_str()),
            TerminalError::MissingStderr { process } => String::from_str(
                "Failed to get stderr on process: ",
            ).concat(process.as_str()),
            TerminalError::TooManyProcesses => String::from_str("Can't add more then 9 processes."),
            TerminalError::ProcessNotFound => String::from_str("Process not found."),
        }
    }
}

} // verus!
