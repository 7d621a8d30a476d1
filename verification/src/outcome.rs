//! How a run ends: the exit code, and the message shown before leaving.

use vstd::prelude::*;
use vstd::string::*;
use crate::target::StartError;

verus! {

/// The exit code of a run that made the folder or was cancelled.
pub const EXIT_OK: i32 = 0;

/// The exit code of a run that failed.
pub const EXIT_FAILURE: i32 = 1;

/// The end of a run: the process exit code, and the error text to show in
/// a blocking dialog before leaving, if any.
#[derive(Clone, Debug, PartialEq, Eq)]
pub struct Exit {
    pub code: i32,
    pub message: Option<String>,
}

impl Exit {
    /// The run ends quietly with code zero.
    pub open spec fn is_quiet_success(&self) -> bool {
        self.code == EXIT_OK && self.message is None
    }

    /// The run ends with code one after showing `text`.
    pub open spec fn is_failure_with(&self, text: Seq<char>) -> bool {
        self.code == EXIT_FAILURE && self.message is Some && self.message->Some_0@ == text
    }
}

/// The message for a home directory that cannot be found.
pub open spec fn no_home_text() -> Seq<char> {
    "Failed to get home directory."@
}

/// The message for a folder that could not be made: the path that was
/// tried, and what the operating system said.
pub open spec fn creation_failure_text(path: Seq<char>, cause: Seq<char>) -> Seq<char> {
    "Failed to create '"@ + path + "': "@ + cause
}

/// The message for an error of the user interface: the cause, and on a
/// line of its own what was being done.
pub open spec fn interface_failure_text(cause: Seq<char>, doing: Seq<char>) -> Seq<char> {
    cause + "\n"@ + doing
}

/// The text shown when the folder at `path` could not be made.
pub fn creation_failure_message(path: &str, cause: &str) -> (text: String)
    ensures
        text@ == creation_failure_text(path@, cause@),
{
    let mut text = String::from_str("Failed to create '");
    text.append(path);
    text.append("': ");
    text.append(cause);
    text
}

/// The text shown when the user interface failed while `doing` something.
pub fn interface_failure_message(cause: &str, doing: &str) -> (text: String)
    ensures
        text@ == interface_failure_text(cause@, doing@),
{
    let mut text = String::from_str(cause);
    text.append("\n");
    text.append(doing);
    text
}

/// The end of a run that could not settle on a target directory.
pub fn start_failure_exit(error: StartError) -> (exit: Exit)
    ensures
        exit.is_failure_with(no_home_text()),
{
    match error {
        StartError::NoHomeDirectory => Exit {
            code: EXIT_FAILURE,
            message: Some(String::from_str("Failed to get home directory.")),
        },
    }
}

/// The end of a run that was cancelled: nothing is shown, the code is zero.
pub fn cancel_exit() -> (exit: Exit)
    ensures
        exit.is_quiet_success(),
{
    Exit { code: EXIT_OK, message: None }
}

/// The end of a run after the one attempt to make the folder at `path`.
///
/// `attempt` is what the operating system answered: nothing on success, its
/// error text on failure. A failure is final: the message names the path and
/// the error, and the code is one.
pub fn creation_exit(path: &str, attempt: Result<(), String>) -> (exit: Exit)
    ensures
        match attempt {
            Ok(_) => exit.is_quiet_success(),
            Err(cause) => exit.is_failure_with(creation_failure_text(path@, cause@)),
        },
{
    match attempt {
        Ok(_) => Exit { code: EXIT_OK, message: None },
        Err(cause) => Exit {
            code: EXIT_FAILURE,
            message: Some(creation_failure_message(path, cause.as_str())),
        },
    }
}

/// The end of a run whose user interface failed while `doing` something.
pub fn interface_failure_exit(cause: &str, doing: &str) -> (exit: Exit)
    ensures
        exit.is_failure_with(interface_failure_text(cause@, doing@)),
{
    Exit { code: EXIT_FAILURE, message: Some(interface_failure_message(cause, doing)) }
}

} // verus!
