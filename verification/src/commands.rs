//! Command-level contracts shared by every operation of the application.

use vstd::prelude::*;
use vstd::string::StringExecFns;

pub mod audio_commands;
pub mod injection_commands;
pub mod model_commands;
pub mod preferences_commands;
pub mod system_commands;

verus! {

/// An error handed back to the caller of a command: a stable machine-readable
/// code and a human-readable message.
#[derive(Debug, Clone, PartialEq, Eq)]
pub struct CommandError {
    pub code: String,
    pub message: String,
}

/// The command failed with exactly this code and this message.
pub open spec fn fails_with<T>(
    result: Result<T, CommandError>,
    code: Seq<char>,
    message: Seq<char>,
) -> bool {
    result is Err && result->Err_0.is(code, message)
}

impl CommandError {
    /// True when the error carries exactly this code and this message.
    pub open spec fn is(self, code: Seq<char>, message: Seq<char>) -> bool {
        self.code@ == code && self.message@ == message
    }

    /// An error with this code and this message.
    pub fn new(code: &str, message: &str) -> (error: Self)
        ensures
            error.is(code@, message@),
    {
        Self { code: String::from_str(code), message: String::from_str(message) }
    }

    /// The error as one line of text: the code, a colon, a space, the message.
    pub fn to_text(&self) -> (text: String)
        ensures
            text@ == self.code@ + ": "@ + self.message@,
    {
        let mut text = self.code.clone();
        text.append(": ");
        text.append(self.message.as_str());
        text
    }
}

} // verus!
