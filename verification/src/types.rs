//! The configuration record and the error values shared by all stages.

use vstd::prelude::*;

verus! {

/// The four switches of a run. They are fixed once the run has started.
#[derive(Debug, Clone, Copy, PartialEq, Eq, Structural)]
pub struct CommandlineArgs {
    /// Show a method id: only the first 4 bytes of the digest (8 hex digits).
    pub is_method_id_output: bool,
    /// Leave out the `0x` that otherwise precedes the hex digits.
    pub no_0x: bool,
    /// Treat every input line as a unit of its own, with its own output line.
    pub each_line_output: bool,
    /// Put the input text and one space in front of the digest.
    ///
    /// In whole-input mode this is only allowed for input of at most one line.
    pub is_include_input: bool,
}

/// The formatting machinery reported a failure while hex digits were written.
#[derive(Debug, Clone, Copy, PartialEq, Eq, Structural)]
pub struct EncodeError;

impl EncodeError {
    /// The text of the diagnostic for a failure to write hex digits.
    pub open spec fn message_text(self) -> Seq<char> {
        "Error encoding; err=an error occurred when formatting"@
    }

    /// The diagnostic for a failure to write hex digits.
    pub fn message(&self) -> (text: String)
        ensures
            text@ == self.message_text(),
    {
        String::from_str("Error encoding; err=an error occurred when formatting")
    }
}

/// The reasons for which a run ends early, with a diagnostic and the exit
/// status 1.
#[derive(Debug, Clone, PartialEq, Eq)]
pub enum FatalError {
    /// A line could not be read or decoded. The field holds the cause in words.
    ReadingInput(String),
    /// `is_include_input` was set in whole-input mode, and the input had more
    /// than one line.
    IncludeInputOnMultipleLines,
    /// The digest of the whole input could not be written as hex digits.
    Encoding(EncodeError),
}

impl FatalError {
    /// The text of the diagnostic for this error.
    pub open spec fn message_text(self) -> Seq<char> {
        match self {
            FatalError::ReadingInput(cause) => "Error reading input; err="@ + cause@,
            FatalError::IncludeInputOnMultipleLines => "Error, cannot use --include-input on multiple lines input.\nThis flag is meant to be used for a single line text input only."@,
            FatalError::Encoding(e) => e.message_text(),
        }
    }

    /// The diagnostic for this error, as it is shown to the user.
    pub fn message(&self) -> (text: String)
        ensures
            text@ == self.message_text(),
    {
        match self {
            FatalError::ReadingInput(cause) => {
                let mut text = String::from_str("Error reading input; err=");
                text.append(cause.as_str());
                text
            },
            FatalError::IncludeInputOnMultipleLines => String::from_str(
                "Error, cannot use --include-input on multiple lines input.\nThis flag is meant to be used for a single line text input only.",
            ),
            FatalError::Encoding(e) => e.message(),
        }
    }
}

} // verus!
