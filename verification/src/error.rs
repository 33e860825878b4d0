//! The failures that the lock can report.

use vstd::prelude::*;
use vstd::string::*;

verus! {

/// `std::io::Error`, carried through unopened: nothing is claimed about what
/// a value of it holds.
#[verifier::external_type_specification]
#[verifier::external_body]
pub struct ExIoError(std::io::Error);

/// What went wrong with the state of the mutex itself.
#[derive(Debug, Clone, Copy, PartialEq, Eq, Structural)]
pub enum MutexExceptions {
    /// The mutex was locked, or stayed locked for as long as the caller was
    /// willing to wait.
    AlreadyLocked,
    /// The mutex file does not hold a known state.
    InvalidState,
}

/// Every failure of an operation on the mutex.
#[derive(Debug)]
pub enum MutexError {
    /// The file system refused to read or write the mutex file.
    File(std::io::Error),
    /// The state of the mutex forbids the operation.
    State(MutexExceptions),
    /// Anything else, with its description; the mutex file not being text
    /// ends here.
    Generic(String),
}

impl MutexExceptions {
    /// The variant's name, as it is shown inside a message.
    pub open spec fn label(self) -> Seq<char> {
        match self {
            MutexExceptions::AlreadyLocked => "AlreadyLocked"@,
            MutexExceptions::InvalidState => "InvalidState"@,
        }
    }

    /// Returns the variant's name.
    pub fn to_string(&self) -> (name: String)
        ensures
            name@ == self.label(),
    {
        match self {
            MutexExceptions::AlreadyLocked => "AlreadyLocked".to_owned(),
            MutexExceptions::InvalidState => "InvalidState".to_owned(),
        }
    }
}

/// What every message about the mutex file starts with.
pub open spec fn file_message_prefix() -> Seq<char> {
    "Error occurred while manipulating mutex file: "@
}

/// What every message about the state of the mutex starts with.
pub open spec fn state_message_prefix() -> Seq<char> {
    "Error occurred with runtime mutex: "@
}

impl MutexError {
    /// Whether `message` is a text that describes this error.
    ///
    /// For a file error the tail of the message is whatever the operating
    /// system's error prints as; the other two kinds have exactly one
    /// message.
    pub open spec fn described_by(self, message: Seq<char>) -> bool {
        match self {
            MutexError::File(cause) => exists|detail: String|
                #[trigger] to_string_from_display_ensures::<std::io::Error>(&cause, detail)
                    && message == file_message_prefix() + detail@,
            MutexError::State(exception) => message == state_message_prefix()
                + exception.label(),
            MutexError::Generic(text) => message == text@,
        }
    }

    /// The message of a file error whose cause prints as `detail`.
    pub fn file_message(detail: &str) -> (message: String)
        ensures
            message@ == file_message_prefix() + detail@,
    {
        "Error occurred while manipulating mutex file: ".to_owned().concat(detail)
    }

    /// The message of a state error.
    pub fn state_message(exception: MutexExceptions) -> (message: String)
        ensures
            message@ == state_message_prefix() + exception.label(),
    {
        let name = exception.to_string();
        "Error occurred with runtime mutex: ".to_owned().concat(name.as_str())
    }

    /// Returns the text that describes this error to a person.
    pub fn to_string(&self) -> (message: String)
        ensures
            self.described_by(message@),
    {
        match self {
            MutexError::File(cause) => {
                let detail = cause.to_string();
                MutexError::file_message(detail.as_str())
            },
            MutexError::State(exception) => MutexError::state_message(*exception),
            MutexError::Generic(text) => text.clone(),
        }
    }
}

} // verus!
