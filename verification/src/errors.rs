use vstd::prelude::*;

verus! {

/// Errors surfaced by the data-movement core.
///
/// Validation errors are detected before any data is touched; structural
/// errors abort a transfer when unexpected content turns up; I/O errors wrap
/// a storage failure with the place it occurred; process failures come from
/// supervised external processes.
#[derive(Clone, Debug)]
pub enum CoreError {
    /// Malformed locator syntax, or a requested capability, policy or
    /// argument outside an endpoint's advertised features.
    Validation { message: String },
    /// An open/read/write/list failure against the underlying storage.
    Io { message: String },
    /// Unexpected content met during traversal or parsing.
    UnexpectedContent { message: String },
    /// A nonzero exit or launch failure of a supervised external process.
    ProcessFailure { message: String },
}

impl CoreError {
    /// The description carried by this error, as a sequence of characters.
    pub open spec fn message_view(&self) -> Seq<char> {
        match self {
            CoreError::Validation { message } => message@,
            CoreError::Io { message } => message@,
            CoreError::UnexpectedContent { message } => message@,
            CoreError::ProcessFailure { message } => message@,
        }
    }

    /// The human-readable description carried by this error.
    pub fn message(&self) -> (m: &String)
        ensures
            m@ == self.message_view(),
    {
        match self {
            CoreError::Validation { message } => message,
            CoreError::Io { message } => message,
            CoreError::UnexpectedContent { message } => message,
            CoreError::ProcessFailure { message } => message,
        }
    }
}

} // verus!
