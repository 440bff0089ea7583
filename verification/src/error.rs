//! The failures that the library reports.

use vstd::prelude::*;

verus! {

/// What went wrong in a call.
#[derive(Clone, Copy, Debug, PartialEq, Eq, Structural)]
pub enum TodoError {
    /// A title or a list name was empty.
    InvalidInput,
    /// No item has the given id, or no document is stored under the given identifier.
    NotFound,
    /// A stored document could not be parsed, or what it holds is no valid list.
    CorruptData,
    /// The storage itself failed.
    StorageFailure,
}

impl TodoError {
    /// A short description of the failure.
    pub fn message(&self) -> (text: &'static str)
        ensures
            text@ == match *self {
                TodoError::InvalidInput => "invalid input"@,
                TodoError::NotFound => "not found"@,
                TodoError::CorruptData => "corrupt data"@,
                TodoError::StorageFailure => "storage failure"@,
            },
    {
        match self {
            TodoError::InvalidInput => "invalid input",
            TodoError::NotFound => "not found",
            TodoError::CorruptData => "corrupt data",
            TodoError::StorageFailure => "storage failure",
        }
    }
}

} // verus!
