//! Why a request on a project record was turned down.

use vstd::prelude::*;

verus! {

/// A request that the record model rejects. A rejected request changes
/// nothing.
#[derive(Debug, Clone, Copy, PartialEq, Eq, Structural)]
pub enum ValidationError {
    /// The craft given is none of crochet, knitting, both.
    UnknownCraft,
    /// The status given is none of not-started, in-progress, finished.
    UnknownStatus,
    /// The progress given is below 0 or above 100.
    InvalidProgressRange,
    /// The current row is already the largest that can be recorded.
    RowLimitReached,
}

impl ValidationError {
    /// The text shown to the user for this error.
    pub open spec fn message_text(self) -> Seq<char> {
        match self {
            ValidationError::UnknownCraft => "craft can be crochet, knitting or both"@,
            ValidationError::UnknownStatus => "status can be not-started, in-progress or finished"@,
            ValidationError::InvalidProgressRange => "progress can be between 0 and 100"@,
            ValidationError::RowLimitReached => "current row cannot be incremented any further"@,
        }
    }

    /// Renders the error as a line for the user.
    pub fn message(&self) -> (text: String)
        ensures
            text@ == self.message_text(),
    {
        match self {
            ValidationError::UnknownCraft => "craft can be crochet, knitting or both".to_owned(),
            ValidationError::UnknownStatus => {
                "status can be not-started, in-progress or finished".to_owned()
            },
            ValidationError::InvalidProgressRange => "progress can be between 0 and 100".to_owned(),
            ValidationError::RowLimitReached => {
                "current row cannot be incremented any further".to_owned()
            },
        }
    }
}

} // verus!
