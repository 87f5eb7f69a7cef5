//! The failures that the vault operations report.

use vstd::prelude::*;

verus! {

/// Why an operation on a vault was refused. A refused operation leaves the
/// vault exactly as it was.
#[derive(Clone, Copy, Debug, PartialEq, Eq, Structural)]
pub enum CustomError {
    /// The caller is not the owner of the vault.
    Unauthorized,
    /// The index does not name an entry of the vault.
    InvalidIndex,
    /// The vault already holds as many entries as it may.
    CapacityExceeded,
    /// A title, username or password is longer than its cap.
    FieldTooLong,
    /// The owner already has a vault.
    AlreadyExists,
}

impl CustomError {
    /// The message that goes with the failure.
    pub fn message(&self) -> (text: &'static str)
        ensures
            text@ == self.message_text(),
    {
        match self {
            CustomError::Unauthorized => "Unauthorized access.",
            CustomError::InvalidIndex => "Invalid index provided for the vault entry.",
            CustomError::CapacityExceeded => "The vault holds the maximum number of entries.",
            CustomError::FieldTooLong => "A field of the entry exceeds its maximum length.",
            CustomError::AlreadyExists => "A vault already exists for this owner.",
        }
    }

    /// The characters of [`CustomError::message`].
    pub open spec fn message_text(&self) -> Seq<char> {
        match self {
            CustomError::Unauthorized => "Unauthorized access."@,
            CustomError::InvalidIndex => "Invalid index provided for the vault entry."@,
            CustomError::CapacityExceeded => "The vault holds the maximum number of entries."@,
            CustomError::FieldTooLong => "A field of the entry exceeds its maximum length."@,
            CustomError::AlreadyExists => "A vault already exists for this owner."@,
        }
    }
}

} // verus!
