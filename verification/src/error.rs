//! The failures that an operation can report.

use vstd::prelude::*;

verus! {

/// Why an operation was refused. A refused operation changes nothing.
#[derive(Clone, Copy, Debug, PartialEq, Eq, Structural)]
pub enum ErrorCode {
    /// The collection has already issued as many passes as it may.
    MaxSupplyReached,
    /// A record is already stored at the address derived for the new one.
    AlreadyExists,
    /// The caller is not, or has not proved to be, the principal that the
    /// operation is reserved for.
    Unauthorized,
    /// The payment for a pass was not moved from the buyer to the organizer.
    TransferFailed,
}

impl ErrorCode {
    /// The text shown to a user for this failure.
    pub fn message(&self) -> (text: &'static str)
        ensures
            self is MaxSupplyReached ==> text@ == "Maximum supply reached for this pass collection"@,
            self is AlreadyExists ==> text@ == "A record already exists at the derived address"@,
            self is Unauthorized ==> text@ == "The caller is not authorized for this operation"@,
            self is TransferFailed ==> text@ == "The payment could not be transferred"@,
    {
        match self {
            ErrorCode::MaxSupplyReached => "Maximum supply reached for this pass collection",
            ErrorCode::AlreadyExists => "A record already exists at the derived address",
            ErrorCode::Unauthorized => "The caller is not authorized for this operation",
            ErrorCode::TransferFailed => "The payment could not be transferred",
        }
    }
}

} // verus!
