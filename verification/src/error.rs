//! The ways an operation on a will or a token can fail.

use vstd::prelude::*;

verus! {

/// Why an operation was refused. A refused operation changes nothing.
#[derive(Clone, Copy, Debug, PartialEq, Eq, Structural)]
pub enum WillError {
    /// No record is stored under the given id.
    NotFound,
    /// The caller is not the principal that the operation asks for.
    Unauthorized,
    /// The record's status does not allow the operation.
    InvalidTransition,
    /// The beneficiary shares do not add up to the whole.
    InvalidShares,
    /// A record is already stored under the id that was derived.
    AlreadyExists,
    /// Execution was asked for while an execution condition is not satisfied.
    ConditionsNotMet,
}

impl WillError {
    /// A short description of the failure.
    pub fn message(&self) -> (text: &'static str)
        ensures
            text@ == error_text(*self),
    {
        match self {
            WillError::NotFound => "Will not found",
            WillError::Unauthorized => "Caller is not authorized",
            WillError::InvalidTransition => "Status does not allow this transition",
            WillError::InvalidShares => "Total beneficiary shares must equal 100%",
            WillError::AlreadyExists => "Will already exists",
            WillError::ConditionsNotMet => "Execution conditions not met",
        }
    }
}

/// The text that describes each failure.
pub open spec fn error_text(error: WillError) -> Seq<char> {
    match error {
        WillError::NotFound => "Will not found"@,
        WillError::Unauthorized => "Caller is not authorized"@,
        WillError::InvalidTransition => "Status does not allow this transition"@,
        WillError::InvalidShares => "Total beneficiary shares must equal 100%"@,
        WillError::AlreadyExists => "Will already exists"@,
        WillError::ConditionsNotMet => "Execution conditions not met"@,
    }
}

} // verus!
