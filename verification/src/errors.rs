//! The error kinds that instruction processing can surface.

use vstd::prelude::*;

verus! {

/// Every way an instruction can fail. Each failure is a distinct,
/// inspectable kind; none of them is retried by the core.
#[derive(Clone, Copy, Debug, PartialEq, Eq, Structural)]
pub enum EscrowError {
    /// The instruction data is empty or its leading discriminator is
    /// unknown, or a required payload byte is missing or malformed.
    InvalidInstruction,
    /// The supplied identity is not the expected party for the role.
    Unauthorized,
    /// A deposit's amount differs from the recorded amount for its asset.
    InvalidAmount,
    /// The depositing party's flag is already set; deposits are not
    /// idempotent, a duplicate would over-collect funds.
    AlreadyDeposited,
    /// A transition's state precondition does not hold: exchange before
    /// both deposits, refund before the deadline, or any mutating
    /// instruction against a terminal record.
    PreconditionFailed,
    /// A refund was attempted while neither party has deposited.
    NothingToRefund,
    /// The host's transfer primitive reported failure for one leg.
    TransferFailure,
}

impl EscrowError {
    /// A human-readable description of the failure.
    pub fn message(&self) -> String {
        match self {
            EscrowError::InvalidInstruction => "invalid instruction data".to_string(),
            EscrowError::Unauthorized => "identity does not match the expected party".to_string(),
            EscrowError::InvalidAmount => "deposit amount does not match the recorded amount".to_string(),
            EscrowError::AlreadyDeposited => "this party has already deposited".to_string(),
            EscrowError::PreconditionFailed => "state preconditions for this instruction do not hold".to_string(),
            EscrowError::NothingToRefund => "neither party has deposited anything to refund".to_string(),
            EscrowError::TransferFailure => "an asset transfer failed".to_string(),
        }
    }
}

} // verus!
