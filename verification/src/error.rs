//! The ways in which a borrow or a repayment is refused.

use vstd::prelude::*;

verus! {

/// Why an operation was refused. Every refusal is final: the host aborts the
/// whole transaction and nothing of it remains.
#[derive(Clone, Copy, Debug, PartialEq, Eq, Structural)]
pub enum ProtocolError {
    /// The borrow is not the first call, or the last call is not a repayment.
    InvalidIx,
    InvalidInstructionIndex,
    /// The amount to borrow is zero.
    InvalidAmount,
    NotEnoughFunds,
    ProgramMismatch,
    /// The last call addresses another program.
    InvalidProgram,
    /// The last call names another borrower token account.
    InvalidBorrowerAta,
    /// The last call names another reserve token account.
    InvalidProtocolAta,
    /// The transaction has no last call to repay with.
    MissingRepayIx,
    /// The transaction has no first call to read the borrowed amount from.
    MissingBorrowIx,
    /// The amount owed does not fit in 64 bits.
    Overflow,
}

/// The message that goes with each refusal.
pub open spec fn message_of(error: ProtocolError) -> Seq<char> {
    match error {
        ProtocolError::InvalidIx => "Invalid instruction"@,
        ProtocolError::InvalidInstructionIndex => "Invalid instruction index"@,
        ProtocolError::InvalidAmount => "Invalid amount"@,
        ProtocolError::NotEnoughFunds => "Not enough funds"@,
        ProtocolError::ProgramMismatch => "Program Mismatch"@,
        ProtocolError::InvalidProgram => "Invalid program"@,
        ProtocolError::InvalidBorrowerAta => "Invalid borrower ATA"@,
        ProtocolError::InvalidProtocolAta => "Invalid protocol ATA"@,
        ProtocolError::MissingRepayIx => "Missing repay instruction"@,
        ProtocolError::MissingBorrowIx => "Missing borrow instruction"@,
        ProtocolError::Overflow => "Overflow"@,
    }
}

impl ProtocolError {
    /// The message that goes with this refusal.
    pub fn message(&self) -> (text: &'static str)
        ensures
            text@ == message_of(*self),
    {
        match self {
            ProtocolError::InvalidIx => "Invalid instruction",
            ProtocolError::InvalidInstructionIndex => "Invalid instruction index",
            ProtocolError::InvalidAmount => "Invalid amount",
            ProtocolError::NotEnoughFunds => "Not enough funds",
            ProtocolError::ProgramMismatch => "Program Mismatch",
            ProtocolError::InvalidProgram => "Invalid program",
            ProtocolError::InvalidBorrowerAta => "Invalid borrower ATA",
            ProtocolError::InvalidProtocolAta => "Invalid protocol ATA",
            ProtocolError::MissingRepayIx => "Missing repay instruction",
            ProtocolError::MissingBorrowIx => "Missing borrow instruction",
            ProtocolError::Overflow => "Overflow",
        }
    }
}

} // verus!
