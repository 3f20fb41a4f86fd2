//! Decoding raw instruction bytes into the closed set of instructions.

use vstd::prelude::*;

use crate::errors::EscrowError;

verus! {

/// The closed set of instructions the escrow accepts. Dispatch matches on
/// this exhaustively, so a new kind would have to be handled everywhere.
#[derive(Clone, Copy, Debug, PartialEq, Eq, Structural)]
pub enum Instruction {
    /// A party pays its asset into escrow. `is_settlement` selects the
    /// asset: true for the native settlement asset (the seller's deposit),
    /// false for the stablecoin (the buyer's deposit).
    Deposit { is_settlement: bool },
    /// Swap the two escrowed assets to their buyers in one atomic unit.
    Exchange,
    /// After the deadline, return each deposit to its depositor.
    Refund,
}

/// What `parse_instruction_data` yields for given bytes. The wire form is
/// one discriminator byte — 0 deposit, 1 exchange, 2 refund — and, for
/// deposit, one payload byte selecting the asset: 0 stablecoin, 1 native.
/// Bytes past an instruction's fixed form carry no meaning and are ignored.
pub open spec fn spec_parse_instruction(data: Seq<u8>) -> Result<Instruction, EscrowError> {
    if data.len() == 0 {
        Err(EscrowError::InvalidInstruction)
    } else if data[0] == 0 {
        if data.len() < 2 {
            Err(EscrowError::InvalidInstruction)
        } else if data[1] == 0 {
            Ok(Instruction::Deposit { is_settlement: false })
        } else if data[1] == 1 {
            Ok(Instruction::Deposit { is_settlement: true })
        } else {
            Err(EscrowError::InvalidInstruction)
        }
    } else if data[0] == 1 {
        Ok(Instruction::Exchange)
    } else if data[0] == 2 {
        Ok(Instruction::Refund)
    } else {
        Err(EscrowError::InvalidInstruction)
    }
}

/// Maps raw instruction bytes to an instruction. Fails with
/// `InvalidInstruction` exactly when the input is empty, the leading
/// discriminator is unknown, or a deposit lacks a valid asset byte.
pub fn parse_instruction_data(data: &[u8]) -> (r: Result<Instruction, EscrowError>)
    ensures
        r == spec_parse_instruction(data@),
{
    if data.len() == 0 {
        return Err(EscrowError::InvalidInstruction);
    }
    match data[0] {
        0 => {
            if data.len() < 2 {
                Err(EscrowError::InvalidInstruction)
            } else if data[1] == 0 {
                Ok(Instruction::Deposit { is_settlement: false })
            } else if data[1] == 1 {
                Ok(Instruction::Deposit { is_settlement: true })
            } else {
                Err(EscrowError::InvalidInstruction)
            }
        },
        1 => Ok(Instruction::Exchange),
        2 => Ok(Instruction::Refund),
        _ => Err(EscrowError::InvalidInstruction),
    }
}

} // verus!
