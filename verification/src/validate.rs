//! Per-instruction precondition checks, run before any mutation.

use vstd::prelude::*;

use crate::errors::EscrowError;
use crate::instruction::Instruction;
use crate::record::{ContractRecord, Identity};

verus! {

/// The host-supplied call context: the identities standing at the
/// instruction's account positions, the amount a deposit supplies, and the
/// current logical time from the host's clock. The core never reads a
/// clock itself.
#[derive(Clone, Copy, Debug)]
pub struct CallContext {
    /// The identity signing the instruction; for a deposit, the depositor.
    pub signer: Identity,
    /// The identity at the seller's account position.
    pub seller_account: Identity,
    /// The identity at the buyer's account position.
    pub buyer_account: Identity,
    /// The amount supplied with a deposit.
    pub amount: u64,
    /// The current logical time, for the deadline comparison.
    pub now: u64,
}

/// The party expected to deposit the given asset: the seller deposits the
/// native settlement asset, the buyer the stablecoin.
pub open spec fn spec_expected_depositor(record: ContractRecord, is_settlement: bool) -> Identity {
    if is_settlement {
        record.seller_identity
    } else {
        record.buyer_identity
    }
}

/// The exact amount the given asset's deposit must supply.
pub open spec fn spec_expected_amount(record: ContractRecord, is_settlement: bool) -> u64 {
    if is_settlement {
        record.settlement_amount
    } else {
        record.stablecoin_price
    }
}

/// The deposited flag for the given asset's deposit.
pub open spec fn spec_deposited_flag(record: ContractRecord, is_settlement: bool) -> bool {
    if is_settlement {
        record.seller_deposited
    } else {
        record.buyer_deposited
    }
}

/// Deposit preconditions, checked in this order: the record must not be
/// terminal, the signer must be the asset's expected party, the amount
/// must equal the recorded amount exactly, and the party's flag must still
/// be false — a duplicate deposit is rejected, never silently accepted.
pub open spec fn spec_validate_deposit(
    record: ContractRecord,
    ctx: CallContext,
    is_settlement: bool,
) -> Result<(), EscrowError> {
    if record.spec_is_terminal() {
        Err(EscrowError::PreconditionFailed)
    } else if ctx.signer != spec_expected_depositor(record, is_settlement) {
        Err(EscrowError::Unauthorized)
    } else if ctx.amount != spec_expected_amount(record, is_settlement) {
        Err(EscrowError::InvalidAmount)
    } else if spec_deposited_flag(record, is_settlement) {
        Err(EscrowError::AlreadyDeposited)
    } else {
        Ok(())
    }
}

/// Exchange preconditions: both deposits must be in and the record must
/// not be terminal — else `PreconditionFailed` — and the supplied account
/// identities must match the recorded parties, else `Unauthorized`.
pub open spec fn spec_validate_exchange(record: ContractRecord, ctx: CallContext) -> Result<
    (),
    EscrowError,
> {
    if !record.seller_deposited || !record.buyer_deposited || record.spec_is_terminal() {
        Err(EscrowError::PreconditionFailed)
    } else if ctx.seller_account != record.seller_identity || ctx.buyer_account
        != record.buyer_identity {
        Err(EscrowError::Unauthorized)
    } else {
        Ok(())
    }
}

/// Refund preconditions: the current time must be strictly past the
/// deadline and the record must not be terminal — else
/// `PreconditionFailed`, which also rejects a second refund — and at least
/// one party must have deposited, else `NothingToRefund`.
pub open spec fn spec_validate_refund(record: ContractRecord, ctx: CallContext) -> Result<
    (),
    EscrowError,
> {
    if ctx.now <= record.deadline {
        Err(EscrowError::PreconditionFailed)
    } else if record.spec_is_terminal() {
        Err(EscrowError::PreconditionFailed)
    } else if !record.seller_deposited && !record.buyer_deposited {
        Err(EscrowError::NothingToRefund)
    } else {
        Ok(())
    }
}

/// The preconditions of any instruction against the record.
pub open spec fn spec_validate_transaction(
    record: ContractRecord,
    instruction: Instruction,
    ctx: CallContext,
) -> Result<(), EscrowError> {
    match instruction {
        Instruction::Deposit { is_settlement } => spec_validate_deposit(record, ctx, is_settlement),
        Instruction::Exchange => spec_validate_exchange(record, ctx),
        Instruction::Refund => spec_validate_refund(record, ctx),
    }
}

/// Checks an instruction's preconditions against the record and context;
/// no mutation happens here or before this.
pub fn validate_transaction(
    record: &ContractRecord,
    instruction: &Instruction,
    ctx: &CallContext,
) -> (r: Result<(), EscrowError>)
    ensures
        r == spec_validate_transaction(*record, *instruction, *ctx),
{
    match instruction {
        Instruction::Deposit { is_settlement } => {
            if record.is_terminal() {
                Err(EscrowError::PreconditionFailed)
            } else {
                let expected = if *is_settlement {
                    &record.seller_identity
                } else {
                    &record.buyer_identity
                };
                let expected_amount = if *is_settlement {
                    record.settlement_amount
                } else {
                    record.stablecoin_price
                };
                let flag = if *is_settlement {
                    record.seller_deposited
                } else {
                    record.buyer_deposited
                };
                if !(ctx.signer == *expected) {
                    Err(EscrowError::Unauthorized)
                } else if ctx.amount != expected_amount {
                    Err(EscrowError::InvalidAmount)
                } else if flag {
                    Err(EscrowError::AlreadyDeposited)
                } else {
                    Ok(())
                }
            }
        },
        Instruction::Exchange => {
            if !record.seller_deposited || !record.buyer_deposited || record.is_terminal() {
                Err(EscrowError::PreconditionFailed)
            } else if !(ctx.seller_account == record.seller_identity) || !(ctx.buyer_account
                == record.buyer_identity) {
                Err(EscrowError::Unauthorized)
            } else {
                Ok(())
            }
        },
        Instruction::Refund => {
            if ctx.now <= record.deadline {
                Err(EscrowError::PreconditionFailed)
            } else if record.is_terminal() {
                Err(EscrowError::PreconditionFailed)
            } else if !record.seller_deposited && !record.buyer_deposited {
                Err(EscrowError::NothingToRefund)
            } else {
                Ok(())
            }
        },
    }
}

} // verus!
