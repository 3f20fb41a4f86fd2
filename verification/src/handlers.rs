//! The three transition handlers and the dispatcher.
//!
//! Each handler validates, then returns the successor record together with
//! the transfer requests the host must perform. Nothing is mutated in
//! place: the caller commits the returned record (and the transfers'
//! effects) only when the whole instruction succeeds, so a failure leaves
//! no partial state behind. The handlers never attempt compensation for a
//! failed leg themselves — they surface the failure and leave the rollback
//! to that commit discipline.

use vstd::prelude::*;

use crate::errors::EscrowError;
use crate::instruction::{spec_parse_instruction, parse_instruction_data, Instruction};
use crate::ledger::{Asset, Holder, TransferRequest};
use crate::record::{ContractRecord, Outcome};
use crate::validate::{
    spec_expected_amount, spec_validate_deposit, spec_validate_exchange, spec_validate_refund,
    spec_validate_transaction, validate_transaction, CallContext,
};

verus! {

/// A validated transition: the record to persist on success, and the
/// transfer requests the host must carry out, in order, as one
/// all-or-nothing unit together with the record update.
pub struct Step {
    pub record: ContractRecord,
    pub transfers: Vec<TransferRequest>,
}

/// The record after a successful deposit: the asset's flag flips to true,
/// everything else is untouched.
pub open spec fn spec_deposit_record(record: ContractRecord, is_settlement: bool) -> ContractRecord {
    if is_settlement {
        ContractRecord { seller_deposited: true, ..record }
    } else {
        ContractRecord { buyer_deposited: true, ..record }
    }
}

/// The single transfer a deposit requests: the recorded amount of the
/// deposited asset, from the depositor into escrow.
pub open spec fn spec_deposit_request(record: ContractRecord, is_settlement: bool) -> TransferRequest {
    TransferRequest {
        asset: if is_settlement {
            Asset::Native
        } else {
            Asset::Stable(record.stablecoin_kind)
        },
        source: if is_settlement {
            Holder::Seller
        } else {
            Holder::Buyer
        },
        dest: Holder::Escrow,
        amount: spec_expected_amount(record, is_settlement),
    }
}

/// The record after a successful exchange: terminal, outcome `Exchanged`.
pub open spec fn spec_exchange_record(record: ContractRecord) -> ContractRecord {
    ContractRecord { outcome: Outcome::Exchanged, ..record }
}

/// The first exchange leg: the native settlement amount, escrow to buyer.
pub open spec fn spec_exchange_first_leg(record: ContractRecord) -> TransferRequest {
    TransferRequest {
        asset: Asset::Native,
        source: Holder::Escrow,
        dest: Holder::Buyer,
        amount: record.settlement_amount,
    }
}

/// The second exchange leg: the stablecoin price, escrow to seller.
pub open spec fn spec_exchange_second_leg(record: ContractRecord) -> TransferRequest {
    TransferRequest {
        asset: Asset::Stable(record.stablecoin_kind),
        source: Holder::Escrow,
        dest: Holder::Seller,
        amount: record.stablecoin_price,
    }
}

/// The record after a successful refund: terminal, outcome `Refunded`.
pub open spec fn spec_refund_record(record: ContractRecord) -> ContractRecord {
    ContractRecord { outcome: Outcome::Refunded, ..record }
}

/// The transfers a refund requests: each deposit that was actually made
/// goes back to its own depositor — native to the seller first, then
/// stablecoin to the buyer. A party that never deposited is untouched.
pub open spec fn spec_refund_requests(record: ContractRecord) -> Seq<TransferRequest> {
    let native = if record.seller_deposited {
        seq![
            TransferRequest {
                asset: Asset::Native,
                source: Holder::Escrow,
                dest: Holder::Seller,
                amount: record.settlement_amount,
            },
        ]
    } else {
        Seq::<TransferRequest>::empty()
    };
    let stable = if record.buyer_deposited {
        seq![
            TransferRequest {
                asset: Asset::Stable(record.stablecoin_kind),
                source: Holder::Escrow,
                dest: Holder::Buyer,
                amount: record.stablecoin_price,
            },
        ]
    } else {
        Seq::<TransferRequest>::empty()
    };
    native + stable
}

/// Handles a validated-or-not Deposit: on success the asset's flag flips
/// false to true and the matching deposit transfer is requested; on any
/// precondition violation the distinct error comes back and no state
/// changes.
pub fn handle_deposit(record: &ContractRecord, ctx: &CallContext, is_settlement: bool) -> (r:
    Result<Step, EscrowError>)
    ensures
        match r {
            Ok(step) => {
                &&& spec_validate_deposit(*record, *ctx, is_settlement) == Ok::<(), EscrowError>(())
                &&& step.record == spec_deposit_record(*record, is_settlement)
                &&& step.transfers@ == seq![spec_deposit_request(*record, is_settlement)]
            },
            Err(e) => spec_validate_deposit(*record, *ctx, is_settlement) == Err::<(), EscrowError>(
                e,
            ),
        },
        r is Ok ==> record.wf() ==> spec_deposit_record(*record, is_settlement).wf(),
{
    let instruction = Instruction::Deposit { is_settlement };
    validate_transaction(record, &instruction, ctx)?;
    let updated = if is_settlement {
        ContractRecord { seller_deposited: true, ..*record }
    } else {
        ContractRecord { buyer_deposited: true, ..*record }
    };
    let request = TransferRequest {
        asset: if is_settlement {
            Asset::Native
        } else {
            Asset::Stable(record.stablecoin_kind)
        },
        source: if is_settlement {
            Holder::Seller
        } else {
            Holder::Buyer
        },
        dest: Holder::Escrow,
        amount: ctx.amount,
    };
    let mut transfers: Vec<TransferRequest> = Vec::new();
    transfers.push(request);
    proof {
        assert(transfers@ =~= seq![spec_deposit_request(*record, is_settlement)]);
    }
    Ok(Step { record: updated, transfers })
}

/// Handles Exchange: when both deposits are in, the record is not terminal
/// and the account identities match, it requests the two legs — native to
/// the buyer, then stablecoin to the seller — and completes the record.
/// Both legs and the flag update commit as one unit or not at all; on any
/// precondition violation the distinct error comes back.
pub fn handle_exchange(record: &ContractRecord, ctx: &CallContext) -> (r: Result<
    Step,
    EscrowError,
>)
    ensures
        match r {
            Ok(step) => {
                &&& spec_validate_exchange(*record, *ctx) == Ok::<(), EscrowError>(())
                &&& step.record == spec_exchange_record(*record)
                &&& step.transfers@ == seq![
                    spec_exchange_first_leg(*record),
                    spec_exchange_second_leg(*record),
                ]
            },
            Err(e) => spec_validate_exchange(*record, *ctx) == Err::<(), EscrowError>(e),
        },
        r is Ok ==> spec_exchange_record(*record).wf(),
{
    validate_transaction(record, &Instruction::Exchange, ctx)?;
    let updated = ContractRecord { outcome: Outcome::Exchanged, ..*record };
    let mut transfers: Vec<TransferRequest> = Vec::new();
    transfers.push(TransferRequest {
        asset: Asset::Native,
        source: Holder::Escrow,
        dest: Holder::Buyer,
        amount: record.settlement_amount,
    });
    transfers.push(TransferRequest {
        asset: Asset::Stable(record.stablecoin_kind),
        source: Holder::Escrow,
        dest: Holder::Seller,
        amount: record.stablecoin_price,
    });
    proof {
        assert(transfers@ =~= seq![
            spec_exchange_first_leg(*record),
            spec_exchange_second_leg(*record),
        ]);
    }
    Ok(Step { record: updated, transfers })
}

/// Handles Refund: strictly after the deadline, on a non-terminal record
/// with at least one deposit, it requests each made deposit back to its
/// depositor and marks the record `Refunded`; refunding only one party is
/// the expected asymmetric case, not an error. On any precondition
/// violation the distinct error comes back.
pub fn handle_refund(record: &ContractRecord, ctx: &CallContext) -> (r: Result<Step, EscrowError>)
    ensures
        match r {
            Ok(step) => {
                &&& spec_validate_refund(*record, *ctx) == Ok::<(), EscrowError>(())
                &&& step.record == spec_refund_record(*record)
                &&& step.transfers@ == spec_refund_requests(*record)
            },
            Err(e) => spec_validate_refund(*record, *ctx) == Err::<(), EscrowError>(e),
        },
        r is Ok ==> spec_refund_record(*record).wf(),
{
    validate_transaction(record, &Instruction::Refund, ctx)?;
    let updated = ContractRecord { outcome: Outcome::Refunded, ..*record };
    let mut transfers: Vec<TransferRequest> = Vec::new();
    if record.seller_deposited {
        transfers.push(TransferRequest {
            asset: Asset::Native,
            source: Holder::Escrow,
            dest: Holder::Seller,
            amount: record.settlement_amount,
        });
    }
    if record.buyer_deposited {
        transfers.push(TransferRequest {
            asset: Asset::Stable(record.stablecoin_kind),
            source: Holder::Escrow,
            dest: Holder::Buyer,
            amount: record.stablecoin_price,
        });
    }
    proof {
        assert(transfers@ =~= spec_refund_requests(*record));
    }
    Ok(Step { record: updated, transfers })
}

/// What the dispatcher yields: decode, validate, and the validated
/// instruction's successor record and transfer requests; the first failing
/// stage's error otherwise.
pub open spec fn spec_process_instruction(
    record: ContractRecord,
    ctx: CallContext,
    data: Seq<u8>,
) -> Result<(ContractRecord, Seq<TransferRequest>), EscrowError> {
    match spec_parse_instruction(data) {
        Err(e) => Err(e),
        Ok(instruction) => match spec_validate_transaction(record, instruction, ctx) {
            Err(e) => Err(e),
            Ok(_) => match instruction {
                Instruction::Deposit { is_settlement } => Ok(
                    (
                        spec_deposit_record(record, is_settlement),
                        seq![spec_deposit_request(record, is_settlement)],
                    ),
                ),
                Instruction::Exchange => Ok(
                    (
                        spec_exchange_record(record),
                        seq![spec_exchange_first_leg(record), spec_exchange_second_leg(record)],
                    ),
                ),
                Instruction::Refund => Ok((spec_refund_record(record), spec_refund_requests(record))),
            },
        },
    }
}

/// The top-level entry: decode the instruction bytes, validate against the
/// record, route to the matching handler. On success the caller persists
/// the returned record and performs the transfers as one unit; on failure
/// nothing is persisted and the prior record stands untouched.
pub fn process_instruction(record: &ContractRecord, ctx: &CallContext, data: &[u8]) -> (r: Result<
    Step,
    EscrowError,
>)
    ensures
        match r {
            Ok(step) => spec_process_instruction(*record, *ctx, data@) == Ok::<
                (ContractRecord, Seq<TransferRequest>),
                EscrowError,
            >((step.record, step.transfers@)),
            Err(e) => spec_process_instruction(*record, *ctx, data@) == Err::<
                (ContractRecord, Seq<TransferRequest>),
                EscrowError,
            >(e),
        },
        record.wf() ==> (r matches Ok(step) ==> step.record.wf()),
{
    let instruction = parse_instruction_data(data)?;
    match instruction {
        Instruction::Deposit { is_settlement } => handle_deposit(record, ctx, is_settlement),
        Instruction::Exchange => handle_exchange(record, ctx),
        Instruction::Refund => handle_refund(record, ctx),
    }
}

} // verus!
