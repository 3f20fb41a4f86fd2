//! The escrow's global guarantees, proved once over the spec functions
//! that the handlers' contracts use.

use vstd::prelude::*;

use crate::errors::EscrowError;
use crate::executor::{spec_execute_instruction, spec_settle, spec_settle_from, TransferFaults};
use crate::handlers::{
    spec_deposit_record, spec_exchange_first_leg, spec_exchange_record, spec_exchange_second_leg,
    spec_process_instruction, spec_refund_record, spec_refund_requests,
};
use crate::instruction::{spec_parse_instruction, Instruction};
use crate::ledger::{Asset, Balances, Holder, TransferRequest};
use crate::record::ContractRecord;
use crate::validate::{
    spec_deposited_flag, spec_validate_deposit, spec_validate_exchange, spec_validate_refund,
    CallContext,
};

verus! {

/// A valid deposit flips its party's flag false to true exactly once, and
/// changes nothing else; the same deposit offered again is rejected with
/// `AlreadyDeposited`, so the flag can never be collected twice.
pub proof fn lemma_deposit_once(record: ContractRecord, ctx: CallContext, is_settlement: bool)
    requires
        record.wf(),
        spec_validate_deposit(record, ctx, is_settlement) is Ok,
    ensures
        !spec_deposited_flag(record, is_settlement),
        spec_deposited_flag(spec_deposit_record(record, is_settlement), is_settlement),
        spec_deposit_record(record, is_settlement).wf(),
        spec_deposit_record(record, is_settlement).same_immutable_fields(record),
        spec_deposit_record(record, is_settlement).outcome == record.outcome,
        spec_deposited_flag(spec_deposit_record(record, is_settlement), !is_settlement)
            == spec_deposited_flag(record, !is_settlement),
        spec_validate_deposit(spec_deposit_record(record, is_settlement), ctx, is_settlement)
            == Err::<(), EscrowError>(EscrowError::AlreadyDeposited),
{
}

/// Exchange fails with `PreconditionFailed` whenever either deposited flag
/// is still false; it succeeds only from the state where both are true and
/// the record is still pending, and then it flips `exchange_completed` to
/// true exactly once — the completed record rejects a second exchange.
pub proof fn lemma_exchange_once(record: ContractRecord, ctx: CallContext)
    requires
        record.wf(),
    ensures
        !record.seller_deposited || !record.buyer_deposited ==> spec_validate_exchange(record, ctx)
            == Err::<(), EscrowError>(EscrowError::PreconditionFailed),
        spec_validate_exchange(record, ctx) is Ok ==> {
            &&& record.seller_deposited && record.buyer_deposited
            &&& !record.spec_is_terminal()
            &&& !record.spec_exchange_completed()
            &&& spec_exchange_record(record).spec_exchange_completed()
            &&& spec_exchange_record(record).wf()
            &&& spec_exchange_record(record).same_immutable_fields(record)
            &&& spec_validate_exchange(spec_exchange_record(record), ctx) == Err::<
                (),
                EscrowError,
            >(EscrowError::PreconditionFailed)
        },
{
}

/// Refund fails with `PreconditionFailed` when the deadline has not
/// strictly passed or the record is already terminal — in particular after
/// a completed exchange, and after a prior refund — and with
/// `NothingToRefund` when neither party has deposited. When it succeeds it
/// refunds exactly the deposited parties, native to the seller first, and
/// marks the record `Refunded`, after which every refund is rejected.
pub proof fn lemma_refund_fallback(record: ContractRecord, ctx: CallContext)
    requires
        record.wf(),
    ensures
        ctx.now <= record.deadline ==> spec_validate_refund(record, ctx) == Err::<
            (),
            EscrowError,
        >(EscrowError::PreconditionFailed),
        record.spec_is_terminal() && ctx.now > record.deadline ==> spec_validate_refund(record, ctx)
            == Err::<(), EscrowError>(EscrowError::PreconditionFailed),
        ctx.now > record.deadline && !record.spec_is_terminal() && !record.seller_deposited
            && !record.buyer_deposited ==> spec_validate_refund(record, ctx) == Err::<
            (),
            EscrowError,
        >(EscrowError::NothingToRefund),
        spec_validate_refund(record, ctx) is Ok ==> {
            &&& spec_refund_record(record).spec_refunded()
            &&& spec_refund_record(record).wf()
            &&& spec_refund_record(record).same_immutable_fields(record)
            &&& spec_validate_refund(spec_refund_record(record), ctx) == Err::<
                (),
                EscrowError,
            >(EscrowError::PreconditionFailed)
            &&& (record.seller_deposited && record.buyer_deposited ==> spec_refund_requests(record)
                =~= seq![
                TransferRequest {
                    asset: Asset::Native,
                    source: Holder::Escrow,
                    dest: Holder::Seller,
                    amount: record.settlement_amount,
                },
                TransferRequest {
                    asset: Asset::Stable(record.stablecoin_kind),
                    source: Holder::Escrow,
                    dest: Holder::Buyer,
                    amount: record.stablecoin_price,
                },
            ])
            &&& (record.seller_deposited && !record.buyer_deposited ==> spec_refund_requests(
                record,
            ) =~= seq![
                TransferRequest {
                    asset: Asset::Native,
                    source: Holder::Escrow,
                    dest: Holder::Seller,
                    amount: record.settlement_amount,
                },
            ])
            &&& (!record.seller_deposited && record.buyer_deposited ==> spec_refund_requests(
                record,
            ) =~= seq![
                TransferRequest {
                    asset: Asset::Stable(record.stablecoin_kind),
                    source: Holder::Escrow,
                    dest: Holder::Buyer,
                    amount: record.stablecoin_price,
                },
            ])
        },
{
}

/// Every instruction the dispatcher accepts keeps the record invariant:
/// starting well-formed, the successor record is well-formed too.
pub proof fn lemma_process_preserves_wf(record: ContractRecord, ctx: CallContext, data: Seq<u8>)
    requires
        record.wf(),
    ensures
        spec_process_instruction(record, ctx, data) matches Ok(step) ==> step.0.wf(),
{
}

/// A terminal record — exchanged or refunded — accepts no instruction at
/// all: whatever the bytes decode to, the dispatcher returns an error and
/// the record can never change again.
pub proof fn lemma_terminal_rejects_all(record: ContractRecord, ctx: CallContext, data: Seq<u8>)
    requires
        record.wf(),
        record.spec_is_terminal(),
    ensures
        spec_process_instruction(record, ctx, data) is Err,
{
}

/// A valid Exchange against an escrow funded as the flags promise, with a
/// fault-free host, succeeds and pays out exactly the swap: the buyer
/// gains the settlement amount in native units, the seller gains the price
/// in stablecoin units, both straight out of escrow, and nothing else
/// moves.
pub proof fn lemma_exchange_pays_out(
    record: ContractRecord,
    balances: Balances,
    ctx: CallContext,
    data: Seq<u8>,
    faults: TransferFaults,
)
    requires
        record.wf(),
        spec_parse_instruction(data) == Ok::<Instruction, EscrowError>(Instruction::Exchange),
        spec_validate_exchange(record, ctx) is Ok,
        !faults.fail_first,
        !faults.fail_second,
        balances.escrow_native >= record.settlement_amount,
        balances.escrow_stable >= record.stablecoin_price,
        balances.buyer_native + record.settlement_amount <= u64::MAX,
        balances.seller_stable + record.stablecoin_price <= u64::MAX,
    ensures
        spec_execute_instruction(record, balances, ctx, data, faults) matches Ok(out) && {
            &&& out.0 == spec_exchange_record(record)
            &&& out.1.buyer_native == balances.buyer_native + record.settlement_amount
            &&& out.1.seller_stable == balances.seller_stable + record.stablecoin_price
            &&& out.1.escrow_native == balances.escrow_native - record.settlement_amount
            &&& out.1.escrow_stable == balances.escrow_stable - record.stablecoin_price
            &&& out.1.seller_native == balances.seller_native
            &&& out.1.buyer_stable == balances.buyer_stable
        },
{
    let requests = seq![spec_exchange_first_leg(record), spec_exchange_second_leg(record)];
    let b1 = crate::ledger::spec_apply_transfer(balances, requests[0]).unwrap();
    let b2 = crate::ledger::spec_apply_transfer(b1, requests[1]).unwrap();
    assert(spec_settle_from(b2, requests, faults, 2) == Ok::<Balances, EscrowError>(b2));
    assert(spec_settle_from(b1, requests, faults, 1) == Ok::<Balances, EscrowError>(b2));
    assert(spec_settle(balances, requests, faults) == Ok::<Balances, EscrowError>(b2));
}

/// A valid Refund against an escrow funded as the flags promise, with a
/// fault-free host, succeeds and returns exactly what each party put in:
/// the made deposits go back to their depositors, straight out of escrow,
/// and a party that never deposited sees no movement at all.
pub proof fn lemma_refund_pays_back(
    record: ContractRecord,
    balances: Balances,
    ctx: CallContext,
    data: Seq<u8>,
    faults: TransferFaults,
)
    requires
        record.wf(),
        spec_parse_instruction(data) == Ok::<Instruction, EscrowError>(Instruction::Refund),
        spec_validate_refund(record, ctx) is Ok,
        !faults.fail_first,
        !faults.fail_second,
        record.seller_deposited ==> balances.escrow_native >= record.settlement_amount
            && balances.seller_native + record.settlement_amount <= u64::MAX,
        record.buyer_deposited ==> balances.escrow_stable >= record.stablecoin_price
            && balances.buyer_stable + record.stablecoin_price <= u64::MAX,
    ensures
        spec_execute_instruction(record, balances, ctx, data, faults) matches Ok(out) && {
            &&& out.0 == spec_refund_record(record)
            &&& out.1.seller_native == balances.seller_native + (if record.seller_deposited {
                record.settlement_amount as int
            } else {
                0int
            })
            &&& out.1.escrow_native == balances.escrow_native - (if record.seller_deposited {
                record.settlement_amount as int
            } else {
                0int
            })
            &&& out.1.buyer_stable == balances.buyer_stable + (if record.buyer_deposited {
                record.stablecoin_price as int
            } else {
                0int
            })
            &&& out.1.escrow_stable == balances.escrow_stable - (if record.buyer_deposited {
                record.stablecoin_price as int
            } else {
                0int
            })
            &&& out.1.seller_stable == balances.seller_stable
            &&& out.1.buyer_native == balances.buyer_native
        },
{
    let requests = spec_refund_requests(record);
    if record.seller_deposited && record.buyer_deposited {
        let b1 = crate::ledger::spec_apply_transfer(balances, requests[0]).unwrap();
        let b2 = crate::ledger::spec_apply_transfer(b1, requests[1]).unwrap();
        assert(spec_settle_from(b2, requests, faults, 2) == Ok::<Balances, EscrowError>(b2));
        assert(spec_settle_from(b1, requests, faults, 1) == Ok::<Balances, EscrowError>(b2));
        assert(spec_settle(balances, requests, faults) == Ok::<Balances, EscrowError>(b2));
    } else {
        let b1 = crate::ledger::spec_apply_transfer(balances, requests[0]).unwrap();
        assert(spec_settle_from(b1, requests, faults, 1) == Ok::<Balances, EscrowError>(b1));
        assert(spec_settle(balances, requests, faults) == Ok::<Balances, EscrowError>(b1));
    }
}

/// Atomicity of the exchange: when the host's transfer primitive fails the
/// second leg, executing an Exchange instruction yields an error and no
/// new state — the first leg's effect and the completion flag are rolled
/// up with it, so no partial exchange is ever observable.
pub proof fn lemma_exchange_atomic(
    record: ContractRecord,
    balances: Balances,
    ctx: CallContext,
    data: Seq<u8>,
    faults: TransferFaults,
)
    requires
        spec_parse_instruction(data) == Ok::<Instruction, EscrowError>(Instruction::Exchange),
        faults.fail_second,
    ensures
        spec_execute_instruction(record, balances, ctx, data, faults) is Err,
{
    match spec_process_instruction(record, ctx, data) {
        Err(_) => {},
        Ok(step) => {
            let requests = step.1;
            assert(requests =~= seq![
                spec_exchange_first_leg(record),
                spec_exchange_second_leg(record),
            ]);
            if !faults.fail_first {
                match crate::ledger::spec_apply_transfer(balances, requests[0]) {
                    Err(_) => {},
                    Ok(b1) => {
                        assert(spec_settle_from(b1, requests, faults, 1) is Err);
                    },
                }
            }
            assert(spec_settle(balances, requests, faults) is Err);
        },
    }
}

} // verus!
