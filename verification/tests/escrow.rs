use sol_stables_transaction::errors::EscrowError;
use sol_stables_transaction::executor::{execute_instruction, TransferFaults};
use sol_stables_transaction::handlers::{
    handle_deposit, handle_exchange, handle_refund, process_instruction,
};
use sol_stables_transaction::instruction::{parse_instruction_data, Instruction};
use sol_stables_transaction::ledger::{Asset, Balances, Holder};
use sol_stables_transaction::record::{ContractRecord, Identity, Outcome, Stablecoin};
use sol_stables_transaction::validate::{validate_transaction, CallContext};

fn seller() -> Identity {
    Identity::new([1u8; 32])
}

fn buyer() -> Identity {
    Identity::new([2u8; 32])
}

fn stranger() -> Identity {
    Identity::new([9u8; 32])
}

const PRICE: u64 = 100;
const SETTLEMENT: u64 = 5;
const DEADLINE: u64 = 1_000;

fn fresh_record() -> ContractRecord {
    ContractRecord::new(seller(), buyer(), PRICE, SETTLEMENT, Stablecoin::Usdc, DEADLINE)
}

fn ctx(signer: Identity, amount: u64, now: u64) -> CallContext {
    CallContext {
        signer,
        seller_account: seller(),
        buyer_account: buyer(),
        amount,
        now,
    }
}

fn funded_balances() -> Balances {
    Balances {
        seller_native: 50,
        seller_stable: 0,
        buyer_native: 0,
        buyer_stable: 500,
        escrow_native: 0,
        escrow_stable: 0,
    }
}

const DEPOSIT_NATIVE: &[u8] = &[0, 1];
const DEPOSIT_STABLE: &[u8] = &[0, 0];
const EXCHANGE: &[u8] = &[1];
const REFUND: &[u8] = &[2];

#[test]
fn parse_recognizes_each_opcode() {
    assert_eq!(
        parse_instruction_data(DEPOSIT_NATIVE),
        Ok(Instruction::Deposit { is_settlement: true })
    );
    assert_eq!(
        parse_instruction_data(DEPOSIT_STABLE),
        Ok(Instruction::Deposit { is_settlement: false })
    );
    assert_eq!(parse_instruction_data(EXCHANGE), Ok(Instruction::Exchange));
    assert_eq!(parse_instruction_data(REFUND), Ok(Instruction::Refund));
}

#[test]
fn parse_rejects_bad_input() {
    assert_eq!(parse_instruction_data(&[]), Err(EscrowError::InvalidInstruction));
    assert_eq!(parse_instruction_data(&[3]), Err(EscrowError::InvalidInstruction));
    assert_eq!(parse_instruction_data(&[255, 0]), Err(EscrowError::InvalidInstruction));
    // A deposit without an asset byte, or with an unknown one, is malformed.
    assert_eq!(parse_instruction_data(&[0]), Err(EscrowError::InvalidInstruction));
    assert_eq!(parse_instruction_data(&[0, 2]), Err(EscrowError::InvalidInstruction));
}

#[test]
fn parse_ignores_trailing_bytes() {
    assert_eq!(parse_instruction_data(&[1, 42, 42]), Ok(Instruction::Exchange));
    assert_eq!(parse_instruction_data(&[2, 7]), Ok(Instruction::Refund));
}

#[test]
fn deposit_flips_flag_and_requests_transfer() {
    let record = fresh_record();
    let step = handle_deposit(&record, &ctx(seller(), SETTLEMENT, 0), true).unwrap();
    assert!(step.record.seller_deposited);
    assert!(!step.record.buyer_deposited);
    assert_eq!(step.record.outcome, Outcome::Pending);
    assert_eq!(step.transfers.len(), 1);
    let req = step.transfers[0];
    assert_eq!(req.asset, Asset::Native);
    assert_eq!(req.source, Holder::Seller);
    assert_eq!(req.dest, Holder::Escrow);
    assert_eq!(req.amount, SETTLEMENT);
}

#[test]
fn deposit_rejects_wrong_party() {
    let record = fresh_record();
    // The buyer cannot make the native deposit, nor a stranger any deposit.
    let r = handle_deposit(&record, &ctx(buyer(), SETTLEMENT, 0), true);
    assert_eq!(r.err(), Some(EscrowError::Unauthorized));
    let r = handle_deposit(&record, &ctx(stranger(), PRICE, 0), false);
    assert_eq!(r.err(), Some(EscrowError::Unauthorized));
}

#[test]
fn deposit_rejects_wrong_amount() {
    let record = fresh_record();
    let r = handle_deposit(&record, &ctx(seller(), SETTLEMENT + 1, 0), true);
    assert_eq!(r.err(), Some(EscrowError::InvalidAmount));
    let r = handle_deposit(&record, &ctx(buyer(), PRICE - 1, 0), false);
    assert_eq!(r.err(), Some(EscrowError::InvalidAmount));
}

#[test]
fn duplicate_deposit_is_rejected() {
    let record = fresh_record();
    let step = handle_deposit(&record, &ctx(seller(), SETTLEMENT, 0), true).unwrap();
    let r = handle_deposit(&step.record, &ctx(seller(), SETTLEMENT, 0), true);
    assert_eq!(r.err(), Some(EscrowError::AlreadyDeposited));
    // The other party's deposit is still fine.
    assert!(handle_deposit(&step.record, &ctx(buyer(), PRICE, 0), false).is_ok());
}

#[test]
fn exchange_requires_both_deposits() {
    let record = fresh_record();
    let r = handle_exchange(&record, &ctx(seller(), 0, 0));
    assert_eq!(r.err(), Some(EscrowError::PreconditionFailed));

    let one_sided = handle_deposit(&record, &ctx(seller(), SETTLEMENT, 0), true).unwrap().record;
    let r = handle_exchange(&one_sided, &ctx(seller(), 0, 0));
    assert_eq!(r.err(), Some(EscrowError::PreconditionFailed));
}

#[test]
fn exchange_requires_matching_accounts() {
    let record = fresh_record();
    let record = handle_deposit(&record, &ctx(seller(), SETTLEMENT, 0), true).unwrap().record;
    let record = handle_deposit(&record, &ctx(buyer(), PRICE, 0), false).unwrap().record;
    let bad = CallContext {
        signer: seller(),
        seller_account: stranger(),
        buyer_account: buyer(),
        amount: 0,
        now: 0,
    };
    assert_eq!(handle_exchange(&record, &bad).err(), Some(EscrowError::Unauthorized));
}

#[test]
fn exchange_completes_and_requests_both_legs() {
    let record = fresh_record();
    let record = handle_deposit(&record, &ctx(seller(), SETTLEMENT, 0), true).unwrap().record;
    let record = handle_deposit(&record, &ctx(buyer(), PRICE, 0), false).unwrap().record;
    let step = handle_exchange(&record, &ctx(seller(), 0, 0)).unwrap();
    assert_eq!(step.record.outcome, Outcome::Exchanged);
    assert_eq!(step.transfers.len(), 2);
    // Native to the buyer first, then the stablecoin to the seller.
    assert_eq!(step.transfers[0].asset, Asset::Native);
    assert_eq!(step.transfers[0].dest, Holder::Buyer);
    assert_eq!(step.transfers[0].amount, SETTLEMENT);
    assert_eq!(step.transfers[1].asset, Asset::Stable(Stablecoin::Usdc));
    assert_eq!(step.transfers[1].dest, Holder::Seller);
    assert_eq!(step.transfers[1].amount, PRICE);
    // A second exchange against the completed record is rejected.
    let r = handle_exchange(&step.record, &ctx(seller(), 0, 0));
    assert_eq!(r.err(), Some(EscrowError::PreconditionFailed));
}

#[test]
fn refund_requires_deadline_passed() {
    let record = fresh_record();
    let record = handle_deposit(&record, &ctx(seller(), SETTLEMENT, 0), true).unwrap().record;
    // At the deadline itself the refund is still early; it must be strictly past.
    let r = handle_refund(&record, &ctx(seller(), 0, DEADLINE));
    assert_eq!(r.err(), Some(EscrowError::PreconditionFailed));
    assert!(handle_refund(&record, &ctx(seller(), 0, DEADLINE + 1)).is_ok());
}

#[test]
fn refund_rejects_when_nothing_deposited() {
    let record = fresh_record();
    let r = handle_refund(&record, &ctx(seller(), 0, DEADLINE + 1));
    assert_eq!(r.err(), Some(EscrowError::NothingToRefund));
}

#[test]
fn refund_rejects_after_exchange() {
    let record = fresh_record();
    let record = handle_deposit(&record, &ctx(seller(), SETTLEMENT, 0), true).unwrap().record;
    let record = handle_deposit(&record, &ctx(buyer(), PRICE, 0), false).unwrap().record;
    let record = handle_exchange(&record, &ctx(seller(), 0, 0)).unwrap().record;
    let r = handle_refund(&record, &ctx(seller(), 0, DEADLINE + 1));
    assert_eq!(r.err(), Some(EscrowError::PreconditionFailed));
}

#[test]
fn refund_refunds_both_when_both_deposited() {
    let record = fresh_record();
    let record = handle_deposit(&record, &ctx(seller(), SETTLEMENT, 0), true).unwrap().record;
    let record = handle_deposit(&record, &ctx(buyer(), PRICE, 0), false).unwrap().record;
    let step = handle_refund(&record, &ctx(seller(), 0, DEADLINE + 1)).unwrap();
    assert_eq!(step.record.outcome, Outcome::Refunded);
    assert_eq!(step.transfers.len(), 2);
    assert_eq!(step.transfers[0].dest, Holder::Seller);
    assert_eq!(step.transfers[0].asset, Asset::Native);
    assert_eq!(step.transfers[1].dest, Holder::Buyer);
    assert_eq!(step.transfers[1].asset, Asset::Stable(Stablecoin::Usdc));
    // A second refund is rejected: the record is terminal.
    let r = handle_refund(&step.record, &ctx(seller(), 0, DEADLINE + 2));
    assert_eq!(r.err(), Some(EscrowError::PreconditionFailed));
}

#[test]
fn validate_is_checked_before_any_route() {
    let record = fresh_record();
    let r = validate_transaction(
        &record,
        &Instruction::Deposit { is_settlement: true },
        &ctx(stranger(), SETTLEMENT, 0),
    );
    assert_eq!(r, Err(EscrowError::Unauthorized));
    let r = validate_transaction(&record, &Instruction::Exchange, &ctx(seller(), 0, 0));
    assert_eq!(r, Err(EscrowError::PreconditionFailed));
    let r = validate_transaction(&record, &Instruction::Refund, &ctx(seller(), 0, 0));
    assert_eq!(r, Err(EscrowError::PreconditionFailed));
}

#[test]
fn dispatcher_surfaces_parse_errors() {
    let record = fresh_record();
    let r = process_instruction(&record, &ctx(seller(), 0, 0), &[7]);
    assert_eq!(r.err(), Some(EscrowError::InvalidInstruction));
}

#[test]
fn full_swap_scenario() {
    // Seller S, buyer B, price 100 stablecoin units, settlement 5 native
    // units. Both deposit, the exchange runs, and afterwards a refund is
    // rejected.
    let record = fresh_record();
    let balances = funded_balances();
    let no_faults = TransferFaults::none();

    let (record, balances) = execute_instruction(
        &record,
        &balances,
        &ctx(seller(), SETTLEMENT, 0),
        DEPOSIT_NATIVE,
        &no_faults,
    )
    .unwrap();
    assert!(record.seller_deposited);
    assert_eq!(balances.seller_native, 45);
    assert_eq!(balances.escrow_native, 5);

    let (record, balances) = execute_instruction(
        &record,
        &balances,
        &ctx(buyer(), PRICE, 0),
        DEPOSIT_STABLE,
        &no_faults,
    )
    .unwrap();
    assert!(record.buyer_deposited);
    assert_eq!(balances.buyer_stable, 400);
    assert_eq!(balances.escrow_stable, 100);

    let (record, balances) =
        execute_instruction(&record, &balances, &ctx(seller(), 0, 0), EXCHANGE, &no_faults)
            .unwrap();
    assert_eq!(record.outcome, Outcome::Exchanged);
    // The buyer holds 5 more native units, the seller 100 more stablecoin
    // units, and the escrow is empty again.
    assert_eq!(balances.buyer_native, 5);
    assert_eq!(balances.seller_stable, 100);
    assert_eq!(balances.escrow_native, 0);
    assert_eq!(balances.escrow_stable, 0);

    let r = execute_instruction(
        &record,
        &balances,
        &ctx(seller(), 0, DEADLINE + 1),
        REFUND,
        &no_faults,
    );
    assert_eq!(r.err(), Some(EscrowError::PreconditionFailed));
}

#[test]
fn one_sided_refund_scenario() {
    // Only the seller deposits, the deadline passes, no exchange happens:
    // the refund returns the 5 native units to the seller, leaves the buyer
    // untouched, and the terminal record then rejects the buyer's deposit.
    let record = fresh_record();
    let balances = funded_balances();
    let no_faults = TransferFaults::none();

    let (record, balances) = execute_instruction(
        &record,
        &balances,
        &ctx(seller(), SETTLEMENT, 0),
        DEPOSIT_NATIVE,
        &no_faults,
    )
    .unwrap();

    let (record, balances) = execute_instruction(
        &record,
        &balances,
        &ctx(seller(), 0, DEADLINE + 1),
        REFUND,
        &no_faults,
    )
    .unwrap();
    assert_eq!(record.outcome, Outcome::Refunded);
    assert_eq!(balances.seller_native, 50);
    assert_eq!(balances.escrow_native, 0);
    assert_eq!(balances.buyer_stable, 500);
    assert_eq!(balances.buyer_native, 0);

    let r = execute_instruction(
        &record,
        &balances,
        &ctx(buyer(), PRICE, DEADLINE + 1),
        DEPOSIT_STABLE,
        &no_faults,
    );
    assert_eq!(r.err(), Some(EscrowError::PreconditionFailed));
}

#[test]
fn exchange_second_leg_failure_leaves_no_trace() {
    // Fault injection on the second transfer: the whole exchange fails and
    // the caller keeps the prior record and balances, so neither the first
    // leg nor the completion flag is observable.
    let record = fresh_record();
    let balances = funded_balances();
    let no_faults = TransferFaults::none();

    let (record, balances) = execute_instruction(
        &record,
        &balances,
        &ctx(seller(), SETTLEMENT, 0),
        DEPOSIT_NATIVE,
        &no_faults,
    )
    .unwrap();
    let (record, balances) = execute_instruction(
        &record,
        &balances,
        &ctx(buyer(), PRICE, 0),
        DEPOSIT_STABLE,
        &no_faults,
    )
    .unwrap();

    let faults = TransferFaults { fail_first: false, fail_second: true };
    let r = execute_instruction(&record, &balances, &ctx(seller(), 0, 0), EXCHANGE, &faults);
    assert_eq!(r.err(), Some(EscrowError::TransferFailure));
    // Nothing was committed: the record is still pending and a fault-free
    // retry completes the swap from exactly the old state.
    assert_eq!(record.outcome, Outcome::Pending);
    let (record, balances) =
        execute_instruction(&record, &balances, &ctx(seller(), 0, 0), EXCHANGE, &no_faults)
            .unwrap();
    assert_eq!(record.outcome, Outcome::Exchanged);
    assert_eq!(balances.buyer_native, 5);
    assert_eq!(balances.seller_stable, 100);
}

#[test]
fn transfer_fails_on_insufficient_funds() {
    // An underfunded seller cannot complete the native deposit leg.
    let record = fresh_record();
    let balances = Balances {
        seller_native: SETTLEMENT - 1,
        seller_stable: 0,
        buyer_native: 0,
        buyer_stable: 500,
        escrow_native: 0,
        escrow_stable: 0,
    };
    let r = execute_instruction(
        &record,
        &balances,
        &ctx(seller(), SETTLEMENT, 0),
        DEPOSIT_NATIVE,
        &TransferFaults::none(),
    );
    assert_eq!(r.err(), Some(EscrowError::TransferFailure));
}

#[test]
fn transfer_fails_on_destination_overflow() {
    // The escrow's stablecoin account is one unit short of overflowing.
    let record = fresh_record();
    let balances = Balances {
        seller_native: 50,
        seller_stable: 0,
        buyer_native: 0,
        buyer_stable: PRICE,
        escrow_native: 0,
        escrow_stable: u64::MAX - PRICE + 1,
    };
    let r = execute_instruction(
        &record,
        &balances,
        &ctx(buyer(), PRICE, 0),
        DEPOSIT_STABLE,
        &TransferFaults::none(),
    );
    assert_eq!(r.err(), Some(EscrowError::TransferFailure));
}

#[test]
fn error_messages_are_distinct_and_readable() {
    let kinds = [
        EscrowError::InvalidInstruction,
        EscrowError::Unauthorized,
        EscrowError::InvalidAmount,
        EscrowError::AlreadyDeposited,
        EscrowError::PreconditionFailed,
        EscrowError::NothingToRefund,
        EscrowError::TransferFailure,
    ];
    for (i, a) in kinds.iter().enumerate() {
        assert!(!a.message().is_empty());
        for (j, b) in kinds.iter().enumerate() {
            if i != j {
                assert_ne!(a.message(), b.message());
            }
        }
    }
}
