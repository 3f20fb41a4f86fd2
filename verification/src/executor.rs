//! A model of the host running one instruction end to end.
//!
//! The host performs a step's transfer requests in order and commits the
//! successor record only when every leg succeeds; on any failure it rolls
//! the whole invocation back. `execute_instruction` states that discipline
//! as code: it returns the new record and balances only when everything
//! succeeded, so a failed leg can never leave a partial effect — there is
//! no compensation logic, and none is needed. `TransferFaults` injects
//! failures per leg, standing in for the transfer primitive's right to
//! fail any single call.

use vstd::prelude::*;

use crate::errors::EscrowError;
use crate::handlers::{process_instruction, spec_process_instruction};
use crate::ledger::{apply_transfer, spec_apply_transfer, Balances, TransferRequest};
use crate::record::ContractRecord;
use crate::validate::CallContext;

verus! {

/// Which transfer legs the host's transfer primitive will fail, by
/// position in the step's request list. The core cannot know why a leg
/// fails; it only promises what holds under every outcome.
#[derive(Clone, Copy, Debug, PartialEq, Eq, Structural)]
pub struct TransferFaults {
    pub fail_first: bool,
    pub fail_second: bool,
}

impl TransferFaults {
    /// A host whose transfers all succeed, funds permitting.
    pub fn none() -> (r: TransferFaults)
        ensures
            !r.fail_first,
            !r.fail_second,
    {
        TransferFaults { fail_first: false, fail_second: false }
    }
}

/// Whether the fault injection fails the leg at this position.
pub open spec fn spec_leg_faulted(faults: TransferFaults, leg: int) -> bool {
    if leg == 0 {
        faults.fail_first
    } else if leg == 1 {
        faults.fail_second
    } else {
        false
    }
}

/// The balances after performing the requests from position `leg` on, or
/// `TransferFailure` at the first leg that is faulted or cannot be funded.
pub open spec fn spec_settle_from(
    b: Balances,
    requests: Seq<TransferRequest>,
    faults: TransferFaults,
    leg: int,
) -> Result<Balances, EscrowError>
    decreases requests.len() - leg,
{
    if leg < 0 || leg >= requests.len() {
        Ok(b)
    } else if spec_leg_faulted(faults, leg) {
        Err(EscrowError::TransferFailure)
    } else {
        match spec_apply_transfer(b, requests[leg]) {
            Err(e) => Err(e),
            Ok(b1) => spec_settle_from(b1, requests, faults, leg + 1),
        }
    }
}

/// The balances after performing all the requests in order, or
/// `TransferFailure` at the first leg that fails.
pub open spec fn spec_settle(
    b: Balances,
    requests: Seq<TransferRequest>,
    faults: TransferFaults,
) -> Result<Balances, EscrowError> {
    spec_settle_from(b, requests, faults, 0)
}

/// One whole invocation against the model ledger: dispatch the
/// instruction, then settle its transfers; the new record and balances
/// come back only when every stage succeeded.
pub open spec fn spec_execute_instruction(
    record: ContractRecord,
    balances: Balances,
    ctx: CallContext,
    data: Seq<u8>,
    faults: TransferFaults,
) -> Result<(ContractRecord, Balances), EscrowError> {
    match spec_process_instruction(record, ctx, data) {
        Err(e) => Err(e),
        Ok((updated, requests)) => match spec_settle(balances, requests, faults) {
            Err(e) => Err(e),
            Ok(b) => Ok((updated, b)),
        },
    }
}

/// Performs the faultable legs in order against the model ledger.
fn settle(
    balances: &Balances,
    requests: &Vec<TransferRequest>,
    faults: &TransferFaults,
) -> (r: Result<Balances, EscrowError>)
    ensures
        r == spec_settle(*balances, requests@, *faults),
{
    let mut current = *balances;
    let mut leg: usize = 0;
    while leg < requests.len()
        invariant
            leg <= requests@.len(),
            spec_settle(*balances, requests@, *faults) == spec_settle_from(
                current,
                requests@,
                *faults,
                leg as int,
            ),
        decreases requests@.len() - leg,
    {
        let faulted = if leg == 0 {
            faults.fail_first
        } else if leg == 1 {
            faults.fail_second
        } else {
            false
        };
        if faulted {
            return Err(EscrowError::TransferFailure);
        }
        current = apply_transfer(&current, &requests[leg])?;
        leg = leg + 1;
    }
    Ok(current)
}

/// Runs one instruction as the host would: dispatch, then perform the
/// transfers in order, failing a leg wherever `faults` says the transfer
/// primitive would fail. Only when every stage succeeds does a new record
/// and ledger come back — a failure, at whatever stage, yields the error
/// alone, so the caller keeps the prior record and balances and no leg's
/// effect survives without the other.
pub fn execute_instruction(
    record: &ContractRecord,
    balances: &Balances,
    ctx: &CallContext,
    data: &[u8],
    faults: &TransferFaults,
) -> (r: Result<(ContractRecord, Balances), EscrowError>)
    ensures
        match r {
            Ok(outcome) => spec_execute_instruction(*record, *balances, *ctx, data@, *faults)
                == Ok::<(ContractRecord, Balances), EscrowError>(outcome),
            Err(e) => spec_execute_instruction(*record, *balances, *ctx, data@, *faults) == Err::<
                (ContractRecord, Balances),
                EscrowError,
            >(e),
        },
{
    let step = process_instruction(record, ctx, data)?;
    let settled = settle(balances, &step.transfers, faults)?;
    Ok((step.record, settled))
}

} // verus!
