//! The fixed persisted layout of a contract record.
//!
//! The record is stored as exactly 92 bytes: the two 32-byte identities,
//! the two amounts as 8-byte little-endian words, one stablecoin-kind
//! byte, the deadline as an 8-byte little-endian word, and three one-byte
//! fields — the two deposited flags and the outcome. Field order and byte
//! order never change, or existing escrows would be corrupted.

use vstd::prelude::*;

use crate::record::{ContractRecord, Identity, Outcome, Stablecoin};

verus! {

broadcast use vstd::array::group_array_axioms;

/// The record's stored size in bytes.
pub const RECORD_BYTES: usize = 92;

/// The stored byte of a stablecoin kind.
pub open spec fn spec_kind_byte(kind: Stablecoin) -> u8 {
    match kind {
        Stablecoin::Usdt => 0,
        Stablecoin::Usdc => 1,
    }
}

/// The stored byte of a deposited flag.
pub open spec fn spec_flag_byte(flag: bool) -> u8 {
    if flag {
        1
    } else {
        0
    }
}

/// The stored byte of an outcome.
pub open spec fn spec_outcome_byte(outcome: Outcome) -> u8 {
    match outcome {
        Outcome::Pending => 0,
        Outcome::Exchanged => 1,
        Outcome::Refunded => 2,
    }
}

/// The 92 stored bytes of a record.
pub open spec fn spec_record_bytes(r: ContractRecord) -> Seq<u8> {
    r.seller_identity@ + r.buyer_identity@ + vstd::bytes::spec_u64_to_le_bytes(r.stablecoin_price)
        + vstd::bytes::spec_u64_to_le_bytes(r.settlement_amount) + seq![
        spec_kind_byte(r.stablecoin_kind),
    ] + vstd::bytes::spec_u64_to_le_bytes(r.deadline) + seq![
        spec_flag_byte(r.seller_deposited),
        spec_flag_byte(r.buyer_deposited),
        spec_outcome_byte(r.outcome),
    ]
}

/// Whether stored bytes are a valid record image: the right length, every
/// discriminator byte in range, and the flag bytes consistent with the
/// record invariant — an exchanged image shows both deposits, a refunded
/// image at least one.
pub open spec fn spec_valid_record_bytes(s: Seq<u8>) -> bool {
    &&& s.len() == RECORD_BYTES
    &&& (s[80] == 0 || s[80] == 1)
    &&& (s[89] == 0 || s[89] == 1)
    &&& (s[90] == 0 || s[90] == 1)
    &&& (s[91] == 0 || s[91] == 1 || s[91] == 2)
    &&& (s[91] == 1 ==> s[89] == 1 && s[90] == 1)
    &&& (s[91] == 2 ==> s[89] == 1 || s[90] == 1)
}

/// Each field's place inside the 92 stored bytes of a record.
pub proof fn lemma_record_bytes_fields(r: ContractRecord)
    ensures
        spec_record_bytes(r).len() == RECORD_BYTES,
        spec_record_bytes(r).subrange(0, 32) == r.seller_identity@,
        spec_record_bytes(r).subrange(32, 64) == r.buyer_identity@,
        spec_record_bytes(r).subrange(64, 72) == vstd::bytes::spec_u64_to_le_bytes(
            r.stablecoin_price,
        ),
        spec_record_bytes(r).subrange(72, 80) == vstd::bytes::spec_u64_to_le_bytes(
            r.settlement_amount,
        ),
        spec_record_bytes(r)[80] == spec_kind_byte(r.stablecoin_kind),
        spec_record_bytes(r).subrange(81, 89) == vstd::bytes::spec_u64_to_le_bytes(r.deadline),
        spec_record_bytes(r)[89] == spec_flag_byte(r.seller_deposited),
        spec_record_bytes(r)[90] == spec_flag_byte(r.buyer_deposited),
        spec_record_bytes(r)[91] == spec_outcome_byte(r.outcome),
{
    vstd::bytes::lemma_auto_spec_u64_to_from_le_bytes();
    let s = spec_record_bytes(r);
    assert(s.subrange(0, 32) =~= r.seller_identity@);
    assert(s.subrange(32, 64) =~= r.buyer_identity@);
    assert(s.subrange(64, 72) =~= vstd::bytes::spec_u64_to_le_bytes(r.stablecoin_price));
    assert(s.subrange(72, 80) =~= vstd::bytes::spec_u64_to_le_bytes(r.settlement_amount));
    assert(s.subrange(81, 89) =~= vstd::bytes::spec_u64_to_le_bytes(r.deadline));
}

/// Serialises a record to its 92 stored bytes.
pub fn record_to_bytes(r: &ContractRecord) -> (out: Vec<u8>)
    ensures
        out@ == spec_record_bytes(*r),
        out@.len() == RECORD_BYTES,
{
    proof {
        lemma_record_bytes_fields(*r);
    }
    let mut out: Vec<u8> = Vec::new();
    out.append(&mut vstd::slice::slice_to_vec(r.seller_identity.bytes.as_slice()));
    out.append(&mut vstd::slice::slice_to_vec(r.buyer_identity.bytes.as_slice()));
    out.append(&mut vstd::bytes::u64_to_le_bytes(r.stablecoin_price));
    out.append(&mut vstd::bytes::u64_to_le_bytes(r.settlement_amount));
    let kind_byte: u8 = match r.stablecoin_kind {
        Stablecoin::Usdt => 0,
        Stablecoin::Usdc => 1,
    };
    out.push(kind_byte);
    out.append(&mut vstd::bytes::u64_to_le_bytes(r.deadline));
    out.push(if r.seller_deposited { 1 } else { 0 });
    out.push(if r.buyer_deposited { 1 } else { 0 });
    let outcome_byte: u8 = match r.outcome {
        Outcome::Pending => 0,
        Outcome::Exchanged => 1,
        Outcome::Refunded => 2,
    };
    out.push(outcome_byte);
    proof {
        assert(out@ =~= spec_record_bytes(*r));
    }
    out
}

/// Copies one 32-byte identity out of stored bytes.
fn read_identity(data: &[u8], start: usize) -> (r: Identity)
    requires
        start + 32 <= data@.len(),
    ensures
        r@ == data@.subrange(start as int, start as int + 32),
{
    let n = data.len();
    let mut bytes: [u8; 32] = [0; 32];
    let mut i: usize = 0;
    while i < 32
        invariant
            i <= 32,
            start + 32 <= n == data@.len(),
            forall|j: int| 0 <= j < i ==> bytes@[j] == data@[start + j],
        decreases 32 - i,
    {
        bytes[i] = data[start + i];
        i = i + 1;
    }
    proof {
        assert(bytes@ =~= data@.subrange(start as int, start as int + 32));
    }
    Identity { bytes }
}

/// Deserialises stored bytes back into a record. Yields the record whose
/// stored image the bytes are, exactly when they are a valid image; any
/// wrong length, out-of-range discriminator or flag combination that
/// breaks the record invariant yields nothing.
pub fn record_from_bytes(data: &[u8]) -> (r: Option<ContractRecord>)
    ensures
        match r {
            Some(rec) => {
                &&& spec_valid_record_bytes(data@)
                &&& spec_record_bytes(rec) == data@
                &&& rec.wf()
            },
            None => !spec_valid_record_bytes(data@),
        },
{
    proof {
        vstd::bytes::lemma_auto_spec_u64_to_from_le_bytes();
    }
    if data.len() != RECORD_BYTES {
        return None;
    }
    let seller_identity = read_identity(data, 0);
    let buyer_identity = read_identity(data, 32);
    let stablecoin_price = vstd::bytes::u64_from_le_bytes(vstd::slice::slice_subrange(
        data,
        64,
        72,
    ));
    let settlement_amount = vstd::bytes::u64_from_le_bytes(vstd::slice::slice_subrange(
        data,
        72,
        80,
    ));
    let stablecoin_kind = match *vstd::slice::slice_index_get(data, 80) {
        0u8 => Stablecoin::Usdt,
        1u8 => Stablecoin::Usdc,
        _ => {
            return None;
        },
    };
    let deadline = vstd::bytes::u64_from_le_bytes(vstd::slice::slice_subrange(data, 81, 89));
    let seller_deposited = match *vstd::slice::slice_index_get(data, 89) {
        0u8 => false,
        1u8 => true,
        _ => {
            return None;
        },
    };
    let buyer_deposited = match *vstd::slice::slice_index_get(data, 90) {
        0u8 => false,
        1u8 => true,
        _ => {
            return None;
        },
    };
    let outcome = match *vstd::slice::slice_index_get(data, 91) {
        0u8 => Outcome::Pending,
        1u8 => Outcome::Exchanged,
        2u8 => Outcome::Refunded,
        _ => {
            return None;
        },
    };
    let rec = ContractRecord {
        seller_identity,
        buyer_identity,
        stablecoin_price,
        settlement_amount,
        stablecoin_kind,
        deadline,
        seller_deposited,
        buyer_deposited,
        outcome,
    };
    if matches!(outcome, Outcome::Exchanged) && !(seller_deposited && buyer_deposited) {
        return None;
    }
    if matches!(outcome, Outcome::Refunded) && !(seller_deposited || buyer_deposited) {
        return None;
    }
    proof {
        lemma_record_bytes_fields(rec);
        assert(spec_record_bytes(rec) =~= data@);
    }
    Some(rec)
}

/// Two records with the same stored image are the same record: the layout
/// loses nothing.
pub proof fn lemma_record_bytes_injective(a: ContractRecord, b: ContractRecord)
    requires
        spec_record_bytes(a) == spec_record_bytes(b),
    ensures
        a == b,
{
    vstd::bytes::lemma_auto_spec_u64_to_from_le_bytes();
    lemma_record_bytes_fields(a);
    lemma_record_bytes_fields(b);
    assert(a.seller_identity@ == b.seller_identity@);
    assert(a.seller_identity.bytes == b.seller_identity.bytes);
    assert(a.seller_identity =~= b.seller_identity);
    assert(a.buyer_identity.bytes == b.buyer_identity.bytes);
    assert(a.buyer_identity =~= b.buyer_identity);
    assert(a.stablecoin_price == b.stablecoin_price);
    assert(a.settlement_amount == b.settlement_amount);
    assert(a.stablecoin_kind == b.stablecoin_kind);
    assert(a.deadline == b.deadline);
    assert(a.seller_deposited == b.seller_deposited);
    assert(a.buyer_deposited == b.buyer_deposited);
    assert(a.outcome == b.outcome);
    assert(a =~= b);
}

/// Round trip: a well-formed record written and read back is itself.
pub proof fn lemma_record_round_trip(r: ContractRecord)
    requires
        r.wf(),
    ensures
        spec_valid_record_bytes(spec_record_bytes(r)),
        forall|other: ContractRecord|
            spec_record_bytes(other) == spec_record_bytes(r) ==> other == r,
{
    lemma_record_bytes_fields(r);
    assert forall|other: ContractRecord|
        spec_record_bytes(other) == spec_record_bytes(r) implies other == r by {
        lemma_record_bytes_injective(other, r);
    }
}

} // verus!
