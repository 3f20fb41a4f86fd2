use sol_stables_transaction::codec::{record_from_bytes, record_to_bytes, RECORD_BYTES};
use sol_stables_transaction::record::{ContractRecord, Identity, Outcome, Stablecoin};

fn sample_record() -> ContractRecord {
    ContractRecord::new(
        Identity::new([0xAA; 32]),
        Identity::new([0xBB; 32]),
        100,
        5,
        Stablecoin::Usdc,
        1_000,
    )
}

#[test]
fn layout_is_exactly_as_documented() {
    let bytes = record_to_bytes(&sample_record());
    assert_eq!(bytes.len(), RECORD_BYTES);
    assert_eq!(&bytes[0..32], &[0xAAu8; 32][..]);
    assert_eq!(&bytes[32..64], &[0xBBu8; 32][..]);
    // Amounts and deadline are little-endian 8-byte words.
    assert_eq!(&bytes[64..72], &[100u8, 0, 0, 0, 0, 0, 0, 0][..]);
    assert_eq!(&bytes[72..80], &[5u8, 0, 0, 0, 0, 0, 0, 0][..]);
    assert_eq!(bytes[80], 1); // Usdc
    assert_eq!(&bytes[81..89], &[0xE8u8, 0x03, 0, 0, 0, 0, 0, 0][..]); // 1000
    assert_eq!(&bytes[89..92], &[0u8, 0, 0][..]); // no deposits, pending
}

#[test]
fn kind_and_state_bytes() {
    let mut record = sample_record();
    record.stablecoin_kind = Stablecoin::Usdt;
    record.seller_deposited = true;
    record.buyer_deposited = true;
    record.outcome = Outcome::Exchanged;
    let bytes = record_to_bytes(&record);
    assert_eq!(bytes[80], 0); // Usdt
    assert_eq!(&bytes[89..92], &[1u8, 1, 1][..]);
}

#[test]
fn round_trip_preserves_every_field() {
    let mut record = sample_record();
    record.seller_deposited = true;
    record.outcome = Outcome::Refunded;
    let decoded = record_from_bytes(&record_to_bytes(&record)).unwrap();
    assert_eq!(decoded, record);
}

#[test]
fn decode_rejects_wrong_length() {
    let bytes = record_to_bytes(&sample_record());
    assert_eq!(record_from_bytes(&bytes[..RECORD_BYTES - 1]), None);
    let mut long = bytes.clone();
    long.push(0);
    assert_eq!(record_from_bytes(&long), None);
    assert_eq!(record_from_bytes(&[]), None);
}

#[test]
fn decode_rejects_bad_discriminators() {
    let good = record_to_bytes(&sample_record());
    for (pos, bad) in [(80usize, 2u8), (89, 2), (90, 7), (91, 3)] {
        let mut bytes = good.clone();
        bytes[pos] = bad;
        assert_eq!(record_from_bytes(&bytes), None);
    }
}

#[test]
fn decode_rejects_images_that_break_the_invariant() {
    // An exchanged image without both deposits, or a refunded one with
    // none, cannot come from a well-formed record.
    let mut record = sample_record();
    record.seller_deposited = true;
    record.buyer_deposited = false;
    let mut bytes = record_to_bytes(&record);
    bytes[91] = 1; // exchanged
    assert_eq!(record_from_bytes(&bytes), None);
    bytes[89] = 0; // no deposits at all
    bytes[91] = 2; // refunded
    assert_eq!(record_from_bytes(&bytes), None);
}
