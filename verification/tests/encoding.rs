use alloy_sol_types::private::FixedBytes;
use alloy_sol_types::{sol_data, SolType};
use cross_chain_messaging::public_values::{PublicValues, ENCODED_LEN};

type AbiTuple = (sol_data::FixedBytes<32>, sol_data::Uint<32>, sol_data::Uint<32>);

fn sample() -> PublicValues {
    let mut message_hash = [0u8; 32];
    for (i, byte) in message_hash.iter_mut().enumerate() {
        *byte = 0xa0 + i as u8;
    }
    PublicValues { message_hash, source_chain_id: 0x0102_0304, destination_chain_id: 258 }
}

#[test]
fn encoding_has_three_words() {
    assert_eq!(ENCODED_LEN, 96);
    assert_eq!(sample().abi_encode().len(), 96);
}

#[test]
fn encoding_lays_out_hash_then_padded_big_endian_ids() {
    let values = sample();
    let bytes = values.abi_encode();
    assert_eq!(&bytes[0..32], &values.message_hash[..]);
    assert_eq!(&bytes[32..60], &[0u8; 28][..]);
    assert_eq!(&bytes[60..64], &[0x01, 0x02, 0x03, 0x04][..]);
    assert_eq!(&bytes[64..92], &[0u8; 28][..]);
    assert_eq!(&bytes[92..96], &[0x00, 0x00, 0x01, 0x02][..]);
}

#[test]
fn encoding_of_extreme_chain_ids() {
    let values = PublicValues {
        message_hash: [0xff; 32],
        source_chain_id: u32::MAX,
        destination_chain_id: 0,
    };
    let bytes = values.abi_encode();
    let mut expected = vec![0xffu8; 32];
    expected.extend_from_slice(&[0u8; 28]);
    expected.extend_from_slice(&[0xff; 4]);
    expected.extend_from_slice(&[0u8; 32]);
    assert_eq!(bytes, expected);
}

#[test]
fn decoding_inverts_encoding() {
    let cases = [
        sample(),
        PublicValues { message_hash: [0; 32], source_chain_id: 0, destination_chain_id: 0 },
        PublicValues { message_hash: [1; 32], source_chain_id: 1, destination_chain_id: 2 },
        PublicValues {
            message_hash: [0xff; 32],
            source_chain_id: u32::MAX,
            destination_chain_id: u32::MAX - 1,
        },
        PublicValues {
            message_hash: [9; 32],
            source_chain_id: 0x8000_0000,
            destination_chain_id: 0x0100_0000,
        },
    ];
    for values in cases {
        let bytes = values.abi_encode();
        assert_eq!(PublicValues::abi_decode(&bytes, true), Some(values));
        assert_eq!(PublicValues::abi_decode(&bytes, false), Some(values));
    }
}

#[test]
fn encoding_is_injective_on_samples() {
    let base = sample();
    let mut other_hash = base;
    other_hash.message_hash[31] ^= 1;
    let mut other_source = base;
    other_source.source_chain_id += 1;
    let mut other_destination = base;
    other_destination.destination_chain_id += 1;
    let swapped = PublicValues {
        message_hash: base.message_hash,
        source_chain_id: base.destination_chain_id,
        destination_chain_id: base.source_chain_id,
    };
    for other in [other_hash, other_source, other_destination, swapped] {
        assert_ne!(base.abi_encode(), other.abi_encode());
    }
}

#[test]
fn decoding_rejects_short_input() {
    let bytes = sample().abi_encode();
    assert_eq!(PublicValues::abi_decode(&[], true), None);
    assert_eq!(PublicValues::abi_decode(&[], false), None);
    assert_eq!(PublicValues::abi_decode(&bytes[..95], true), None);
    assert_eq!(PublicValues::abi_decode(&bytes[..95], false), None);
    assert_eq!(PublicValues::abi_decode(&bytes[..32], false), None);
}

#[test]
fn validated_decoding_rejects_trailing_bytes() {
    let mut bytes = sample().abi_encode();
    bytes.push(0);
    assert_eq!(PublicValues::abi_decode(&bytes, true), None);
    assert_eq!(PublicValues::abi_decode(&bytes, false), Some(sample()));
}

#[test]
fn validated_decoding_rejects_dirty_padding() {
    for at in [32usize, 45, 59, 64, 80, 91] {
        let mut bytes = sample().abi_encode();
        bytes[at] = 1;
        assert_eq!(PublicValues::abi_decode(&bytes, true), None);
        assert_eq!(PublicValues::abi_decode(&bytes, false), Some(sample()));
    }
}

#[test]
fn validated_decoding_accepts_canonical_bytes_only() {
    let mut bytes = vec![0x11u8; 32];
    bytes.extend_from_slice(&[0u8; 28]);
    bytes.extend_from_slice(&[0xde, 0xad, 0xbe, 0xef]);
    bytes.extend_from_slice(&[0u8; 28]);
    bytes.extend_from_slice(&[0x00, 0x00, 0x00, 0x07]);
    let decoded = PublicValues::abi_decode(&bytes, true).unwrap();
    assert_eq!(decoded.message_hash, [0x11; 32]);
    assert_eq!(decoded.source_chain_id, 0xdead_beef);
    assert_eq!(decoded.destination_chain_id, 7);
    assert_eq!(decoded.abi_encode(), bytes);
}

#[test]
fn encoding_agrees_with_the_contract_abi() {
    let cases = [
        sample(),
        PublicValues { message_hash: [0; 32], source_chain_id: 0, destination_chain_id: 0 },
        PublicValues {
            message_hash: [0xff; 32],
            source_chain_id: u32::MAX,
            destination_chain_id: 1,
        },
    ];
    for values in cases {
        let reference = AbiTuple::abi_encode(&(
            FixedBytes(values.message_hash),
            values.source_chain_id,
            values.destination_chain_id,
        ));
        assert_eq!(values.abi_encode(), reference);
    }
}

#[test]
fn decoding_agrees_with_the_contract_abi() {
    let canonical = sample().abi_encode();
    let mut trailing = canonical.clone();
    trailing.extend_from_slice(&[0u8; 32]);
    let mut dirty = canonical.clone();
    dirty[40] = 0x80;
    let short = canonical[..64].to_vec();
    for bytes in [canonical, trailing, dirty, short] {
        for validate in [true, false] {
            let reference = AbiTuple::abi_decode(&bytes, validate).ok().map(
                |(message_hash, source_chain_id, destination_chain_id)| PublicValues {
                    message_hash: message_hash.0,
                    source_chain_id,
                    destination_chain_id,
                },
            );
            assert_eq!(PublicValues::abi_decode(&bytes, validate), reference);
        }
    }
}

#[test]
fn same_as_compares_all_three_parts() {
    let base = sample();
    assert!(base.same_as(&sample()));
    let mut other = base;
    other.message_hash[0] ^= 0x80;
    assert!(!base.same_as(&other));
    let mut other = base;
    other.source_chain_id ^= 1;
    assert!(!base.same_as(&other));
    let mut other = base;
    other.destination_chain_id ^= 1;
    assert!(!base.same_as(&other));
}
