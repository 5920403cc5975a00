use cross_chain_messaging::error::VerificationError;
use cross_chain_messaging::hash::hash_message;
use cross_chain_messaging::program::{
    commit_public_values, derive_public_values, validate_inputs,
};
use cross_chain_messaging::public_values::PublicValues;

#[test]
fn program_fails_when_source_equals_destination() {
    for chain in [0u32, 1, 2, 77, u32::MAX] {
        assert_eq!(
            commit_public_values(b"hello", chain, chain),
            Err(VerificationError::InvalidInput)
        );
        assert_eq!(validate_inputs(b"hello", chain, chain), Err(VerificationError::InvalidInput));
    }
}

#[test]
fn program_fails_on_the_empty_message() {
    for (source, destination) in [(1u32, 2u32), (2, 1), (0, u32::MAX)] {
        assert_eq!(
            commit_public_values(b"", source, destination),
            Err(VerificationError::InvalidInput)
        );
        assert_eq!(validate_inputs(b"", source, destination), Err(VerificationError::InvalidInput));
    }
}

#[test]
fn program_fails_when_both_faults_are_present() {
    assert_eq!(commit_public_values(b"", 5, 5), Err(VerificationError::InvalidInput));
}

#[test]
fn program_accepts_a_one_byte_message_between_distinct_chains() {
    assert_eq!(validate_inputs(&[0], 1, 2), Ok(()));
    assert!(commit_public_values(&[0], 1, 2).is_ok());
}

#[test]
fn program_commits_to_hash_and_chain_ids() {
    let committed = commit_public_values(b"hello", 1, 2).unwrap();
    let mut expected = hex::decode(
        "2cf24dba5fb0a30e26e83b2ac5b9e29e1b161e5c1fa7425e73043362938b9824",
    )
    .unwrap();
    expected.extend_from_slice(&[0u8; 31]);
    expected.push(1);
    expected.extend_from_slice(&[0u8; 31]);
    expected.push(2);
    assert_eq!(committed, expected);
}

#[test]
fn commitment_decodes_to_the_derived_values() {
    let committed = commit_public_values(b"payload", 10, 20).unwrap();
    let values = PublicValues::abi_decode(&committed, true).unwrap();
    assert_eq!(values, derive_public_values(b"payload", 10, 20));
    assert_eq!(values.message_hash, hash_message(b"payload"));
    assert_eq!(values.source_chain_id, 10);
    assert_eq!(values.destination_chain_id, 20);
}

#[test]
fn commitment_depends_on_the_direction() {
    assert_ne!(
        commit_public_values(b"hello", 1, 2).unwrap(),
        commit_public_values(b"hello", 2, 1).unwrap()
    );
}

#[test]
fn derived_values_recompute_the_hash() {
    let values = derive_public_values(b"", 4, 4);
    assert_eq!(values.message_hash, hash_message(b""));
    assert_eq!(values.source_chain_id, 4);
    assert_eq!(values.destination_chain_id, 4);
}
