use cross_chain_messaging::acceptance::screen;
use cross_chain_messaging::error::VerificationError;
use cross_chain_messaging::hash::hash_message;
use cross_chain_messaging::program::commit_public_values;
use cross_chain_messaging::records::{MessageRecord, MessageStored, ProofData};

const CALLER: [u8; 20] = [3u8; 20];

fn hello() -> MessageRecord {
    MessageRecord {
        message: b"hello".to_vec(),
        source_chain_id: 1,
        destination_chain_id: 2,
        nonce: 6,
    }
}

fn proof_for(message: &[u8], source: u32, destination: u32) -> ProofData {
    ProofData {
        proof: vec![0xaa, 0xbb, 0xcc],
        message_hash: hash_message(message),
        source_chain_id: source,
        destination_chain_id: destination,
    }
}

#[test]
fn seen_nonce_is_turned_away_at_the_first_stage() {
    assert_eq!(screen(&hello(), true).err(), Some(VerificationError::AlreadyProcessed));
}

#[test]
fn fresh_nonce_passes_the_first_stage_with_the_recomputed_hash() {
    let screened = screen(&hello(), false).ok().unwrap();
    assert_eq!(screened.message_hash(), hash_message(b"hello"));
}

#[test]
fn seen_hash_is_turned_away_at_the_second_stage() {
    let proof = proof_for(b"hello", 1, 2);
    let other = proof_for(b"other", 1, 2);
    for candidate in [&proof, &other] {
        let screened = screen(&hello(), false).ok().unwrap();
        assert_eq!(
            screened.bind(true, candidate, &[1, 2, 3]).err(),
            Some(VerificationError::AlreadyProcessed)
        );
    }
}

#[test]
fn proof_that_attests_other_values_does_not_bind() {
    let candidates = [
        proof_for(b"other", 1, 2),
        proof_for(b"hello", 2, 1),
        proof_for(b"hello", 1, 3),
        proof_for(b"hello", 0, 2),
    ];
    for candidate in candidates {
        let screened = screen(&hello(), false).ok().unwrap();
        assert_eq!(
            screened.bind(false, &candidate, &[1, 2, 3]).err(),
            Some(VerificationError::InvalidProof)
        );
    }
}

#[test]
fn bound_proof_yields_the_question_for_the_oracle() {
    let screened = screen(&hello(), false).ok().unwrap();
    let bound = screened.bind(false, &proof_for(b"hello", 1, 2), &[1, 2, 3]).ok().unwrap();
    let request = bound.request();
    assert_eq!(request.verifier_key, vec![1, 2, 3]);
    assert_eq!(request.proof, vec![0xaa, 0xbb, 0xcc]);
    assert_eq!(request.public_values, commit_public_values(b"hello", 1, 2).unwrap());
}

#[test]
fn negative_verdict_concludes_in_an_invalid_proof() {
    let screened = screen(&hello(), false).ok().unwrap();
    let bound = screened.bind(false, &proof_for(b"hello", 1, 2), &[1, 2, 3]).ok().unwrap();
    assert_eq!(bound.conclude(false, CALLER), Err(VerificationError::InvalidProof));
}

#[test]
fn positive_verdict_concludes_in_an_acceptance() {
    let screened = screen(&hello(), false).ok().unwrap();
    let bound = screened.bind(false, &proof_for(b"hello", 1, 2), &[1, 2, 3]).ok().unwrap();
    let accepted = bound.conclude(true, CALLER).unwrap();
    assert_eq!(accepted.nonce, 6);
    assert_eq!(accepted.message_hash, hash_message(b"hello"));
    assert_eq!(
        accepted.event,
        MessageStored {
            message_hash: hash_message(b"hello"),
            source_chain_id: 1,
            nonce: 6,
            sender: CALLER,
        }
    );
}
