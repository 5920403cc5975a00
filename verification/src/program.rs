//! The proof program: what is committed to, off-ledger, for one message.
//!
//! The program knows nothing of ledgers, nonces or history. It refuses
//! inputs that cannot belong to a cross-chain transfer, and otherwise commits
//! to the hash of the message and the two chain identifiers.

use crate::error::VerificationError;
use crate::hash::{hash_message, sha256};
use crate::public_values::{spec_abi_encode, PublicValues, PublicValuesView};
use vstd::prelude::*;

verus! {

/// Whether the program accepts these inputs: the chains differ and the
/// message is not empty.
pub open spec fn spec_inputs_valid(message: Seq<u8>, source: u32, destination: u32) -> bool {
    source != destination && message.len() > 0
}

/// The public values that bind `message` to its two chains.
pub open spec fn spec_public_values(
    message: Seq<u8>,
    source: u32,
    destination: u32,
) -> PublicValuesView {
    PublicValuesView {
        message_hash: sha256(message),
        source_chain_id: source,
        destination_chain_id: destination,
    }
}

/// The bytes the program commits to for valid inputs.
pub open spec fn spec_commitment(message: Seq<u8>, source: u32, destination: u32) -> Seq<u8> {
    spec_abi_encode(spec_public_values(message, source, destination))
}

/// Checks the program's inputs: fails with `InvalidInput` exactly when the
/// two chain identifiers are equal or the message is empty.
pub fn validate_inputs(message: &[u8], source_chain_id: u32, destination_chain_id: u32) -> (checked:
    Result<(), VerificationError>)
    ensures
        checked is Ok <==> spec_inputs_valid(message@, source_chain_id, destination_chain_id),
        checked is Err ==> checked == Err::<(), VerificationError>(
            VerificationError::InvalidInput,
        ),
{
    if source_chain_id == destination_chain_id {
        return Err(VerificationError::InvalidInput);
    }
    if message.len() == 0 {
        return Err(VerificationError::InvalidInput);
    }
    Ok(())
}

/// Derives the public values for a message without judging the inputs: the
/// hash is recomputed from the message bytes, never taken from elsewhere.
pub fn derive_public_values(message: &[u8], source_chain_id: u32, destination_chain_id: u32) -> (values:
    PublicValues)
    ensures
        values@ == spec_public_values(message@, source_chain_id, destination_chain_id),
{
    PublicValues { message_hash: hash_message(message), source_chain_id, destination_chain_id }
}

/// Runs the proof program on its inputs.
///
/// Fails with `InvalidInput`, before anything is hashed or committed, exactly
/// when source and destination chain are equal or the message is empty.
/// Otherwise returns the 96 bytes that the program commits to as its public
/// output: the canonical encoding of the message hash and the two chain
/// identifiers.
pub fn commit_public_values(message: &[u8], source_chain_id: u32, destination_chain_id: u32) -> (committed:
    Result<Vec<u8>, VerificationError>)
    ensures
        match committed {
            Ok(bytes) => {
                &&& spec_inputs_valid(message@, source_chain_id, destination_chain_id)
                &&& bytes@ == spec_commitment(message@, source_chain_id, destination_chain_id)
                &&& bytes@.len() == 96
            },
            Err(e) => {
                &&& !spec_inputs_valid(message@, source_chain_id, destination_chain_id)
                &&& e == VerificationError::InvalidInput
            },
        },
{
    match validate_inputs(message, source_chain_id, destination_chain_id) {
        Err(e) => Err(e),
        Ok(()) => {
            let values = derive_public_values(message, source_chain_id, destination_chain_id);
            Ok(values.abi_encode())
        },
    }
}

} // verus!
