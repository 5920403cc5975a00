//! The decisions of the proof generation service.
//!
//! The service drives a proving backend, which lives outside this library.
//! What it decides lives here: which of its two modes a call selects, whether
//! the public output of a trial execution is the commitment it should be, and
//! whether a produced proof may be packaged for the receiver.

use crate::error::VerificationError;
use crate::program::{derive_public_values, spec_commitment, spec_public_values};
use crate::public_values::{
    law_decode_inverts_encode, law_validated_decoding_is_canonical, PublicValues,
};
use crate::records::ProofData;
use vstd::prelude::*;

verus! {

/// The proof systems a proof can be requested in. Both attest the same
/// public values.
#[derive(Clone, Copy, Debug, PartialEq, Eq, Structural)]
pub enum ProofSystem {
    Plonk,
    Groth16,
}

/// What the service is asked to do with a message.
#[derive(Clone, Copy, Debug, PartialEq, Eq, Structural)]
pub enum Mode {
    /// Run the proof program and report its public values, without a proof.
    Execute,
    /// Produce a proof over the program's execution.
    Prove,
}

/// The mode that the two switches select, if they select one.
pub open spec fn spec_select_mode(execute: bool, prove: bool) -> Option<Mode> {
    if execute == prove {
        None
    } else if execute {
        Some(Mode::Execute)
    } else {
        Some(Mode::Prove)
    }
}

/// Selects the mode from the two switches of a call. Exactly one of them has
/// to be set: with both or neither there is no mode.
pub fn select_mode(execute: bool, prove: bool) -> (mode: Option<Mode>)
    ensures
        mode == spec_select_mode(execute, prove),
{
    if execute == prove {
        None
    } else if execute {
        Some(Mode::Execute)
    } else {
        Some(Mode::Prove)
    }
}

/// Checks the public output of an execution of the proof program.
///
/// Succeeds, with the decoded public values, exactly when `output` is the
/// commitment for these inputs: the canonical encoding of the hash of
/// `message` and of the two chain identifiers. Any other output is a
/// `ProvingBackendFailure`.
pub fn check_execution_output(
    output: &[u8],
    message: &[u8],
    source_chain_id: u32,
    destination_chain_id: u32,
) -> (checked: Result<PublicValues, VerificationError>)
    ensures
        match checked {
            Ok(values) => {
                &&& output@ == spec_commitment(message@, source_chain_id, destination_chain_id)
                &&& values@ == spec_public_values(message@, source_chain_id, destination_chain_id)
            },
            Err(e) => {
                &&& output@ != spec_commitment(message@, source_chain_id, destination_chain_id)
                &&& e == VerificationError::ProvingBackendFailure
            },
        },
{
    let expected = derive_public_values(message, source_chain_id, destination_chain_id);
    proof {
        law_decode_inverts_encode(expected@, true);
    }
    match PublicValues::abi_decode(output, true) {
        None => Err(VerificationError::ProvingBackendFailure),
        Some(values) => {
            proof {
                law_validated_decoding_is_canonical(output@);
            }
            if values.same_as(&expected) {
                Ok(values)
            } else {
                Err(VerificationError::ProvingBackendFailure)
            }
        },
    }
}

/// Whether a produced proof may be relayed: the backend's public values are
/// the commitment for the inputs, and the proof passed the local check
/// against the receiver's verifying key.
pub open spec fn spec_proof_usable(
    message: Seq<u8>,
    source: u32,
    destination: u32,
    public_values: Seq<u8>,
    self_verified: bool,
) -> bool {
    self_verified && public_values == spec_commitment(message, source, destination)
}

/// Packages a produced proof for the receiver.
///
/// `public_values` and `proof` are what the backend returned for the inputs,
/// and `self_verified` says whether the proof passed the service's own check
/// against the verifying key the receiver will use. Succeeds exactly when
/// that check passed and the public values are the commitment for the
/// inputs; the package then holds the proof bytes and the public values they
/// attest. Anything else is a `ProvingBackendFailure`, and nothing is relayed.
pub fn package_proof(
    message: &[u8],
    source_chain_id: u32,
    destination_chain_id: u32,
    public_values: &[u8],
    proof: Vec<u8>,
    self_verified: bool,
) -> (packaged: Result<ProofData, VerificationError>)
    ensures
        match packaged {
            Ok(p) => {
                &&& spec_proof_usable(
                    message@,
                    source_chain_id,
                    destination_chain_id,
                    public_values@,
                    self_verified,
                )
                &&& p@.proof == proof@
                &&& p@.public_values == spec_public_values(
                    message@,
                    source_chain_id,
                    destination_chain_id,
                )
            },
            Err(e) => {
                &&& !spec_proof_usable(
                    message@,
                    source_chain_id,
                    destination_chain_id,
                    public_values@,
                    self_verified,
                )
                &&& e == VerificationError::ProvingBackendFailure
            },
        },
{
    if !self_verified {
        return Err(VerificationError::ProvingBackendFailure);
    }
    match check_execution_output(public_values, message, source_chain_id, destination_chain_id) {
        Err(e) => Err(e),
        Ok(values) => Ok(
            ProofData {
                proof,
                message_hash: values.message_hash,
                source_chain_id: values.source_chain_id,
                destination_chain_id: values.destination_chain_id,
            },
        ),
    }
}

} // verus!
