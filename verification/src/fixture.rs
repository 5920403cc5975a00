//! Fixtures for checking a proof on a contract platform: the pieces of a
//! proof as `0x`-prefixed lower-case hexadecimal text.

use crate::public_values::{spec_abi_decode, PublicValues};
use crate::service::ProofSystem;
use vstd::prelude::*;
use vstd::string::StringExecFns;

verus! {

/// The lower-case hexadecimal digit for a value below 16.
pub open spec fn spec_hex_digit(nibble: int) -> char
    recommends
        0 <= nibble < 16,
{
    seq!['0', '1', '2', '3', '4', '5', '6', '7', '8', '9', 'a', 'b', 'c', 'd', 'e', 'f'][nibble]
}

/// The lower-case hexadecimal text of `bytes`: two digits per byte, the high
/// half first.
pub open spec fn spec_hex(bytes: Seq<u8>) -> Seq<char> {
    Seq::new(
        2 * bytes.len(),
        |i: int|
            if i % 2 == 0 {
                spec_hex_digit(bytes[i / 2] as int / 16)
            } else {
                spec_hex_digit(bytes[i / 2] as int % 16)
            },
    )
}

/// `0x` followed by the hexadecimal text of `bytes`.
pub open spec fn spec_prefixed_hex(bytes: Seq<u8>) -> Seq<char> {
    seq!['0', 'x'] + spec_hex(bytes)
}

/// Encodes `data` as lower-case hexadecimal text.
///
/// Trusted: the body calls `hex::encode`, which writes each byte as two
/// digits from `0123456789abcdef`, the high half first, in input order.
#[verifier::external_body]
fn hex_encode(data: &[u8]) -> (text: String)
    ensures
        text@ == spec_hex(data@),
{
    hex::encode(data)
}

/// `0x` followed by the lower-case hexadecimal text of `data`.
pub fn prefixed_hex(data: &[u8]) -> (text: String)
    ensures
        text@ == spec_prefixed_hex(data@),
{
    let mut text = String::from_str("0x");
    proof {
        reveal_strlit("0x");
        assert("0x"@ =~= seq!['0', 'x']);
    }
    let digits = hex_encode(data);
    text.append(digits.as_str());
    text
}

/// A proof in the form a contract test reads it.
#[derive(Clone, Debug, PartialEq, Eq)]
pub struct ProofFixture {
    pub message_hash: String,
    pub source_chain_id: u32,
    pub destination_chain_id: u32,
    pub vkey: String,
    pub public_values: String,
    pub proof: String,
}

/// Builds the fixture for a proof from the proof's encoded public values,
/// its bytes, and the text of the verifying key's digest.
///
/// The public values are decoded without validation, so there is a fixture
/// exactly when they are at least 96 bytes long. The fixture names the
/// decoded hash and chain identifiers, and carries the hash, the public
/// values as given and the proof bytes as `0x`-prefixed hexadecimal text; the
/// key text is passed through.
pub fn create_proof_fixture(public_values: &[u8], proof: &[u8], vkey: String) -> (fixture: Option<
    ProofFixture,
>)
    ensures
        match fixture {
            Some(f) => {
                &&& spec_abi_decode(public_values@, false) is Some
                &&& f.message_hash@ == spec_prefixed_hex(
                    spec_abi_decode(public_values@, false).unwrap().message_hash,
                )
                &&& f.source_chain_id == spec_abi_decode(
                    public_values@,
                    false,
                ).unwrap().source_chain_id
                &&& f.destination_chain_id == spec_abi_decode(
                    public_values@,
                    false,
                ).unwrap().destination_chain_id
                &&& f.vkey@ == vkey@
                &&& f.public_values@ == spec_prefixed_hex(public_values@)
                &&& f.proof@ == spec_prefixed_hex(proof@)
            },
            None => spec_abi_decode(public_values@, false) is None,
        },
{
    match PublicValues::abi_decode(public_values, false) {
        None => None,
        Some(values) => Some(
            ProofFixture {
                message_hash: prefixed_hex(values.message_hash.as_slice()),
                source_chain_id: values.source_chain_id,
                destination_chain_id: values.destination_chain_id,
                vkey,
                public_values: prefixed_hex(public_values),
                proof: prefixed_hex(proof),
            },
        ),
    }
}

/// The name of a proof system as fixture files spell it.
pub open spec fn spec_system_name(system: ProofSystem) -> Seq<char> {
    match system {
        ProofSystem::Plonk => "Plonk"@,
        ProofSystem::Groth16 => "Groth16"@,
    }
}

/// The name of the file that holds the fixture for a proof system:
/// `proof_fixture_Plonk.json` or `proof_fixture_Groth16.json`.
pub fn fixture_file_name(system: ProofSystem) -> (name: String)
    ensures
        name@ == "proof_fixture_"@ + spec_system_name(system) + ".json"@,
{
    let mut name = String::from_str("proof_fixture_");
    match system {
        ProofSystem::Plonk => name.append("Plonk"),
        ProofSystem::Groth16 => name.append("Groth16"),
    }
    name.append(".json");
    name
}

} // verus!
