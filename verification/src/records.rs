//! The values that travel between the ledgers, the prover and the relay.

use crate::public_values::{PublicValues, PublicValuesView};
use vstd::prelude::*;

verus! {

/// A message as the receiving ledger is handed it: the payload, the chains it
/// travels between, and the nonce the sending ledger gave it.
#[derive(Clone, Debug, PartialEq, Eq)]
pub struct MessageRecord {
    pub message: Vec<u8>,
    pub source_chain_id: u32,
    pub destination_chain_id: u32,
    pub nonce: u64,
}

/// A message record as plain mathematical data.
pub struct MessageRecordView {
    pub message: Seq<u8>,
    pub source_chain_id: u32,
    pub destination_chain_id: u32,
    pub nonce: u64,
}

impl View for MessageRecord {
    type V = MessageRecordView;

    open spec fn view(&self) -> MessageRecordView {
        MessageRecordView {
            message: self.message@,
            source_chain_id: self.source_chain_id,
            destination_chain_id: self.destination_chain_id,
            nonce: self.nonce,
        }
    }
}

/// A proof as it reaches the receiver: opaque proof bytes, and the public
/// values that the proof attests to.
#[derive(Clone, Debug, PartialEq, Eq)]
pub struct ProofData {
    pub proof: Vec<u8>,
    pub message_hash: [u8; 32],
    pub source_chain_id: u32,
    pub destination_chain_id: u32,
}

/// Proof data as plain mathematical data.
pub struct ProofDataView {
    pub proof: Seq<u8>,
    pub public_values: PublicValuesView,
}

impl View for ProofData {
    type V = ProofDataView;

    open spec fn view(&self) -> ProofDataView {
        ProofDataView {
            proof: self.proof@,
            public_values: PublicValuesView {
                message_hash: self.message_hash@,
                source_chain_id: self.source_chain_id,
                destination_chain_id: self.destination_chain_id,
            },
        }
    }
}

impl ProofData {
    /// The public values that this proof attests to.
    pub fn public_values(&self) -> (values: PublicValues)
        ensures
            values@ == self@.public_values,
    {
        PublicValues {
            message_hash: self.message_hash,
            source_chain_id: self.source_chain_id,
            destination_chain_id: self.destination_chain_id,
        }
    }
}

/// A message that the sending ledger has numbered and released for relay.
#[derive(Clone, Debug, PartialEq, Eq)]
pub struct OutgoingMessage {
    pub data: Vec<u8>,
    pub nonce: u64,
}

/// The event that tells the relay of a released message.
#[derive(Clone, Debug, PartialEq, Eq)]
pub struct MessagePrepared {
    pub nonce: u64,
    pub data: Vec<u8>,
}

impl OutgoingMessage {
    /// The event to emit for this message: the same nonce and the same bytes.
    pub fn event(&self) -> (event: MessagePrepared)
        ensures
            event.nonce == self.nonce,
            event.data@ == self.data@,
    {
        MessagePrepared { nonce: self.nonce, data: vstd::slice::slice_to_vec(self.data.as_slice()) }
    }
}

/// The event that records an acceptance on the receiving ledger.
#[derive(Clone, Copy, Debug, PartialEq, Eq)]
pub struct MessageStored {
    pub message_hash: [u8; 32],
    pub source_chain_id: u32,
    pub nonce: u64,
    pub sender: [u8; 20],
}

/// What a successful acceptance returns: the nonce and hash of the accepted
/// message, and the event to emit for it.
#[derive(Clone, Copy, Debug, PartialEq, Eq)]
pub struct Accepted {
    pub nonce: u64,
    pub message_hash: [u8; 32],
    pub event: MessageStored,
}

/// What is handed to the verification oracle: the ledger's verifying key, the
/// proof bytes, and the encoded public values that the proof must attest.
#[derive(Clone, Debug, PartialEq, Eq)]
pub struct VerificationRequest {
    pub verifier_key: Vec<u8>,
    pub proof: Vec<u8>,
    pub public_values: Vec<u8>,
}

/// A verification request as plain mathematical data.
pub struct VerificationRequestView {
    pub verifier_key: Seq<u8>,
    pub proof: Seq<u8>,
    pub public_values: Seq<u8>,
}

impl View for VerificationRequest {
    type V = VerificationRequestView;

    open spec fn view(&self) -> VerificationRequestView {
        VerificationRequestView {
            verifier_key: self.verifier_key@,
            proof: self.proof@,
            public_values: self.public_values@,
        }
    }
}

} // verus!
