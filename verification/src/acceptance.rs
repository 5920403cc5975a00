//! The acceptance rule in stages, for a host that keeps the processed flags
//! in storage of its own.
//!
//! The host looks a flag up, hands the answer to the next stage, and does
//! what the stage returns. Each stage can only be entered with what the one
//! before it returned, so the order of the rule is kept: the nonce is
//! screened before anything is hashed, the oracle is asked only about a
//! fresh record whose proof binds it, and only a positive verdict concludes
//! in an acceptance.

use crate::error::VerificationError;
use crate::model::{spec_decide, spec_expected_values};
use crate::program::derive_public_values;
use crate::public_values::{spec_abi_encode, PublicValues, PublicValuesView};
use crate::records::{
    Accepted, MessageRecord, MessageStored, ProofData, VerificationRequest,
    VerificationRequestView,
};
use vstd::prelude::*;
use vstd::slice::slice_to_vec;

verus! {

/// A record whose `(source chain, nonce)` pair was found fresh, with the
/// public values derived from it.
pub struct Screened {
    expected: PublicValues,
    nonce: u64,
}

/// A fresh record with a proof that attests exactly the public values
/// derived from it; what is left is the oracle's verdict.
pub struct Bound {
    expected: PublicValues,
    nonce: u64,
    request: VerificationRequest,
}

/// What the oracle is to be asked for a proof under a verifying key: the key,
/// the proof bytes, and the encoding of the public values the proof must
/// attest.
pub open spec fn spec_request(
    verifier_key: Seq<u8>,
    proof: Seq<u8>,
    expected: PublicValuesView,
) -> VerificationRequestView {
    VerificationRequestView {
        verifier_key,
        proof,
        public_values: spec_abi_encode(expected),
    }
}

/// First stage: screens the record's `(source chain, nonce)` pair.
///
/// `nonce_seen` says whether the pair is flagged as processed. If it is, the
/// record is turned away as `AlreadyProcessed` and nothing is hashed.
/// Otherwise the public values are derived from the record, the hash
/// recomputed from the message bytes.
pub fn screen(record: &MessageRecord, nonce_seen: bool) -> (screened: Result<
    Screened,
    VerificationError,
>)
    ensures
        match screened {
            Ok(s) => {
                &&& !nonce_seen
                &&& s.expected() == spec_expected_values(record@)
                &&& s.nonce() == record.nonce
            },
            Err(e) => nonce_seen && e == VerificationError::AlreadyProcessed,
        },
{
    if nonce_seen {
        return Err(VerificationError::AlreadyProcessed);
    }
    let expected = derive_public_values(
        record.message.as_slice(),
        record.source_chain_id,
        record.destination_chain_id,
    );
    Ok(Screened { expected, nonce: record.nonce })
}

impl Screened {
    /// The public values derived from the record.
    pub closed spec fn expected(&self) -> PublicValuesView {
        self.expected@
    }

    /// The record's nonce.
    pub closed spec fn nonce(&self) -> u64 {
        self.nonce
    }

    /// The content hash of the record: the key of the flag to look up next.
    pub fn message_hash(&self) -> (hash: [u8; 32])
        ensures
            hash@ == self.expected().message_hash,
    {
        self.expected.message_hash
    }

    /// Second stage: screens the content hash and binds the proof.
    ///
    /// `hash_seen` says whether the content hash is flagged as processed. If
    /// it is, the record is turned away as `AlreadyProcessed`. Otherwise the
    /// proof must attest exactly the derived public values, or it is an
    /// `InvalidProof`. What is returned holds the question for the oracle.
    pub fn bind(self, hash_seen: bool, proof: &ProofData, verifier_key: &[u8]) -> (bound: Result<
        Bound,
        VerificationError,
    >)
        ensures
            match bound {
                Ok(b) => {
                    &&& spec_decide(
                        false,
                        hash_seen,
                        proof@.public_values == self.expected(),
                        true,
                    ) is Ok
                    &&& b.expected() == self.expected()
                    &&& b.nonce() == self.nonce()
                    &&& b.request_view() == spec_request(
                        verifier_key@,
                        proof@.proof,
                        self.expected(),
                    )
                },
                Err(e) => spec_decide(
                    false,
                    hash_seen,
                    proof@.public_values == self.expected(),
                    true,
                ) == Err::<(), VerificationError>(e),
            },
    {
        if hash_seen {
            return Err(VerificationError::AlreadyProcessed);
        }
        if !proof.public_values().same_as(&self.expected) {
            return Err(VerificationError::InvalidProof);
        }
        let request = VerificationRequest {
            verifier_key: slice_to_vec(verifier_key),
            proof: slice_to_vec(proof.proof.as_slice()),
            public_values: self.expected.abi_encode(),
        };
        Ok(Bound { expected: self.expected, nonce: self.nonce, request })
    }
}

impl Bound {
    /// The public values derived from the record.
    pub closed spec fn expected(&self) -> PublicValuesView {
        self.expected@
    }

    /// The record's nonce.
    pub closed spec fn nonce(&self) -> u64 {
        self.nonce
    }

    /// The question for the oracle, as plain data.
    pub closed spec fn request_view(&self) -> VerificationRequestView {
        self.request@
    }

    /// The question for the oracle.
    pub fn request(&self) -> (request: &VerificationRequest)
        ensures
            request@ == self.request_view(),
    {
        &self.request
    }

    /// Last stage: concludes with the oracle's verdict.
    ///
    /// A negative verdict is an `InvalidProof`. A positive one is an
    /// acceptance: the result carries the record's nonce and hash, and the
    /// event to emit, which names `sender`. The host then sets both
    /// processed flags and emits the event, all or nothing.
    pub fn conclude(self, verdict: bool, sender: [u8; 20]) -> (accepted: Result<
        Accepted,
        VerificationError,
    >)
        ensures
            match accepted {
                Ok(a) => {
                    &&& verdict
                    &&& a.nonce == self.nonce()
                    &&& a.message_hash@ == self.expected().message_hash
                    &&& a.event == (MessageStored {
                        message_hash: a.message_hash,
                        source_chain_id: self.expected().source_chain_id,
                        nonce: self.nonce(),
                        sender,
                    })
                },
                Err(e) => !verdict && e == VerificationError::InvalidProof,
            },
    {
        if !verdict {
            return Err(VerificationError::InvalidProof);
        }
        let message_hash = self.expected.message_hash;
        Ok(
            Accepted {
                nonce: self.nonce,
                message_hash,
                event: MessageStored {
                    message_hash,
                    source_chain_id: self.expected.source_chain_id,
                    nonce: self.nonce,
                    sender,
                },
            },
        )
    }
}

} // verus!
