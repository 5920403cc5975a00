//! The executable ledger: one instance sends and receives.
//!
//! On the sending side it numbers outgoing messages. On the receiving side
//! it accepts a message at most once per `(source chain, nonce)` and at most
//! once per content hash, and only with a proof that binds the message and
//! that the verification oracle has passed. The oracle itself is outside:
//! the ledger says what to ask it, and takes its verdict.

use crate::acceptance::{screen, spec_request};
use crate::error::VerificationError;
use crate::hash::{bytes_equal, sha256};
use crate::model::{
    spec_accept_outcome, spec_accept_state, spec_expected_values, spec_new, spec_proof_binds,
    spec_rotate_outcome, spec_rotate_state, spec_submit, LedgerState,
};
use crate::program::derive_public_values;
use crate::public_values::spec_abi_encode;
use crate::records::{
    Accepted, MessageRecord, MessageRecordView, MessageStored, OutgoingMessage, ProofData,
    ProofDataView, VerificationRequest,
};
use vstd::prelude::*;
use vstd::slice::slice_to_vec;

verus! {

/// The hashes in a list, each as a byte sequence.
pub open spec fn spec_hash_views(hashes: Seq<[u8; 32]>) -> Seq<Seq<u8>> {
    hashes.map_values(|h: [u8; 32]| h@)
}

/// A ledger instance, holding its state in memory.
pub struct CrossChainMessaging {
    owner: [u8; 20],
    verifier_key: Vec<u8>,
    retain_messages: bool,
    outgoing_nonce: u64,
    messages: Vec<Vec<u8>>,
    verified: Vec<[u8; 32]>,
    processed: Vec<(u32, u64)>,
}

impl View for CrossChainMessaging {
    type V = LedgerState;

    closed spec fn view(&self) -> LedgerState {
        LedgerState {
            owner: self.owner@,
            verifier_key: self.verifier_key@,
            retain_messages: self.retain_messages,
            outgoing_nonce: self.outgoing_nonce as nat,
            messages: Map::new(
                |n: u64| self.retain_messages && 1 <= n <= self.outgoing_nonce,
                |n: u64| self.messages@[n - 1]@,
            ),
            incoming_nonce: self.processed@.len(),
            verified_messages: spec_hash_views(self.verified@).to_set(),
            processed_nonces: self.processed@.to_set(),
        }
    }
}

/// Whether `accepted` is what an acceptance returns in state `s` for the
/// oracle's `verdict`: on success the record's nonce and hash and the event
/// that names `sender`, on failure the error of the acceptance rule.
pub open spec fn spec_accept_result(
    accepted: Result<Accepted, VerificationError>,
    s: LedgerState,
    record: MessageRecordView,
    proof: ProofDataView,
    verdict: bool,
    sender: [u8; 20],
) -> bool {
    match accepted {
        Ok(a) => {
            &&& spec_accept_outcome(s, record, proof, verdict) is Ok
            &&& a.nonce == record.nonce
            &&& a.message_hash@ == sha256(record.message)
            &&& a.event == (MessageStored {
                message_hash: a.message_hash,
                source_chain_id: record.source_chain_id,
                nonce: record.nonce,
                sender,
            })
        },
        Err(e) => spec_accept_outcome(s, record, proof, verdict) == Err::<(), VerificationError>(e),
    }
}

/// The nonce after `current`, if there is one: nonces move up by one and end
/// at `u64::MAX`.
pub fn next_nonce(current: u64) -> (next: Option<u64>)
    ensures
        next == (if current < u64::MAX {
            Some((current + 1) as u64)
        } else {
            None
        }),
{
    if current < u64::MAX {
        Some(current + 1)
    } else {
        None
    }
}

/// Whether `caller` may administer a ledger owned by `owner`: only the owner
/// may, anyone else is `Unauthorized`.
pub fn authorize(owner: &[u8], caller: &[u8]) -> (authorized: Result<(), VerificationError>)
    ensures
        authorized == (if caller@ == owner@ {
            Ok::<(), VerificationError>(())
        } else {
            Err::<(), VerificationError>(VerificationError::Unauthorized)
        }),
{
    if bytes_equal(caller, owner) {
        Ok(())
    } else {
        Err(VerificationError::Unauthorized)
    }
}

impl CrossChainMessaging {
    /// What the fields must satisfy: kept messages are exactly those
    /// released, and no nonce pair and no hash is recorded twice.
    pub closed spec fn wf(&self) -> bool {
        &&& self.retain_messages ==> self.messages@.len() == self.outgoing_nonce
        &&& !self.retain_messages ==> self.messages@.len() == 0
        &&& self.verified@.len() == self.processed@.len()
        &&& self.processed@.no_duplicates()
        &&& spec_hash_views(self.verified@).no_duplicates()
    }

    /// A well-formed ledger is in a consistent state.
    pub proof fn law_wf_is_consistent(&self)
        requires
            self.wf(),
        ensures
            self@.consistent(),
    {
        let hashes = spec_hash_views(self.verified@);
        vstd::seq_lib::seq_to_set_is_finite(hashes);
        vstd::seq_lib::seq_to_set_is_finite(self.processed@);
        hashes.unique_seq_to_set();
        self.processed@.unique_seq_to_set();
    }

    /// Sets up a ledger: nothing released, nothing accepted.
    pub fn new(owner: [u8; 20], verifier_key: Vec<u8>, retain_messages: bool) -> (ledger: Self)
        ensures
            ledger.wf(),
            ledger@ == spec_new(owner@, verifier_key@, retain_messages),
    {
        let ledger = CrossChainMessaging {
            owner,
            verifier_key,
            retain_messages,
            outgoing_nonce: 0,
            messages: Vec::new(),
            verified: Vec::new(),
            processed: Vec::new(),
        };
        proof {
            let s = spec_new(owner@, verifier_key@, retain_messages);
            assert(spec_hash_views(ledger.verified@) =~= Seq::<Seq<u8>>::empty());
            assert(ledger@.verified_messages =~= s.verified_messages);
            assert(ledger@.processed_nonces =~= s.processed_nonces);
            assert(ledger@.messages =~= s.messages);
        }
        ledger
    }

    /// The nonce of the last released message; 0 while none was released.
    pub fn get_outgoing_nonce(&self) -> (nonce: u64)
        ensures
            nonce == self@.outgoing_nonce,
    {
        self.outgoing_nonce
    }

    /// How many messages were accepted; 0 while none was accepted.
    pub fn get_incoming_nonce(&self) -> (count: u64)
        ensures
            count == self@.incoming_nonce,
    {
        self.processed.len() as u64
    }

    /// The key that proofs are verified against.
    pub fn verifier_key(&self) -> (key: &Vec<u8>)
        ensures
            key@ == self@.verifier_key,
    {
        &self.verifier_key
    }

    /// Who may rotate the verifying key.
    pub fn owner(&self) -> (owner: [u8; 20])
        ensures
            owner@ == self@.owner,
    {
        self.owner
    }

    /// Whether released messages are kept for retrieval.
    pub fn retains_messages(&self) -> (retain: bool)
        ensures
            retain == self@.retain_messages,
    {
        self.retain_messages
    }

    /// Whether a message from `source_chain_id` with `nonce` was accepted.
    pub fn is_nonce_processed(&self, source_chain_id: u32, nonce: u64) -> (seen: bool)
        ensures
            seen == self@.processed_nonces.contains((source_chain_id, nonce)),
    {
        let mut i: usize = 0;
        while i < self.processed.len()
            invariant
                i <= self.processed@.len(),
                forall|j: int| 0 <= j < i ==> self.processed@[j] != (source_chain_id, nonce),
            decreases self.processed@.len() - i,
        {
            let entry = self.processed[i];
            if entry.0 == source_chain_id && entry.1 == nonce {
                assert(self.processed@[i as int] == (source_chain_id, nonce));
                return true;
            }
            i += 1;
        }
        false
    }

    /// Whether a message with this content hash was accepted.
    pub fn is_message_verified(&self, message_hash: &[u8; 32]) -> (seen: bool)
        ensures
            seen == self@.verified_messages.contains(message_hash@),
    {
        let ghost hashes = spec_hash_views(self.verified@);
        let mut i: usize = 0;
        while i < self.verified.len()
            invariant
                i <= self.verified@.len(),
                hashes == spec_hash_views(self.verified@),
                forall|j: int| 0 <= j < i ==> hashes[j] != message_hash@,
            decreases self.verified@.len() - i,
        {
            if bytes_equal(self.verified[i].as_slice(), message_hash.as_slice()) {
                assert(hashes[i as int] == message_hash@);
                return true;
            }
            i += 1;
        }
        false
    }

    /// Releases a message for relay: gives it the next nonce, keeps it where
    /// messages are kept, and returns it with its nonce. Nonces start at 1
    /// and move up by one with every release.
    pub fn prepare_outgoing_message(&mut self, data: Vec<u8>) -> (released: OutgoingMessage)
        requires
            old(self).wf(),
            old(self)@.outgoing_nonce < u64::MAX,
        ensures
            final(self).wf(),
            final(self)@ == spec_submit(old(self)@, data@),
            released.nonce == old(self)@.outgoing_nonce + 1,
            released.data@ == data@,
    {
        let nonce: u64 = next_nonce(self.outgoing_nonce).unwrap();
        if self.retain_messages {
            self.messages.push(slice_to_vec(data.as_slice()));
        }
        self.outgoing_nonce = nonce;
        proof {
            let old_view = old(self)@;
            let new_view = self@;
            let target = spec_submit(old_view, data@);
            assert(new_view.messages =~= target.messages);
            assert(new_view.verified_messages == target.verified_messages);
            assert(new_view.processed_nonces == target.processed_nonces);
        }
        OutgoingMessage { data, nonce }
    }

    /// Looks up a released message by its nonce. Finds it exactly when
    /// messages are kept and the nonce was given out.
    pub fn get_message(&self, nonce: u64) -> (found: Option<Vec<u8>>)
        requires
            self.wf(),
        ensures
            match found {
                Some(message) => self@.messages.contains_key(nonce) && message@
                    == self@.messages[nonce],
                None => !self@.messages.contains_key(nonce),
            },
    {
        if self.retain_messages && 1 <= nonce && nonce <= self.outgoing_nonce {
            let kept: usize = self.messages.len();
            assert(nonce - 1 < kept);
            let at: usize = (nonce - 1) as usize;
            Some(slice_to_vec(self.messages[at].as_slice()))
        } else {
            None
        }
    }

    /// Prepares the question for the verification oracle.
    ///
    /// Turns duplicates away before anything else: `AlreadyProcessed` if the
    /// record's `(source chain, nonce)` pair or its content hash was accepted
    /// before. Then derives the expected public values from the record, the
    /// hash recomputed from the message bytes, and fails with `InvalidProof`
    /// if the proof attests anything else. Otherwise returns what the oracle
    /// is to be asked: this ledger's verifying key, the proof bytes, and the
    /// encoding of the expected public values. A request is returned exactly
    /// when acceptance hinges on the oracle's verdict alone.
    pub fn verification_request(&self, record: &MessageRecord, proof: &ProofData) -> (request:
        Result<VerificationRequest, VerificationError>)
        ensures
            match request {
                Ok(r) => {
                    &&& spec_accept_outcome(self@, record@, proof@, true) is Ok
                    &&& r.verifier_key@ == self@.verifier_key
                    &&& r.proof@ == proof@.proof
                    &&& r.public_values@ == spec_abi_encode(spec_expected_values(record@))
                },
                Err(e) => spec_accept_outcome(self@, record@, proof@, true) == Err::<
                    (),
                    VerificationError,
                >(e),
            },
    {
        let nonce_seen = self.is_nonce_processed(record.source_chain_id, record.nonce);
        match screen(record, nonce_seen) {
            Err(e) => Err(e),
            Ok(screened) => {
                let hash_seen = self.is_message_verified(&screened.message_hash());
                match screened.bind(hash_seen, proof, self.verifier_key.as_slice()) {
                    Err(e) => Err(e),
                    Ok(bound) => {
                        let request = bound.request();
                        Ok(
                            VerificationRequest {
                                verifier_key: slice_to_vec(request.verifier_key.as_slice()),
                                proof: slice_to_vec(request.proof.as_slice()),
                                public_values: slice_to_vec(request.public_values.as_slice()),
                            },
                        )
                    },
                }
            },
        }
    }

    /// Whether a proof stands for a record: it attests exactly the public
    /// values derived from the record, the hash recomputed from the message
    /// bytes, and the oracle's `verdict` on it is positive.
    pub fn verify_proof(&self, proof: &ProofData, record: &MessageRecord, verdict: bool) -> (valid:
        bool)
        ensures
            valid == (spec_proof_binds(record@, proof@) && verdict),
    {
        let expected = derive_public_values(
            record.message.as_slice(),
            record.source_chain_id,
            record.destination_chain_id,
        );
        proof.public_values().same_as(&expected) && verdict
    }

    /// Flags a hash and a nonce pair as processed, together.
    fn flag_processed(&mut self, source_chain_id: u32, nonce: u64, message_hash: [u8; 32])
        requires
            old(self).wf(),
            !old(self)@.processed_nonces.contains((source_chain_id, nonce)),
            !old(self)@.verified_messages.contains(message_hash@),
        ensures
            final(self).wf(),
            final(self)@ == (LedgerState {
                incoming_nonce: old(self)@.incoming_nonce + 1,
                verified_messages: old(self)@.verified_messages.insert(message_hash@),
                processed_nonces: old(self)@.processed_nonces.insert((source_chain_id, nonce)),
                ..old(self)@
            }),
    {
        let ghost old_hashes = spec_hash_views(self.verified@);
        self.verified.push(message_hash);
        self.processed.push((source_chain_id, nonce));
        proof {
            let pair = (source_chain_id, nonce);
            let target = LedgerState {
                incoming_nonce: old(self)@.incoming_nonce + 1,
                verified_messages: old(self)@.verified_messages.insert(message_hash@),
                processed_nonces: old(self)@.processed_nonces.insert(pair),
                ..old(self)@
            };
            assert(spec_hash_views(self.verified@) =~= old_hashes.push(message_hash@));
            old_hashes.lemma_push_to_set_commute(message_hash@);
            old(self).processed@.lemma_push_to_set_commute(pair);
            assert(self@.messages =~= target.messages);
            assert(self@.verified_messages =~= target.verified_messages);
            assert(self@.processed_nonces =~= target.processed_nonces);
        }
    }

    /// Accepts a message, given the oracle's verdict on its proof.
    ///
    /// Fails with `AlreadyProcessed` if the record's `(source chain, nonce)`
    /// pair or its content hash was accepted before; else with `InvalidProof`
    /// if the proof attests other public values than those derived from the
    /// record, or the verdict is negative. A rejection changes nothing. On
    /// success the hash and the nonce pair are flagged together, the count of
    /// accepted messages moves up by one, and the result carries the nonce,
    /// the hash and the acceptance event, which names `sender`.
    pub fn store_message(
        &mut self,
        record: &MessageRecord,
        proof: &ProofData,
        verdict: bool,
        sender: [u8; 20],
    ) -> (accepted: Result<Accepted, VerificationError>)
        requires
            old(self).wf(),
        ensures
            final(self).wf(),
            final(self)@ == spec_accept_state(old(self)@, record@, proof@, verdict),
            spec_accept_result(accepted, old(self)@, record@, proof@, verdict, sender),
    {
        let told = |request: &VerificationRequest| -> (answer: bool)
            ensures
                answer == verdict,
            { verdict };
        self.accept(record, proof, sender, told)
    }

    /// Accepts a message, asking `oracle` for the verdict on its proof.
    ///
    /// The oracle is asked at most once, and only what this ledger fixes:
    /// its own verifying key, the proof bytes, and the encoding of the
    /// public values derived from the record. It is asked only when
    /// acceptance hinges on its verdict alone, that is, for a fresh record
    /// whose proof attests exactly those public values; duplicates and
    /// unbound proofs are turned away before. So the oracle needs to be
    /// ready for that one question only, and only in that case. The outcome
    /// and the state afterwards are those of `store_message` for the
    /// oracle's answer.
    pub fn accept<F: FnOnce(&VerificationRequest) -> bool>(
        &mut self,
        record: &MessageRecord,
        proof: &ProofData,
        sender: [u8; 20],
        oracle: F,
    ) -> (accepted: Result<Accepted, VerificationError>)
        requires
            old(self).wf(),
            spec_accept_outcome(old(self)@, record@, proof@, true) is Ok ==> forall|
                request: &VerificationRequest,
            |
                request@ == spec_request(
                    old(self)@.verifier_key,
                    proof@.proof,
                    spec_expected_values(record@),
                ) ==> #[trigger] oracle.requires((request,)),
        ensures
            final(self).wf(),
            spec_accept_outcome(old(self)@, record@, proof@, true) is Err ==> {
                &&& final(self)@ == old(self)@
                &&& spec_accept_result(accepted, old(self)@, record@, proof@, true, sender)
            },
            spec_accept_outcome(old(self)@, record@, proof@, true) is Ok ==> exists|
                request: &VerificationRequest,
                verdict: bool,
            |
                {
                    &&& request@ == spec_request(
                        old(self)@.verifier_key,
                        proof@.proof,
                        spec_expected_values(record@),
                    )
                    &&& #[trigger] oracle.ensures((request,), verdict)
                    &&& final(self)@ == spec_accept_state(old(self)@, record@, proof@, verdict)
                    &&& spec_accept_result(accepted, old(self)@, record@, proof@, verdict, sender)
                },
    {
        let nonce_seen = self.is_nonce_processed(record.source_chain_id, record.nonce);
        let screened = match screen(record, nonce_seen) {
            Err(e) => {
                return Err(e);
            },
            Ok(screened) => screened,
        };
        let hash_seen = self.is_message_verified(&screened.message_hash());
        let bound = match screened.bind(hash_seen, proof, self.verifier_key.as_slice()) {
            Err(e) => {
                return Err(e);
            },
            Ok(bound) => bound,
        };
        let request = bound.request();
        let verdict = oracle(request);
        assert(oracle.ensures((request,), verdict));
        match bound.conclude(verdict, sender) {
            Err(e) => Err(e),
            Ok(accepted) => {
                self.flag_processed(record.source_chain_id, record.nonce, accepted.message_hash);
                Ok(accepted)
            },
        }
    }

    /// Replaces the verifying key. Only the owner may: fails with
    /// `Unauthorized`, changing nothing, exactly when `caller` is not the
    /// owner.
    pub fn rotate_verifier_key(&mut self, caller: &[u8; 20], verifier_key: Vec<u8>) -> (rotated:
        Result<(), VerificationError>)
        requires
            old(self).wf(),
        ensures
            final(self).wf(),
            rotated == spec_rotate_outcome(old(self)@, caller@),
            final(self)@ == spec_rotate_state(old(self)@, caller@, verifier_key@),
    {
        match authorize(self.owner.as_slice(), caller.as_slice()) {
            Err(e) => {
                return Err(e);
            },
            Ok(()) => {},
        }
        self.verifier_key = verifier_key;
        proof {
            let target = spec_rotate_state(old(self)@, caller@, verifier_key@);
            assert(self@.messages =~= target.messages);
        }
        Ok(())
    }
}

} // verus!
