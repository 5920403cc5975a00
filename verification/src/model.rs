//! The ledger as a mathematical state machine.
//!
//! A ledger's durable state is modelled by [`LedgerState`]; every operation is
//! a function from a state and its inputs to an outcome and a next state. The
//! executable ledger is specified against these functions, and the laws of
//! the protocol are proved of them here.

use crate::error::VerificationError;
use crate::hash::sha256;
use crate::program::spec_public_values;
use crate::public_values::PublicValuesView;
use crate::records::{MessageRecordView, ProofDataView};
use vstd::prelude::*;

verus! {

/// The durable state of one ledger instance.
pub struct LedgerState {
    /// Who may rotate the verifying key.
    pub owner: Seq<u8>,
    /// The key that every proof is verified against.
    pub verifier_key: Seq<u8>,
    /// Whether released messages are kept for later retrieval.
    pub retain_messages: bool,
    /// The nonce of the last released message; 0 while none was released.
    pub outgoing_nonce: nat,
    /// The released messages that are kept, by nonce.
    pub messages: Map<u64, Seq<u8>>,
    /// How many messages were accepted; 0 while none was accepted.
    pub incoming_nonce: nat,
    /// The hashes of the accepted messages.
    pub verified_messages: Set<Seq<u8>>,
    /// The `(source chain, nonce)` pairs of the accepted messages.
    pub processed_nonces: Set<(u32, u64)>,
}

impl LedgerState {
    /// What holds of every state a ledger can reach: the two sets of
    /// processed flags have grown together, one entry each per accepted
    /// message, and the kept messages are exactly those released so far when
    /// messages are kept, and none otherwise.
    pub open spec fn consistent(self) -> bool {
        &&& self.verified_messages.finite()
        &&& self.processed_nonces.finite()
        &&& self.verified_messages.len() == self.incoming_nonce
        &&& self.processed_nonces.len() == self.incoming_nonce
        &&& self.outgoing_nonce <= u64::MAX
        &&& forall|n: u64|
            self.messages.contains_key(n) <==> (self.retain_messages && 1 <= n
                <= self.outgoing_nonce)
    }
}

/// The state of a ledger that has just been set up.
pub open spec fn spec_new(owner: Seq<u8>, verifier_key: Seq<u8>, retain_messages: bool) -> LedgerState {
    LedgerState {
        owner,
        verifier_key,
        retain_messages,
        outgoing_nonce: 0,
        messages: Map::empty(),
        incoming_nonce: 0,
        verified_messages: Set::empty(),
        processed_nonces: Set::empty(),
    }
}

/// The state after `data` is released: the nonce moves up by one, and the
/// message is kept under its nonce where messages are kept.
pub open spec fn spec_submit(s: LedgerState, data: Seq<u8>) -> LedgerState
    recommends
        s.outgoing_nonce < u64::MAX,
{
    let nonce = s.outgoing_nonce + 1;
    LedgerState {
        outgoing_nonce: nonce as nat,
        messages: if s.retain_messages {
            s.messages.insert(nonce as u64, data)
        } else {
            s.messages
        },
        ..s
    }
}

/// The public values that the ledger itself derives from a record: the hash
/// is recomputed from the message bytes.
pub open spec fn spec_expected_values(record: MessageRecordView) -> PublicValuesView {
    spec_public_values(record.message, record.source_chain_id, record.destination_chain_id)
}

/// Whether a record is a duplicate: its `(source chain, nonce)` pair or its
/// content hash has been accepted before.
pub open spec fn spec_already_processed(s: LedgerState, record: MessageRecordView) -> bool {
    ||| s.processed_nonces.contains((record.source_chain_id, record.nonce))
    ||| s.verified_messages.contains(sha256(record.message))
}

/// Whether a proof attests exactly the public values derived from a record.
pub open spec fn spec_proof_binds(record: MessageRecordView, proof: ProofDataView) -> bool {
    proof.public_values == spec_expected_values(record)
}

/// The acceptance rule on plain facts: whether the record's nonce and hash
/// were seen before, whether the proof binds the record, and what the oracle
/// said. Duplicates are turned away first, whatever the proof; then a proof
/// that does not bind the record, or that the oracle turned down, is invalid.
pub open spec fn spec_decide(nonce_seen: bool, hash_seen: bool, binds: bool, verdict: bool) -> Result<
    (),
    VerificationError,
> {
    if nonce_seen || hash_seen {
        Err(VerificationError::AlreadyProcessed)
    } else if !binds || !verdict {
        Err(VerificationError::InvalidProof)
    } else {
        Ok(())
    }
}

/// How an acceptance ends in state `s`, given the oracle's verdict on the
/// proof: the acceptance rule, applied to what `s` has recorded.
pub open spec fn spec_accept_outcome(
    s: LedgerState,
    record: MessageRecordView,
    proof: ProofDataView,
    verdict: bool,
) -> Result<(), VerificationError> {
    spec_decide(
        s.processed_nonces.contains((record.source_chain_id, record.nonce)),
        s.verified_messages.contains(sha256(record.message)),
        spec_proof_binds(record, proof),
        verdict,
    )
}

/// The state after an acceptance was attempted: on success both processed
/// flags are set and the count of accepted messages moves up by one; on any
/// rejection the state is the one before.
pub open spec fn spec_accept_state(
    s: LedgerState,
    record: MessageRecordView,
    proof: ProofDataView,
    verdict: bool,
) -> LedgerState {
    if spec_accept_outcome(s, record, proof, verdict) is Ok {
        LedgerState {
            incoming_nonce: s.incoming_nonce + 1,
            verified_messages: s.verified_messages.insert(sha256(record.message)),
            processed_nonces: s.processed_nonces.insert((record.source_chain_id, record.nonce)),
            ..s
        }
    } else {
        s
    }
}

/// How a key rotation ends: only the owner may rotate.
pub open spec fn spec_rotate_outcome(s: LedgerState, caller: Seq<u8>) -> Result<
    (),
    VerificationError,
> {
    if caller == s.owner {
        Ok(())
    } else {
        Err(VerificationError::Unauthorized)
    }
}

/// The state after a key rotation was attempted.
pub open spec fn spec_rotate_state(s: LedgerState, caller: Seq<u8>, key: Seq<u8>) -> LedgerState {
    if spec_rotate_outcome(s, caller) is Ok {
        LedgerState { verifier_key: key, ..s }
    } else {
        s
    }
}

/// A fresh ledger is consistent.
pub proof fn law_new_is_consistent(
    owner: Seq<u8>,
    verifier_key: Seq<u8>,
    retain_messages: bool,
)
    ensures
        spec_new(owner, verifier_key, retain_messages).consistent(),
{
}

/// Releasing a message preserves consistency, and the nonce it is given is
/// one more than the last: nonces start at 1 and are never used twice.
pub proof fn law_submit_preserves_consistency(s: LedgerState, data: Seq<u8>)
    requires
        s.consistent(),
        s.outgoing_nonce < u64::MAX,
    ensures
        spec_submit(s, data).consistent(),
        spec_submit(s, data).outgoing_nonce == s.outgoing_nonce + 1,
{
}

/// An acceptance attempt preserves consistency, however it ends, and it is
/// all or nothing: the nonce pair is newly flagged exactly when the hash is,
/// and that is exactly when the attempt succeeds.
pub proof fn law_accept_preserves_consistency(
    s: LedgerState,
    record: MessageRecordView,
    proof: ProofDataView,
    verdict: bool,
)
    requires
        s.consistent(),
    ensures
        spec_accept_state(s, record, proof, verdict).consistent(),
        ({
            let t = spec_accept_state(s, record, proof, verdict);
            let pair = (record.source_chain_id, record.nonce);
            let hash = sha256(record.message);
            let pair_newly_flagged = !s.processed_nonces.contains(pair)
                && t.processed_nonces.contains(pair);
            let hash_newly_flagged = !s.verified_messages.contains(hash)
                && t.verified_messages.contains(hash);
            &&& pair_newly_flagged == hash_newly_flagged
            &&& pair_newly_flagged == (spec_accept_outcome(s, record, proof, verdict) is Ok)
        }),
{
}

/// A key rotation attempt preserves consistency.
pub proof fn law_rotate_preserves_consistency(s: LedgerState, caller: Seq<u8>, key: Seq<u8>)
    requires
        s.consistent(),
    ensures
        spec_rotate_state(s, caller, key).consistent(),
{
}

/// A genuine pair is accepted exactly once. A fresh record whose proof binds
/// it and passes the oracle is accepted; after that, every attempt with the
/// same `(source chain, nonce)` is turned away as already processed and
/// changes nothing, whatever message, proof and verdict it comes with.
pub proof fn law_accepted_exactly_once(
    s: LedgerState,
    record: MessageRecordView,
    proof: ProofDataView,
    again: MessageRecordView,
    other_proof: ProofDataView,
    other_verdict: bool,
)
    requires
        !spec_already_processed(s, record),
        spec_proof_binds(record, proof),
        again.source_chain_id == record.source_chain_id,
        again.nonce == record.nonce,
    ensures
        spec_accept_outcome(s, record, proof, true) is Ok,
        ({
            let t = spec_accept_state(s, record, proof, true);
            &&& spec_accept_outcome(t, again, other_proof, other_verdict) == Err::<
                (),
                VerificationError,
            >(VerificationError::AlreadyProcessed)
            &&& spec_accept_state(t, again, other_proof, other_verdict) == t
        }),
{
}

/// A proof speaks for its own public values only. An attempt on a fresh
/// record whose hash, source chain or destination chain differs from what
/// the proof attests ends in `InvalidProof`, whatever the oracle says.
pub proof fn law_mismatched_claim_is_invalid(
    s: LedgerState,
    record: MessageRecordView,
    proof: ProofDataView,
    verdict: bool,
)
    requires
        !spec_already_processed(s, record),
        proof.public_values.message_hash != sha256(record.message)
            || proof.public_values.source_chain_id != record.source_chain_id
            || proof.public_values.destination_chain_id != record.destination_chain_id,
    ensures
        spec_accept_outcome(s, record, proof, verdict) == Err::<(), VerificationError>(
            VerificationError::InvalidProof,
        ),
        spec_accept_state(s, record, proof, verdict) == s,
{
}

/// Rejection is idempotent. An attempt that is rejected leaves the state as
/// it was, and the same attempt made again is rejected in the same way.
pub proof fn law_rejection_is_idempotent(
    s: LedgerState,
    record: MessageRecordView,
    proof: ProofDataView,
    verdict: bool,
)
    requires
        spec_accept_outcome(s, record, proof, verdict) is Err,
    ensures
        spec_accept_state(s, record, proof, verdict) == s,
        spec_accept_outcome(spec_accept_state(s, record, proof, verdict), record, proof, verdict)
            == spec_accept_outcome(s, record, proof, verdict),
{
}

/// One operation on a ledger, with its inputs.
pub enum Operation {
    /// A message is released for relay.
    Submit { data: Seq<u8> },
    /// An acceptance is attempted, with the oracle's verdict on the proof.
    Accept { record: MessageRecordView, proof: ProofDataView, verdict: bool },
    /// A key rotation is attempted.
    Rotate { caller: Seq<u8>, key: Seq<u8> },
}

/// Whether an operation can be carried out in state `s`: a release needs a
/// nonce that is still free.
pub open spec fn spec_permitted(s: LedgerState, op: Operation) -> bool {
    op is Submit ==> s.outgoing_nonce < u64::MAX
}

/// The state after one operation.
pub open spec fn spec_apply(s: LedgerState, op: Operation) -> LedgerState {
    match op {
        Operation::Submit { data } => spec_submit(s, data),
        Operation::Accept { record, proof, verdict } => spec_accept_state(
            s,
            record,
            proof,
            verdict,
        ),
        Operation::Rotate { caller, key } => spec_rotate_state(s, caller, key),
    }
}

/// The state after a run of operations, carried out in order.
pub open spec fn spec_run(s: LedgerState, ops: Seq<Operation>) -> LedgerState
    decreases ops.len(),
{
    if ops.len() == 0 {
        s
    } else {
        spec_apply(spec_run(s, ops.drop_last()), ops.last())
    }
}

/// Whether every operation of a run can be carried out when its turn comes.
pub open spec fn spec_run_permitted(s: LedgerState, ops: Seq<Operation>) -> bool
    decreases ops.len(),
{
    ops.len() > 0 ==> {
        &&& spec_run_permitted(s, ops.drop_last())
        &&& spec_permitted(spec_run(s, ops.drop_last()), ops.last())
    }
}

/// Every state that a ledger can reach is consistent.
pub proof fn law_reachable_states_are_consistent(
    owner: Seq<u8>,
    verifier_key: Seq<u8>,
    retain_messages: bool,
    ops: Seq<Operation>,
)
    requires
        spec_run_permitted(spec_new(owner, verifier_key, retain_messages), ops),
    ensures
        spec_run(spec_new(owner, verifier_key, retain_messages), ops).consistent(),
    decreases ops.len(),
{
    let start = spec_new(owner, verifier_key, retain_messages);
    if ops.len() == 0 {
        law_new_is_consistent(owner, verifier_key, retain_messages);
    } else {
        law_reachable_states_are_consistent(owner, verifier_key, retain_messages, ops.drop_last());
        let before = spec_run(start, ops.drop_last());
        match ops.last() {
            Operation::Submit { data } => law_submit_preserves_consistency(before, data),
            Operation::Accept { record, proof, verdict } => law_accept_preserves_consistency(
                before,
                record,
                proof,
                verdict,
            ),
            Operation::Rotate { caller, key } => law_rotate_preserves_consistency(
                before,
                caller,
                key,
            ),
        }
    }
}

/// The verifying key and the owner are configuration: no release and no
/// acceptance touches them, the owner never changes, and the key changes
/// only by a rotation that the owner asked for.
pub proof fn law_key_changes_by_owner_only(s: LedgerState, op: Operation)
    ensures
        spec_apply(s, op).owner == s.owner,
        spec_apply(s, op).verifier_key != s.verifier_key ==> op is Rotate && op->caller
            == s.owner && op->key == spec_apply(s, op).verifier_key,
{
}

/// Processed flags are permanent: whatever a ledger does afterwards, a nonce
/// pair that is flagged stays flagged, and so does a hash.
pub proof fn law_processed_flags_are_permanent(
    s: LedgerState,
    ops: Seq<Operation>,
    pair: (u32, u64),
    hash: Seq<u8>,
)
    ensures
        s.processed_nonces.contains(pair) ==> spec_run(s, ops).processed_nonces.contains(pair),
        s.verified_messages.contains(hash) ==> spec_run(s, ops).verified_messages.contains(hash),
    decreases ops.len(),
{
    if ops.len() > 0 {
        law_processed_flags_are_permanent(s, ops.drop_last(), pair, hash);
    }
}

/// A duplicate stays a duplicate. Once a message from a source chain with a
/// nonce is accepted, every later attempt with that source chain and nonce is
/// turned away as already processed and changes nothing, however many other
/// operations, acceptances of other nonces in any order among them, came in
/// between.
pub proof fn law_duplicates_stay_rejected(
    s: LedgerState,
    record: MessageRecordView,
    proof: ProofDataView,
    ops: Seq<Operation>,
    again: MessageRecordView,
    other_proof: ProofDataView,
    other_verdict: bool,
)
    requires
        spec_accept_outcome(s, record, proof, true) is Ok,
        again.source_chain_id == record.source_chain_id,
        again.nonce == record.nonce,
    ensures
        ({
            let later = spec_run(spec_accept_state(s, record, proof, true), ops);
            &&& spec_accept_outcome(later, again, other_proof, other_verdict) == Err::<
                (),
                VerificationError,
            >(VerificationError::AlreadyProcessed)
            &&& spec_accept_state(later, again, other_proof, other_verdict) == later
        }),
{
    let accepted = spec_accept_state(s, record, proof, true);
    law_processed_flags_are_permanent(
        accepted,
        ops,
        (record.source_chain_id, record.nonce),
        sha256(record.message),
    );
}

} // verus!
