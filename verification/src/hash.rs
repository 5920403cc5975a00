//! The hash commitment: a 256-bit digest that binds a message's bytes.

use sha2::{Digest, Sha256};
use vstd::prelude::*;

verus! {

/// The SHA-256 digest of `message`, as `sha2::Sha256` computes it.
pub uninterp spec fn sha256(message: Seq<u8>) -> Seq<u8>;

/// Computes the SHA-256 digest of `message`.
///
/// Trusted: the body feeds `message` to a fresh `sha2::Sha256` through
/// `Digest::new`, `Digest::update` and `Digest::finalize`. The contract only
/// names the result: the digest is a function of the message bytes alone.
/// That it is 32 bytes long is carried by the return type.
#[verifier::external_body]
pub fn hash_message(message: &[u8]) -> (hash: [u8; 32])
    ensures
        hash@ == sha256(message@),
{
    let mut hasher = Sha256::new();
    hasher.update(message);
    hasher.finalize().into()
}

/// Hashing is deterministic: messages with the same bytes have the same
/// digest, on every call.
pub proof fn law_hash_is_deterministic(first: Seq<u8>, second: Seq<u8>)
    requires
        first =~= second,
    ensures
        sha256(first) == sha256(second),
{
}

/// Whether two byte strings are the same, length and content.
pub fn bytes_equal(a: &[u8], b: &[u8]) -> (same: bool)
    ensures
        same == (a@ == b@),
{
    if a.len() != b.len() {
        return false;
    }
    let mut i: usize = 0;
    while i < a.len()
        invariant
            a@.len() == b@.len(),
            i <= a@.len(),
            forall|j: int| 0 <= j < i ==> a@[j] == b@[j],
        decreases a@.len() - i,
    {
        if a[i] != b[i] {
            return false;
        }
        i += 1;
    }
    assert(a@ =~= b@);
    true
}

} // verus!
