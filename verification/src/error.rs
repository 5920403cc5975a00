//! The ways in which the protocol rejects a request.

use vstd::prelude::*;

verus! {

/// Why a request was rejected. Every rejection leaves ledger state untouched.
#[derive(Clone, Copy, Debug, PartialEq, Eq, Structural)]
pub enum VerificationError {
    /// Source and destination chain are the same, or the message is empty.
    InvalidInput,
    /// The `(source chain, nonce)` pair or the content hash was accepted before.
    AlreadyProcessed,
    /// The proof does not attest the expected public values, or the
    /// verification oracle turned it down.
    InvalidProof,
    /// The proving backend produced no usable proof; the caller may retry.
    ProvingBackendFailure,
    /// An administrative operation was requested by someone other than the owner.
    Unauthorized,
}

} // verus!
