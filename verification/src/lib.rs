//! Cross-chain message verification.
//!
//! A sending ledger numbers outgoing messages, an off-ledger program commits
//! to the hash of a message together with the two chain identifiers, and a
//! receiving ledger accepts a message at most once per `(source chain, nonce)`
//! and at most once per content hash, and only when the proof of that
//! commitment verifies.

pub mod error;
pub mod hash;
pub mod public_values;
pub mod program;
pub mod records;
pub mod model;
pub mod acceptance;
pub mod ledger;
pub mod service;
pub mod fixture;

pub use error::VerificationError;
pub use hash::hash_message;
pub use ledger::CrossChainMessaging;
pub use public_values::PublicValues;
pub use records::{
    Accepted, MessagePrepared, MessageRecord, MessageStored, OutgoingMessage, ProofData,
    VerificationRequest,
};
