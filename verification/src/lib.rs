//! Cryptographic primitives for a confidential-value ledger: a Pedersen
//! commitment to a secret value, a fixed-height Merkle accumulator over
//! commitment-sized leaves, and confidential transport of the value to its
//! recipient by hybrid Diffie-Hellman encryption with a hash-based key
//! derivation.
//!
//! Every operation here is a pure function of its inputs: parameters are
//! read-only after construction, randomness comes only from caller-supplied
//! generators, and every failure is a returned value, never an abort.

use vstd::prelude::*;

pub mod bytes;
pub mod commitment;
pub mod ecies;
pub mod errors;
pub mod kdf;
pub mod merkle;
pub mod param;
pub mod serdes;

pub use ecies::Ecies;
pub use errors::MantaCryptoErrors;
pub use param::{Parameter, VerificationKey};
pub use serdes::{CommitmentParam, HashParam, MantaSerDes};

verus! {

/// The one concrete provider of this crate's primitives: commitment checking,
/// accumulator sizing, and confidential transport all hang off this type.
pub struct MantaCrypto;

} // verus!
