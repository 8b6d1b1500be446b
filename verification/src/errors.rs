use vstd::prelude::*;

verus! {

/// The failure kinds surfaced by this crate's primitives.
///
/// Every fallible operation reports its failure immediately through one of
/// these values; nothing is absorbed, defaulted or retried, and nothing in
/// this crate aborts the process on malformed input.
#[derive(Clone, Copy, Debug, PartialEq, Eq, Structural)]
pub enum MantaCryptoErrors {
    /// A parameter blob failed its integrity check.
    ChecksumFail,
    /// Malformed scalar or point bytes were rejected during decoding.
    DeserializationError,
    /// An underlying primitive rejected otherwise well-formed input.
    CryptoError,
    /// A byte stream could not be read or written during (de)serialization.
    IoError,
    /// The accumulator was asked to hold more leaves than its fixed
    /// height admits.
    TreeConstructionError,
}

impl MantaCryptoErrors {
    /// A short description of the failure, suitable for reporting.
    pub fn description(&self) -> (r: &'static str)
        ensures
            *self == MantaCryptoErrors::ChecksumFail ==> r@ == "Checksum failed"@,
            *self == MantaCryptoErrors::DeserializationError ==> r@ == "deserialization error"@,
            *self == MantaCryptoErrors::CryptoError ==> r@ == "crypto error"@,
            *self == MantaCryptoErrors::IoError ==> r@ == "i/o error"@,
            *self == MantaCryptoErrors::TreeConstructionError ==> r@ == "tree construction error"@,
    {
        match self {
            MantaCryptoErrors::ChecksumFail => "Checksum failed",
            MantaCryptoErrors::DeserializationError => "deserialization error",
            MantaCryptoErrors::CryptoError => "crypto error",
            MantaCryptoErrors::IoError => "i/o error",
            MantaCryptoErrors::TreeConstructionError => "tree construction error",
        }
    }
}

} // verus!
