use vstd::prelude::*;

verus! {

/// A handle on a precomputed public-parameter blob. The blob is produced
/// and checksummed elsewhere; this crate only carries it to the functions
/// that consume it.
#[derive(Clone, Copy, Debug, PartialEq, Eq)]
pub struct Parameter {
    pub data: &'static [u8],
}

/// A handle on a precomputed proof-system verification-key blob, carried
/// for the proof-system consumer; this crate never reads inside it.
#[derive(Clone, Copy, Debug, PartialEq, Eq)]
pub struct VerificationKey {
    pub data: &'static [u8],
}

} // verus!
