use vstd::prelude::*;

use crate::bytes::bytes32_equal;
use crate::errors::MantaCryptoErrors;

verus! {

/// The bit width of one window of the Pedersen schemes.
pub const PEDERSEN_WINDOW_SIZE: usize = 4;

/// The number of windows of the Pedersen schemes.
pub const PEDERSEN_WINDOW_NUM: usize = 256;

/// The longest input, in bytes, that the Pedersen commitment accepts: the
/// windows hold `4 * 256` input bits in all.
pub open spec fn spec_max_commitment_input() -> int {
    128
}

impl crate::MantaCrypto {
    /// Decide whether an input of `len` bytes fits the commitment scheme's
    /// generator windows.
    ///
    /// The commitment must be refused, with a crypto error, exactly when
    /// this returns false: an oversized input cannot be committed to, and
    /// nothing in this crate may abort instead of returning an error.
    pub fn commitment_input_ok(len: usize) -> (r: bool)
        ensures
            r == (len <= spec_max_commitment_input()),
    {
        len <= 128
    }

    /// Compare a freshly recomputed commitment with a claimed one, keeping a
    /// failed recomputation distinct from a legitimate mismatch.
    ///
    /// A recomputation error is passed through unchanged and is never
    /// reported as `false`: a crypto failure must reach the caller as an
    /// error, not as a verdict about the commitment.
    pub fn check_commitment_result(
        computed: Result<[u8; 32], MantaCryptoErrors>,
        claimed: &[u8; 32],
    ) -> (r: Result<bool, MantaCryptoErrors>)
        ensures
            computed matches Ok(c) ==> (r matches Ok(b) && b == (c@ == claimed@)),
            computed matches Err(e) ==> r == Err::<bool, MantaCryptoErrors>(e),
    {
        match computed {
            Ok(c) => Ok(bytes32_equal(&c, claimed)),
            Err(e) => Err(e),
        }
    }
}

} // verus!
