use vstd::prelude::*;

use blake2::{Blake2s, Digest};

verus! {

/// The digest that `blake2::Blake2s` produces for the given input bytes.
pub uninterp spec fn spec_blake2s(input: Seq<u8>) -> Seq<u8>;

/// Relies on blake2::Blake2s (the 32-byte-output BLAKE2s hash): the digest is
/// a pure function of the input bytes alone and is exactly 32 bytes long.
#[verifier::external_body]
fn blake2s_hash(input: &[u8]) -> (r: [u8; 32])
    ensures
        r@ == spec_blake2s(input@),
{
    let mut hasher = Blake2s::new();
    hasher.update(input);
    let digest = hasher.finalize();
    let mut res = [0u8; 32];
    res.copy_from_slice(digest.as_slice());
    res
}

/// The fixed domain-separation label appended to every shared secret before
/// hashing, so a secret produced by another subsystem can never yield the
/// same symmetric key: the bytes of
/// "manta kdf instantiated with blake2s hash function".
pub open spec fn kdf_salt() -> Seq<u8> {
    seq![
        109u8, 97u8, 110u8, 116u8, 97u8, 32u8, 107u8, 100u8, 102u8, 32u8, 105u8, 110u8, 115u8,
        116u8, 97u8, 110u8, 116u8, 105u8, 97u8, 116u8, 101u8, 100u8, 32u8, 119u8, 105u8, 116u8,
        104u8, 32u8, 98u8, 108u8, 97u8, 107u8, 101u8, 50u8, 115u8, 32u8, 104u8, 97u8, 115u8,
        104u8, 32u8, 102u8, 117u8, 110u8, 99u8, 116u8, 105u8, 111u8, 110u8,
    ]
}

/// The domain-separation label as bytes.
pub fn kdf_salt_bytes() -> (r: Vec<u8>)
    ensures
        r@ == kdf_salt(),
{
    let mut v: Vec<u8> = Vec::new();
    v.push(109u8);
    v.push(97u8);
    v.push(110u8);
    v.push(116u8);
    v.push(97u8);
    v.push(32u8);
    v.push(107u8);
    v.push(100u8);
    v.push(102u8);
    v.push(32u8);
    v.push(105u8);
    v.push(110u8);
    v.push(115u8);
    v.push(116u8);
    v.push(97u8);
    v.push(110u8);
    v.push(116u8);
    v.push(105u8);
    v.push(97u8);
    v.push(116u8);
    v.push(101u8);
    v.push(100u8);
    v.push(32u8);
    v.push(119u8);
    v.push(105u8);
    v.push(116u8);
    v.push(104u8);
    v.push(32u8);
    v.push(98u8);
    v.push(108u8);
    v.push(97u8);
    v.push(107u8);
    v.push(101u8);
    v.push(50u8);
    v.push(115u8);
    v.push(32u8);
    v.push(104u8);
    v.push(97u8);
    v.push(115u8);
    v.push(104u8);
    v.push(32u8);
    v.push(102u8);
    v.push(117u8);
    v.push(110u8);
    v.push(99u8);
    v.push(116u8);
    v.push(105u8);
    v.push(111u8);
    v.push(110u8);
    assert(v@ =~= kdf_salt());
    v
}

/// The symmetric key derived from a raw shared secret: the BLAKE2s digest of
/// the secret followed by the domain-separation label.
pub open spec fn spec_manta_kdf(input: Seq<u8>) -> Seq<u8> {
    spec_blake2s(input + kdf_salt())
}

/// Derive a 32-byte symmetric key from a raw shared secret.
///
/// Pure and deterministic: the key is a function of the input bytes alone,
/// and the fixed label keeps the derivation separate from any other use of
/// the same hash.
pub fn manta_kdf(input: &[u8]) -> (r: [u8; 32])
    ensures
        r@ == spec_manta_kdf(input@),
{
    let mut buf: Vec<u8> = Vec::new();
    let mut i: usize = 0;
    while i < input.len()
        invariant
            i <= input@.len(),
            buf@ =~= input@.subrange(0, i as int),
        decreases input@.len() - i,
    {
        buf.push(input[i]);
        i = i + 1;
    }
    assert(buf@ =~= input@);
    let mut salt = kdf_salt_bytes();
    let mut j: usize = 0;
    let salt_len = salt.len();
    while j < salt_len
        invariant
            j <= salt@.len(),
            salt_len == salt@.len(),
            salt@ == kdf_salt(),
            buf@ =~= input@ + salt@.subrange(0, j as int),
        decreases salt@.len() - j,
    {
        buf.push(salt[j]);
        j = j + 1;
    }
    assert(buf@ =~= input@ + kdf_salt());
    blake2s_hash(buf.as_slice())
}

} // verus!
