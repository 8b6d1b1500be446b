use vstd::prelude::*;

verus! {

/// The little-endian value of the first eight bytes of `b`.
pub open spec fn u64_from_le8(b: Seq<u8>) -> u64
    recommends
        b.len() >= 8,
{
    (b[0] as u64) | ((b[1] as u64) << 8) | ((b[2] as u64) << 16) | ((b[3] as u64) << 24)
        | ((b[4] as u64) << 32) | ((b[5] as u64) << 40) | ((b[6] as u64) << 48)
        | ((b[7] as u64) << 56)
}

/// The 16-byte cipher block carrying `m`: eight little-endian value bytes
/// followed by eight zero bytes.
pub open spec fn block_of_u64(m: u64) -> Seq<u8> {
    seq![
        m as u8,
        (m >> 8) as u8,
        (m >> 16) as u8,
        (m >> 24) as u8,
        (m >> 32) as u8,
        (m >> 40) as u8,
        (m >> 48) as u8,
        (m >> 56) as u8,
        0u8,
        0u8,
        0u8,
        0u8,
        0u8,
        0u8,
        0u8,
        0u8,
    ]
}

/// Reading a value's block back as little-endian bytes recovers the value.
pub proof fn lemma_u64_block_round_trip(m: u64)
    ensures
        u64_from_le8(block_of_u64(m)) == m,
{
    assert(((m as u8) as u64) | (((m >> 8) as u8) as u64) << 8 | (((m >> 16) as u8) as u64) << 16
        | (((m >> 24) as u8) as u64) << 24 | (((m >> 32) as u8) as u64) << 32
        | (((m >> 40) as u8) as u64) << 40 | (((m >> 48) as u8) as u64) << 48
        | (((m >> 56) as u8) as u64) << 56 == m) by (bit_vector);
}

/// Encode a value as its 16-byte cipher block.
pub fn u64_to_block(m: u64) -> (r: [u8; 16])
    ensures
        r@ == block_of_u64(m),
{
    let mut r = [0u8; 16];
    r[0] = #[verifier::truncate] (m as u8);
    r[1] = #[verifier::truncate] ((m >> 8) as u8);
    r[2] = #[verifier::truncate] ((m >> 16) as u8);
    r[3] = #[verifier::truncate] ((m >> 24) as u8);
    r[4] = #[verifier::truncate] ((m >> 32) as u8);
    r[5] = #[verifier::truncate] ((m >> 40) as u8);
    r[6] = #[verifier::truncate] ((m >> 48) as u8);
    r[7] = #[verifier::truncate] ((m >> 56) as u8);
    assert(r@ =~= block_of_u64(m));
    r
}

/// Read the first eight bytes of a cipher block as a little-endian value;
/// the trailing eight bytes are not inspected.
pub fn block_to_u64(b: &[u8; 16]) -> (r: u64)
    ensures
        r == u64_from_le8(b@),
{
    (b[0] as u64) | ((b[1] as u64) << 8) | ((b[2] as u64) << 16) | ((b[3] as u64) << 24)
        | ((b[4] as u64) << 32) | ((b[5] as u64) << 40) | ((b[6] as u64) << 48)
        | ((b[7] as u64) << 56)
}

/// Compare two 32-byte strings for equality.
pub fn bytes32_equal(a: &[u8; 32], b: &[u8; 32]) -> (r: bool)
    ensures
        r == (a@ == b@),
{
    let mut i: usize = 0;
    while i < 32
        invariant
            i <= 32,
            forall|j: int| 0 <= j < i ==> a@[j] == b@[j],
        decreases 32 - i,
    {
        if a[i] != b[i] {
            assert(a@[i as int] != b@[i as int]);
            return false;
        }
        i = i + 1;
    }
    assert(a@ =~= b@);
    true
}

} // verus!
