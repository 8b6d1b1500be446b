use vstd::prelude::*;

use crate::bytes::{block_of_u64, block_to_u64, u64_from_le8, u64_to_block};
use crate::kdf::{manta_kdf, spec_manta_kdf};
use aes::{Aes256, BlockDecrypt, BlockEncrypt, NewBlockCipher};
use generic_array::GenericArray;
use rand_core::{CryptoRng, RngCore};
use x25519_dalek::{PublicKey, StaticSecret};

verus! {

/// The public key that x25519 derives from the given secret-key bytes
/// (clamped scalar times the curve base point).
pub uninterp spec fn spec_x25519_public(sk: Seq<u8>) -> Seq<u8>;

/// The shared secret that x25519 Diffie-Hellman agreement produces from the
/// given secret-key bytes and public-key bytes.
pub uninterp spec fn spec_x25519_shared(sk: Seq<u8>, pk: Seq<u8>) -> Seq<u8>;

/// The ciphertext block that AES-256 produces for the given 32-byte key and
/// 16-byte plaintext block.
pub uninterp spec fn spec_aes256_encrypt(key: Seq<u8>, block: Seq<u8>) -> Seq<u8>;

/// The plaintext block that AES-256 recovers from the given 32-byte key and
/// 16-byte ciphertext block.
pub uninterp spec fn spec_aes256_decrypt(key: Seq<u8>, block: Seq<u8>) -> Seq<u8>;

/// Relies on x25519_dalek::StaticSecret::random_from_rng: draws 32 fresh
/// bytes from the caller's cryptographically secure generator. Nothing is
/// promised of the value; callers must treat every outcome alike.
#[verifier::external_body]
fn x25519_fresh_secret<R: RngCore + CryptoRng>(rng: &mut R) -> (r: [u8; 32]) {
    StaticSecret::random_from_rng(rng).to_bytes()
}

/// Relies on x25519_dalek::PublicKey::From<&StaticSecret>: the public key is
/// a pure function of the secret-key bytes.
#[verifier::external_body]
fn x25519_public_key(sk: &[u8; 32]) -> (r: [u8; 32])
    ensures
        r@ == spec_x25519_public(sk@),
{
    PublicKey::from(&StaticSecret::from(*sk)).to_bytes()
}

/// Relies on x25519_dalek::StaticSecret::diffie_hellman: the shared secret is
/// a pure function of the two key byte strings, and agreement is symmetric —
/// each party combining its secret with the other's derived public key
/// reaches the same secret (the documented Diffie-Hellman property).
#[verifier::external_body]
fn x25519_diffie_hellman(sk: &[u8; 32], pk: &[u8; 32]) -> (r: [u8; 32])
    ensures
        r@ == spec_x25519_shared(sk@, pk@),
        forall|other: Seq<u8>|
            other.len() == 32 && pk@ == spec_x25519_public(other) ==> r@ == spec_x25519_shared(
                other,
                spec_x25519_public(sk@),
            ),
{
    StaticSecret::from(*sk).diffie_hellman(&PublicKey::from(*pk)).to_bytes()
}

/// Relies on aes::Aes256 with BlockEncrypt: single-block AES-256 encryption,
/// a pure function of key and block.
#[verifier::external_body]
fn aes256_encrypt_block(key: &[u8; 32], block: &[u8; 16]) -> (r: [u8; 16])
    ensures
        r@ == spec_aes256_encrypt(key@, block@),
{
    let cipher = Aes256::new(GenericArray::from_slice(key));
    let mut b = GenericArray::clone_from_slice(block);
    cipher.encrypt_block(&mut b);
    let mut res = [0u8; 16];
    res.copy_from_slice(b.as_slice());
    res
}

/// Relies on aes::Aes256 with BlockDecrypt: single-block AES-256 decryption,
/// a pure function of key and block that inverts encryption under the same
/// key (a block cipher is a keyed permutation).
#[verifier::external_body]
fn aes256_decrypt_block(key: &[u8; 32], block: &[u8; 16]) -> (r: [u8; 16])
    ensures
        r@ == spec_aes256_decrypt(key@, block@),
        forall|p: Seq<u8>|
            p.len() == 16 && block@ == spec_aes256_encrypt(key@, p) ==> r@ == p,
{
    let cipher = Aes256::new(GenericArray::from_slice(key));
    let mut b = GenericArray::clone_from_slice(block);
    cipher.decrypt_block(&mut b);
    let mut res = [0u8; 16];
    res.copy_from_slice(b.as_slice());
    res
}

/// A 48-byte ciphertext addressed to the public key `pk` carries `m` under
/// the ephemeral secret `eph` exactly when its trailing 32 bytes are the
/// ephemeral public key and its leading 16 bytes encrypt the block of `m`
/// under the key that `eph` and `pk` agree on.
pub open spec fn ciphertext_for(c: Seq<u8>, pk: Seq<u8>, eph: Seq<u8>, m: u64) -> bool {
    &&& eph.len() == 32
    &&& c.subrange(16, 48) == spec_x25519_public(eph)
    &&& c.subrange(0, 16) == spec_aes256_encrypt(
        spec_manta_kdf(spec_x25519_shared(eph, pk)),
        block_of_u64(m),
    )
}

/// Hybrid public-key encryption of a bounded value: ephemeral
/// Diffie-Hellman agreement, key derivation, and one fixed-size cipher
/// block. One capability, one production provider.
pub trait Ecies {
    /// Draw a static key pair: a fresh random secret key and the public key
    /// the curve derives from it. Returns `(public, secret)`, each 32 bytes.
    fn keygen<R: RngCore + CryptoRng>(rng: &mut R) -> (r: ([u8; 32], [u8; 32]))
        ensures
            r.0@ == spec_x25519_public(r.1@),
    ;

    /// Encrypt a 64-bit value under the recipient's public key, drawing a
    /// fresh ephemeral key pair for this one call.
    fn encrypt<R: RngCore + CryptoRng>(pk: &[u8; 32], message: &u64, rng: &mut R) -> (r: [u8; 48])
        ensures
            exists|eph: Seq<u8>| ciphertext_for(r@, pk@, eph, *message),
    ;

    /// Decrypt a 48-byte ciphertext with the recipient's secret key. Any
    /// ciphertext that carries a value for this key decrypts to that value.
    fn decrypt(sk: &[u8; 32], cipher: &[u8; 48]) -> (r: u64)
        ensures
            r == u64_from_le8(
                spec_aes256_decrypt(
                    spec_manta_kdf(spec_x25519_shared(sk@, cipher@.subrange(16, 48))),
                    cipher@.subrange(0, 16),
                ),
            ),
            forall|eph: Seq<u8>, m: u64|
                ciphertext_for(cipher@, spec_x25519_public(sk@), eph, m) ==> r == m,
    ;
}

impl Ecies for crate::MantaCrypto {
    /// Draw a static key pair: a fresh random secret key and the public key
    /// that the curve derives from it. Returns `(public, secret)`, each 32
    /// bytes.
    fn keygen<R: RngCore + CryptoRng>(rng: &mut R) -> (r: ([u8; 32], [u8; 32])) {
        let sk = x25519_fresh_secret(rng);
        let pk = x25519_public_key(&sk);
        (pk, sk)
    }

    /// Encrypt a 64-bit value under the recipient's public key.
    ///
    /// A fresh ephemeral key pair is drawn for this one call; the shared
    /// secret it yields with `pk` is turned into an AES-256 key by the KDF,
    /// the value is laid out as a 16-byte block (eight little-endian bytes,
    /// eight zero bytes) and encrypted as a single block. The result is the
    /// 16-byte cipher block followed by the 32-byte ephemeral public key.
    ///
    /// The scheme offers confidentiality only: nothing authenticates the
    /// ciphertext, by design, and integrity must be anchored elsewhere.
    fn encrypt<R: RngCore + CryptoRng>(pk: &[u8; 32], message: &u64, rng: &mut R) -> (r: [u8;
        48]) {
        let ephemeral_sk = x25519_fresh_secret(rng);
        let ephemeral_pk = x25519_public_key(&ephemeral_sk);

        let shared_secret = x25519_diffie_hellman(&ephemeral_sk, pk);
        let aes_key = manta_kdf(&shared_secret);

        let block = u64_to_block(*message);
        let cipher_block = aes256_encrypt_block(&aes_key, &block);

        let mut res = [0u8; 48];
        let mut i: usize = 0;
        while i < 16
            invariant
                i <= 16,
                forall|j: int| 0 <= j < i ==> res@[j] == cipher_block@[j],
            decreases 16 - i,
        {
            res[i] = cipher_block[i];
            i = i + 1;
        }
        let mut j: usize = 0;
        while j < 32
            invariant
                j <= 32,
                forall|k: int| 0 <= k < 16 ==> res@[k] == cipher_block@[k],
                forall|k: int| 0 <= k < j ==> res@[16 + k] == ephemeral_pk@[k],
            decreases 32 - j,
        {
            res[16 + j] = ephemeral_pk[j];
            j = j + 1;
        }
        assert(res@.subrange(0, 16) =~= cipher_block@);
        assert(res@.subrange(16, 48) =~= ephemeral_pk@);
        assert(ciphertext_for(res@, pk@, ephemeral_sk@, *message));
        res
    }

    /// Decrypt a 48-byte ciphertext with the recipient's secret key.
    ///
    /// The trailing 32 bytes are taken as the sender's ephemeral public key;
    /// agreement with `sk` and the KDF recover the AES-256 key, the leading
    /// 16 bytes are decrypted as a single block, and the first eight
    /// plaintext bytes are read as a little-endian value. The trailing eight
    /// plaintext bytes are not validated: a tampered ciphertext still
    /// decrypts to some value, with no integrity signal — by design.
    ///
    /// The second clause is the transport round trip: any ciphertext that
    /// carries a value for this secret key decrypts to that value.
    fn decrypt(sk: &[u8; 32], cipher: &[u8; 48]) -> (r: u64) {
        let mut pk_bytes = [0u8; 32];
        let mut i: usize = 0;
        while i < 32
            invariant
                i <= 32,
                forall|j: int| 0 <= j < i ==> pk_bytes@[j] == cipher@[16 + j],
            decreases 32 - i,
        {
            pk_bytes[i] = cipher[16 + i];
            i = i + 1;
        }
        assert(pk_bytes@ =~= cipher@.subrange(16, 48));

        let shared_secret = x25519_diffie_hellman(sk, &pk_bytes);
        let aes_key = manta_kdf(&shared_secret);

        let mut block = [0u8; 16];
        let mut j: usize = 0;
        while j < 16
            invariant
                j <= 16,
                forall|k: int| 0 <= k < j ==> block@[k] == cipher@[k],
            decreases 16 - j,
        {
            block[j] = cipher[j];
            j = j + 1;
        }
        assert(block@ =~= cipher@.subrange(0, 16));

        let plain = aes256_decrypt_block(&aes_key, &block);
        let r = block_to_u64(&plain);

        proof {
            assert forall|eph: Seq<u8>, m: u64|
                ciphertext_for(cipher@, spec_x25519_public(sk@), eph, m) implies r == m by {
                assert(shared_secret@ == spec_x25519_shared(eph, spec_x25519_public(sk@)));
                assert(plain@ == block_of_u64(m));
                crate::bytes::lemma_u64_block_round_trip(m);
            }
        }
        r
    }
}

} // verus!
