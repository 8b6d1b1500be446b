use vstd::prelude::*;

use crate::errors::MantaCryptoErrors;
use ark_ed_on_bls12_381::EdwardsProjective;
use ark_serialize::{CanonicalDeserialize, CanonicalSerialize};

verus! {

/// The generator table for the accumulator's Pedersen hash, held as the
/// curve library's own table. The table is opaque here: its one observable
/// is the byte blob `hash_param_data` names.
#[verifier::external_body]
pub struct HashParam {
    pub inner: ark_crypto_primitives::crh::pedersen::Parameters<EdwardsProjective>,
}

/// The generator tables for the Pedersen commitment, held as the curve
/// library's own tables. Opaque here: the one observable is the byte blob
/// `commitment_param_data` names.
#[verifier::external_body]
pub struct CommitmentParam {
    pub inner: ark_crypto_primitives::commitment::pedersen::Parameters<EdwardsProjective>,
}

/// The byte blob a hash-parameter table holds: each generator point in
/// order, uncompressed.
pub uninterp spec fn hash_param_data(p: HashParam) -> Seq<u8>;

/// Whether a hash-parameter table has the scheme's shape: 256 generator
/// rows of 4 points each.
pub uninterp spec fn hash_param_well_formed(p: HashParam) -> bool;

/// The byte blob a commitment-parameter table holds: each generator point in
/// order, then each randomness generator, uncompressed.
pub uninterp spec fn commitment_param_data(p: CommitmentParam) -> Seq<u8>;

/// Whether a commitment-parameter table has the scheme's shape: 256
/// generator rows of 4 points each, then 252 randomness generators.
pub uninterp spec fn commitment_param_well_formed(p: CommitmentParam) -> bool;

/// Relies on ark_serialize::CanonicalSerialize for curve points: writing a
/// point uncompressed is a pure function of the point, and writing into a
/// byte vector cannot fail.
#[verifier::external_body]
pub fn serialize_hash_param(p: &HashParam) -> (r: Result<Vec<u8>, MantaCryptoErrors>)
    ensures
        r is Ok,
        r matches Ok(b) ==> b@ == hash_param_data(*p),
{
    let mut buf: Vec<u8> = Vec::new();
    for generators in p.inner.generators.iter() {
        for gen in generators {
            if gen.serialize_uncompressed(&mut buf).is_err() {
                return Err(MantaCryptoErrors::IoError);
            }
        }
    }
    Ok(buf)
}

/// Relies on ark_serialize::CanonicalSerialize for curve points, as the
/// hash-parameter writer does.
#[verifier::external_body]
pub fn serialize_commitment_param(p: &CommitmentParam) -> (r: Result<Vec<u8>, MantaCryptoErrors>)
    ensures
        r is Ok,
        r matches Ok(b) ==> b@ == commitment_param_data(*p),
{
    let mut buf: Vec<u8> = Vec::new();
    for generators in p.inner.generators.iter() {
        for gen in generators {
            if gen.serialize_uncompressed(&mut buf).is_err() {
                return Err(MantaCryptoErrors::IoError);
            }
        }
    }
    for rgen in p.inner.randomness_generator.iter() {
        if rgen.serialize_uncompressed(&mut buf).is_err() {
            return Err(MantaCryptoErrors::IoError);
        }
    }
    Ok(buf)
}

/// Relies on ark_serialize::CanonicalDeserialize for curve points: reading a
/// table back from its own uncompressed serialization succeeds and
/// reproduces that serialization byte for byte. Point validity is not
/// checked here; a checksum over the blob is the caller's integrity anchor.
#[verifier::external_body]
pub fn deserialize_hash_param(bytes: &[u8]) -> (r: Result<HashParam, MantaCryptoErrors>)
    ensures
        r is Err ==> forall|q: HashParam|
            hash_param_well_formed(q) ==> bytes@ != hash_param_data(q),
        r matches Ok(p) ==> hash_param_well_formed(p),
        r matches Ok(p) ==> forall|q: HashParam|
            hash_param_well_formed(q) && bytes@ == hash_param_data(q) ==> hash_param_data(p)
                == bytes@,
        r matches Err(e) ==> e == MantaCryptoErrors::DeserializationError,
{
    let mut reader = bytes;
    let mut generators = Vec::new();
    for _ in 0..256 {
        let mut gen = Vec::new();
        for _ in 0..4 {
            gen.push(EdwardsProjective::deserialize_unchecked(&mut reader).map_err(|_| MantaCryptoErrors::DeserializationError)?);
        }
        generators.push(gen);
    }
    Ok(HashParam { inner: ark_crypto_primitives::crh::pedersen::Parameters { generators } })
}

/// Relies on ark_serialize::CanonicalDeserialize for curve points, as the
/// hash-parameter reader does.
#[verifier::external_body]
pub fn deserialize_commitment_param(bytes: &[u8]) -> (r: Result<
    CommitmentParam,
    MantaCryptoErrors,
>)
    ensures
        r is Err ==> forall|q: CommitmentParam|
            commitment_param_well_formed(q) ==> bytes@ != commitment_param_data(q),
        r matches Ok(p) ==> commitment_param_well_formed(p),
        r matches Ok(p) ==> forall|q: CommitmentParam|
            commitment_param_well_formed(q) && bytes@ == commitment_param_data(q)
                ==> commitment_param_data(p) == bytes@,
        r matches Err(e) ==> e == MantaCryptoErrors::DeserializationError,
{
    let mut reader = bytes;
    let mut generators = Vec::new();
    for _ in 0..256 {
        let mut gen = Vec::new();
        for _ in 0..4 {
            gen.push(EdwardsProjective::deserialize_unchecked(&mut reader).map_err(|_| MantaCryptoErrors::DeserializationError)?);
        }
        generators.push(gen);
    }
    let mut randomness_generator = Vec::new();
    for _ in 0..252 {
        randomness_generator.push(EdwardsProjective::deserialize_unchecked(&mut reader).map_err(|_| MantaCryptoErrors::DeserializationError)?);
    }
    let inner = ark_crypto_primitives::commitment::pedersen::Parameters { randomness_generator, generators };
    Ok(CommitmentParam { inner })
}

/// This crate's native (de)serialization capability: values that can be
/// written out as a byte blob and read back, with the blob as the one
/// observable. The stream handling around the blob is the caller's.
pub trait MantaSerDes: Sized {
    /// The byte blob this value holds.
    spec fn data(&self) -> Seq<u8>;

    /// Whether this value has the shape the scheme prescribes.
    spec fn well_formed(&self) -> bool;

    /// Serialize this value into a blob.
    fn serialize(&self) -> (r: Result<Vec<u8>, MantaCryptoErrors>)
        ensures
            r is Ok,
            r matches Ok(b) ==> b@ == self.data(),
    ;

    /// Read a value back from a blob. Reading any well-formed value's own
    /// blob succeeds and reproduces that blob byte for byte.
    fn deserialize(bytes: &[u8]) -> (r: Result<Self, MantaCryptoErrors>)
        ensures
            r is Err ==> forall|q: Self| q.well_formed() ==> bytes@ != q.data(),
            r matches Ok(p) ==> p.well_formed(),
            r matches Ok(p) ==> forall|q: Self|
                q.well_formed() && bytes@ == q.data() ==> p.data() == bytes@,
            r matches Err(e) ==> e == MantaCryptoErrors::DeserializationError,
    ;
}

impl MantaSerDes for HashParam {
    open spec fn data(&self) -> Seq<u8> {
        hash_param_data(*self)
    }

    open spec fn well_formed(&self) -> bool {
        hash_param_well_formed(*self)
    }

    fn serialize(&self) -> (r: Result<Vec<u8>, MantaCryptoErrors>) {
        serialize_hash_param(self)
    }

    fn deserialize(bytes: &[u8]) -> (r: Result<Self, MantaCryptoErrors>) {
        deserialize_hash_param(bytes)
    }
}

impl MantaSerDes for CommitmentParam {
    open spec fn data(&self) -> Seq<u8> {
        commitment_param_data(*self)
    }

    open spec fn well_formed(&self) -> bool {
        commitment_param_well_formed(*self)
    }

    fn serialize(&self) -> (r: Result<Vec<u8>, MantaCryptoErrors>) {
        serialize_commitment_param(self)
    }

    fn deserialize(bytes: &[u8]) -> (r: Result<Self, MantaCryptoErrors>) {
        deserialize_commitment_param(bytes)
    }
}

impl crate::MantaCrypto {
    /// Write a hash-parameter table out and read it back.
    ///
    /// For a table of the scheme's shape the round trip succeeds and loses
    /// nothing: the reloaded table holds the same generator bytes as the
    /// table written out.
    pub fn reload_hash_param(p: &HashParam) -> (r: Result<HashParam, MantaCryptoErrors>)
        ensures
            hash_param_well_formed(*p) ==> (r matches Ok(q) && hash_param_data(q)
                == hash_param_data(*p)),
    {
        match serialize_hash_param(p) {
            Ok(bytes) => deserialize_hash_param(bytes.as_slice()),
            Err(e) => Err(e),
        }
    }

    /// Write a commitment-parameter table out and read it back.
    ///
    /// For tables of the scheme's shape the round trip succeeds and loses
    /// nothing: the reloaded table holds the same generator bytes as the
    /// table written out.
    pub fn reload_commitment_param(p: &CommitmentParam) -> (r: Result<
        CommitmentParam,
        MantaCryptoErrors,
    >)
        ensures
            commitment_param_well_formed(*p) ==> (r matches Ok(q) && commitment_param_data(q)
                == commitment_param_data(*p)),
    {
        match serialize_commitment_param(p) {
            Ok(bytes) => deserialize_commitment_param(bytes.as_slice()),
            Err(e) => Err(e),
        }
    }
}

} // verus!
