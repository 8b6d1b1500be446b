use ark_crypto_primitives::commitment::pedersen::{
    Commitment as ArkPedersenCommitment, Randomness,
};
use ark_crypto_primitives::commitment::CommitmentScheme as ArkCommitmentScheme;
use ark_crypto_primitives::crh::pedersen::CRH;
use ark_crypto_primitives::crh::FixedLengthCRH;
use ark_ed_on_bls12_381::{EdwardsProjective, Fr};
use ark_serialize::CanonicalSerialize;
use manta_crypto::serdes::{CommitmentParam, HashParam, MantaSerDes};
use manta_crypto::MantaCrypto;
use manta_crypto::MantaCryptoErrors;
use rand::rngs::StdRng;
use rand::SeedableRng;

#[derive(Clone)]
struct TestWindow;

impl ark_crypto_primitives::crh::pedersen::Window for TestWindow {
    const WINDOW_SIZE: usize = 4;
    const NUM_WINDOWS: usize = 256;
}

type Hash = CRH<EdwardsProjective, TestWindow>;
type PedersenCommitment = ArkPedersenCommitment<EdwardsProjective, TestWindow>;

fn commit_bytes(param: &CommitmentParam, input: &[u8], opening: u64) -> [u8; 32] {
    let open = Randomness::<EdwardsProjective>(Fr::from(opening));
    let commit = PedersenCommitment::commit(&param.inner, input, &open).unwrap();
    let mut commit_bytes = [0u8; 32];
    commit.serialize(commit_bytes.as_mut()).unwrap();
    commit_bytes
}

#[test]
fn test_param_serdes() {
    let hash_param_seed = [1u8; 32];
    let mut rng = StdRng::from_seed(hash_param_seed);
    let hash_param = HashParam { inner: Hash::setup(&mut rng).unwrap() };
    let buf: Vec<u8> = hash_param.serialize().unwrap();
    let hash_param2 = HashParam::deserialize(buf.as_ref()).unwrap();
    assert_eq!(hash_param.inner.generators, hash_param2.inner.generators);

    let commit_param_seed = [2u8; 32];
    let mut rng = StdRng::from_seed(commit_param_seed);
    let commit_param = CommitmentParam { inner: PedersenCommitment::setup(&mut rng).unwrap() };
    let buf: Vec<u8> = commit_param.serialize().unwrap();
    let commit_param2 = CommitmentParam::deserialize(buf.as_ref()).unwrap();
    assert_eq!(commit_param.inner.generators, commit_param2.inner.generators);
    assert_eq!(
        commit_param.inner.randomness_generator,
        commit_param2.inner.randomness_generator
    );
}

#[test]
fn reload_preserves_param_tables() {
    let mut rng = StdRng::from_seed([4u8; 32]);
    let hash_param = HashParam { inner: Hash::setup(&mut rng).unwrap() };
    let hash_param2 = MantaCrypto::reload_hash_param(&hash_param).unwrap();
    assert_eq!(hash_param.inner.generators, hash_param2.inner.generators);

    let commit_param = CommitmentParam { inner: PedersenCommitment::setup(&mut rng).unwrap() };
    let commit_param2 = MantaCrypto::reload_commitment_param(&commit_param).unwrap();
    assert_eq!(commit_param.inner.generators, commit_param2.inner.generators);
    assert_eq!(
        commit_param.inner.randomness_generator,
        commit_param2.inner.randomness_generator
    );
}

#[test]
fn deserialize_rejects_garbage() {
    let garbage = [0xffu8; 64];
    assert_eq!(
        HashParam::deserialize(garbage.as_ref()).err(),
        Some(MantaCryptoErrors::DeserializationError)
    );
}

#[test]
fn commitment_is_deterministic_and_check_decides() {
    let mut rng = StdRng::from_seed([2u8; 32]);
    let commit_param = CommitmentParam { inner: PedersenCommitment::setup(&mut rng).unwrap() };
    let input = [9u8; 32];

    let c1 = commit_bytes(&commit_param, &input, 77);
    let c2 = commit_bytes(&commit_param, &input, 77);
    assert_eq!(c1, c2);
    assert_eq!(c1.len(), 32);

    assert_eq!(MantaCrypto::check_commitment_result(Ok(c1), &c2), Ok(true));

    let mut tampered = c2;
    tampered[0] ^= 1;
    assert_eq!(MantaCrypto::check_commitment_result(Ok(c1), &tampered), Ok(false));

    let different_input = commit_bytes(&commit_param, &[10u8; 32], 77);
    assert_eq!(MantaCrypto::check_commitment_result(Ok(c1), &different_input), Ok(false));

    let different_opening = commit_bytes(&commit_param, &input, 78);
    assert_eq!(MantaCrypto::check_commitment_result(Ok(c1), &different_opening), Ok(false));

    assert_eq!(
        MantaCrypto::check_commitment_result(Err(MantaCryptoErrors::CryptoError), &c1),
        Err(MantaCryptoErrors::CryptoError)
    );
}

#[test]
fn commitment_input_bound() {
    assert!(MantaCrypto::commitment_input_ok(0));
    assert!(MantaCrypto::commitment_input_ok(128));
    assert!(!MantaCrypto::commitment_input_ok(129));
}

#[test]
fn leaf_capacity_boundary() {
    assert_eq!(MantaCrypto::max_leaf_count(), 2097152);
    assert!(MantaCrypto::leaf_count_ok(0));
    assert!(MantaCrypto::leaf_count_ok(2097152));
    assert!(!MantaCrypto::leaf_count_ok(2097153));
}

#[derive(Clone)]
struct TestMerkleParams;

impl ark_crypto_primitives::merkle_tree::Config for TestMerkleParams {
    const HEIGHT: usize = manta_crypto::merkle::TREE_HEIGHT + 1;
    type H = Hash;
}

fn root_bytes(
    hash_param: &HashParam,
    leaves: &[[u8; 32]],
) -> Result<[u8; 32], MantaCryptoErrors> {
    if !MantaCrypto::leaf_count_ok(leaves.len()) {
        return Err(MantaCryptoErrors::TreeConstructionError);
    }
    let tree =
        ark_crypto_primitives::merkle_tree::MerkleTree::<TestMerkleParams>::new(
            hash_param.inner.clone(),
            leaves,
        )
        .map_err(|_| MantaCryptoErrors::TreeConstructionError)?;
    let mut bytes = [0u8; 32];
    tree.root()
        .serialize(bytes.as_mut())
        .map_err(|_| MantaCryptoErrors::IoError)?;
    Ok(bytes)
}

#[test]
fn root_is_deterministic_and_sensitive() {
    let mut rng = StdRng::from_seed([1u8; 32]);
    let hash_param = HashParam { inner: Hash::setup(&mut rng).unwrap() };
    let leaves = [[1u8; 32], [2u8; 32], [3u8; 32]];
    let r1 = root_bytes(&hash_param, &leaves).unwrap();
    let r2 = root_bytes(&hash_param, &leaves).unwrap();
    assert_eq!(r1, r2);
    assert_eq!(r1.len(), 32);

    let permuted = [[2u8; 32], [1u8; 32], [3u8; 32]];
    assert_ne!(root_bytes(&hash_param, &permuted).unwrap(), r1);

    let mut altered = leaves;
    altered[0][0] ^= 1;
    assert_ne!(root_bytes(&hash_param, &altered).unwrap(), r1);
}

#[test]
fn tree_above_capacity_is_refused() {
    let mut rng = StdRng::from_seed([1u8; 32]);
    let hash_param = HashParam { inner: Hash::setup(&mut rng).unwrap() };
    let leaves = vec![[0u8; 32]; 2097153];
    assert_eq!(
        root_bytes(&hash_param, &leaves).err(),
        Some(MantaCryptoErrors::TreeConstructionError)
    );
}
