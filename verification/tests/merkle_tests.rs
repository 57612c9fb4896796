//! Merkle-proof verification and partial-fill scenarios over a four-leaf
//! tree.

use fusion_escrow::errors::EscrowError;
use fusion_escrow::escrow::EscrowDst;
use fusion_escrow::merkle::verify_merkle_proof;
use fusion_escrow::merkle::MerkleProof;
use fusion_escrow::stage::pack_timelocks;

fn keccak(data: &[u8]) -> [u8; 32] {
    near_sdk::env::keccak256_array(data)
}

fn leaf(index: u64, secret_hash: [u8; 32]) -> [u8; 32] {
    let mut data = index.to_le_bytes().to_vec();
    data.extend_from_slice(&secret_hash);
    keccak(&data)
}

fn combine(a: [u8; 32], b: [u8; 32]) -> [u8; 32] {
    let mut data = Vec::new();
    if a <= b {
        data.extend_from_slice(&a);
        data.extend_from_slice(&b);
    } else {
        data.extend_from_slice(&b);
        data.extend_from_slice(&a);
    }
    keccak(&data)
}

/// Four secrets, their digests, the four leaves, the root, and one proof
/// path per leaf.
struct FourLeafTree {
    secrets: Vec<Vec<u8>>,
    secret_hashes: Vec<[u8; 32]>,
    root: [u8; 32],
    paths: Vec<Vec<[u8; 32]>>,
}

fn four_leaf_tree() -> FourLeafTree {
    let secrets: Vec<Vec<u8>> =
        vec![b"s0".to_vec(), b"s1".to_vec(), b"s2".to_vec(), b"s3".to_vec()];
    let secret_hashes: Vec<[u8; 32]> = secrets.iter().map(|s| keccak(s)).collect();
    let leaves: Vec<[u8; 32]> =
        (0..4u64).map(|i| leaf(i, secret_hashes[i as usize])).collect();
    let n01 = combine(leaves[0], leaves[1]);
    let n23 = combine(leaves[2], leaves[3]);
    let root = combine(n01, n23);
    let paths = vec![
        vec![leaves[1], n23],
        vec![leaves[0], n23],
        vec![leaves[3], n01],
        vec![leaves[2], n01],
    ];
    FourLeafTree { secrets, secret_hashes, root, paths }
}

fn partial_escrow(root: [u8; 32]) -> EscrowDst {
    EscrowDst::new_with_partial_fills(
        root,
        "token.near".to_string(),
        1000u128,
        "maker.near".to_string(),
        "taker.near".to_string(),
        500u128,
        pack_timelocks(100, 200),
        4,
        1000,
    )
    .unwrap()
}

fn proof_for(tree: &FourLeafTree, index: u64) -> MerkleProof {
    MerkleProof {
        index,
        secret_hash: tree.secret_hashes[index as usize],
        proof: tree.paths[index as usize].clone(),
    }
}

#[test]
fn test_merkle_proof_structure() {
    let proof = MerkleProof { index: 0, secret_hash: [3u8; 32], proof: vec![[4u8; 32], [5u8; 32]] };

    assert_eq!(proof.index, 0);
    assert_eq!(proof.secret_hash, [3u8; 32]);
    assert_eq!(proof.proof.len(), 2);
}

#[test]
fn valid_merkle_proofs_verify() {
    let tree = four_leaf_tree();
    for i in 0..4u64 {
        let l = leaf(i, tree.secret_hashes[i as usize]);
        assert!(verify_merkle_proof(&l, &tree.paths[i as usize], &tree.root));
    }
}

#[test]
fn bit_flip_anywhere_breaks_verification() {
    let tree = four_leaf_tree();
    let l = leaf(0, tree.secret_hashes[0]);

    // Flip one bit in each proof element in turn.
    for elem in 0..tree.paths[0].len() {
        for bit in [0u8, 7u8] {
            let mut path = tree.paths[0].clone();
            path[elem][0] ^= 1u8 << bit;
            assert!(!verify_merkle_proof(&l, &path, &tree.root));
        }
    }

    // Flip one bit in the leaf, and one in the root.
    let mut bad_leaf = l;
    bad_leaf[31] ^= 1;
    assert!(!verify_merkle_proof(&bad_leaf, &tree.paths[0], &tree.root));
    let mut bad_root = tree.root;
    bad_root[0] ^= 1;
    assert!(!verify_merkle_proof(&l, &tree.paths[0], &bad_root));
}

#[test]
fn sequential_partial_fills_complete_the_order() {
    let taker = "taker.near".to_string();
    let tree = four_leaf_tree();
    let mut escrow = partial_escrow(tree.root);

    for i in 0..4u64 {
        let plan = escrow
            .withdraw_partial(tree.secrets[i as usize].clone(), proof_for(&tree, i), &taker, 1050)
            .unwrap();
        // 1000 split into 4 parts: each slice is 250, and the deposit share
        // is the same fraction of 500.
        assert_eq!(plan.token.amount, 250);
        assert_eq!(plan.token.receiver_id, "maker.near");
        assert_eq!(plan.deposit.amount, 125);
        assert_eq!(escrow.filled_amount, 250 * (i as u128 + 1));
    }

    assert_eq!(escrow.filled_amount, 1000);
    assert!(escrow.is_withdrawn());
    let state = escrow.get_partial_fill_state().unwrap();
    assert_eq!(state.used_indices, vec![0, 1, 2, 3]);
    assert_eq!(state.last_validated, 3);
}

#[test]
fn out_of_range_index_is_rejected() {
    let tree = four_leaf_tree();
    let escrow = partial_escrow(tree.root);
    assert!(!escrow.is_valid_partial_fill(4, 1000));
    assert!(!escrow.is_valid_partial_fill(u64::MAX, 1000));
    assert!(escrow.is_valid_partial_fill(0, 1000));
}

#[test]
fn reused_index_fails_with_validation_error() {
    let taker = "taker.near".to_string();
    let tree = four_leaf_tree();
    let mut escrow = partial_escrow(tree.root);

    escrow.withdraw_partial(tree.secrets[0].clone(), proof_for(&tree, 0), &taker, 1050).unwrap();
    let r = escrow.withdraw_partial(tree.secrets[0].clone(), proof_for(&tree, 0), &taker, 1050);
    assert_eq!(r.unwrap_err(), EscrowError::ValidationError);
}

#[test]
fn skipping_the_sequence_fails_with_validation_error() {
    let taker = "taker.near".to_string();
    let tree = four_leaf_tree();
    let mut escrow = partial_escrow(tree.root);

    escrow.withdraw_partial(tree.secrets[0].clone(), proof_for(&tree, 0), &taker, 1050).unwrap();
    // Index 2 skips index 1: it is not the next index in sequence, so the
    // fill is rejected.
    let r = escrow.withdraw_partial(tree.secrets[2].clone(), proof_for(&tree, 2), &taker, 1050);
    assert_eq!(r.unwrap_err(), EscrowError::ValidationError);
}

#[test]
fn tiny_amount_cannot_skip_the_sequence() {
    // With amount 1 and 4 parts, the cumulative targets for indices 0..2
    // are all 0, so the tolerance band alone cannot tell the indices
    // apart; the sequencing rule still rejects the skip.
    let taker = "taker.near".to_string();
    let tree = four_leaf_tree();
    let mut escrow = EscrowDst::new_with_partial_fills(
        tree.root,
        "token.near".to_string(),
        1u128,
        "maker.near".to_string(),
        taker.clone(),
        0u128,
        pack_timelocks(100, 200),
        4,
        1000,
    )
    .unwrap();

    let plan =
        escrow.withdraw_partial(tree.secrets[0].clone(), proof_for(&tree, 0), &taker, 1050).unwrap();
    assert_eq!(plan.token.amount, 0);
    let r = escrow.withdraw_partial(tree.secrets[2].clone(), proof_for(&tree, 2), &taker, 1050);
    assert_eq!(r.unwrap_err(), EscrowError::ValidationError);
}

#[test]
fn revealed_secret_keeps_the_first_reveal() {
    let taker = "taker.near".to_string();
    let tree = four_leaf_tree();
    let mut escrow = partial_escrow(tree.root);

    for i in 0..4u64 {
        escrow
            .withdraw_partial(tree.secrets[i as usize].clone(), proof_for(&tree, i), &taker, 1050)
            .unwrap();
        assert_eq!(escrow.get_revealed_secret().unwrap(), &tree.secrets[0]);
    }
}

#[test]
fn first_fill_must_start_the_sequence() {
    let taker = "taker.near".to_string();
    let tree = four_leaf_tree();
    let mut escrow = partial_escrow(tree.root);

    // Starting anywhere but index 0 is not the next index in sequence and
    // is rejected.
    let r = escrow.withdraw_partial(tree.secrets[2].clone(), proof_for(&tree, 2), &taker, 1050);
    assert_eq!(r.unwrap_err(), EscrowError::ValidationError);
}

#[test]
fn partial_withdraw_rejects_wrong_secret_and_stage() {
    let taker = "taker.near".to_string();
    let tree = four_leaf_tree();
    let mut escrow = partial_escrow(tree.root);

    // Secret does not match the proof's digest.
    let r = escrow.withdraw_partial(b"wrong".to_vec(), proof_for(&tree, 0), &taker, 1050);
    assert_eq!(r.unwrap_err(), EscrowError::ValidationError);

    // Outside the private withdrawal window.
    let r = escrow.withdraw_partial(tree.secrets[0].clone(), proof_for(&tree, 0), &taker, 1250);
    assert_eq!(r.unwrap_err(), EscrowError::StateError);

    // Wrong caller.
    let r = escrow.withdraw_partial(
        tree.secrets[0].clone(),
        proof_for(&tree, 0),
        &"mallory.near".to_string(),
        1050,
    );
    assert_eq!(r.unwrap_err(), EscrowError::AuthorizationError);

    // A proof against the wrong root fails Merkle validation.
    let mut bad = proof_for(&tree, 0);
    bad.proof[0][0] ^= 1;
    let r = escrow.withdraw_partial(tree.secrets[0].clone(), bad, &taker, 1050);
    assert_eq!(r.unwrap_err(), EscrowError::ValidationError);
}

#[test]
fn uneven_split_still_completes_exactly() {
    // 1000 into 3 parts: buckets of 33%, 66%, 100% give cumulative targets
    // 330, 660, 1000.
    let secrets: Vec<Vec<u8>> = vec![b"a0".to_vec(), b"a1".to_vec(), b"a2".to_vec()];
    let hashes: Vec<[u8; 32]> = secrets.iter().map(|s| keccak(s)).collect();
    let leaves: Vec<[u8; 32]> = (0..3u64).map(|i| leaf(i, hashes[i as usize])).collect();
    let n01 = combine(leaves[0], leaves[1]);
    // Odd leaf promoted: the root combines the pair node with the last leaf.
    let root = combine(n01, leaves[2]);
    let paths = vec![vec![leaves[1], leaves[2]], vec![leaves[0], leaves[2]], vec![n01]];

    let taker = "taker.near".to_string();
    let mut escrow = EscrowDst::new_with_partial_fills(
        root,
        "token.near".to_string(),
        1000u128,
        "maker.near".to_string(),
        taker.clone(),
        500u128,
        pack_timelocks(100, 200),
        3,
        1000,
    )
    .unwrap();

    let expected_slices: [u128; 3] = [330, 330, 340];
    for i in 0..3u64 {
        let proof = MerkleProof {
            index: i,
            secret_hash: hashes[i as usize],
            proof: paths[i as usize].clone(),
        };
        let plan =
            escrow.withdraw_partial(secrets[i as usize].clone(), proof, &taker, 1050).unwrap();
        assert_eq!(plan.token.amount, expected_slices[i as usize]);
    }
    assert_eq!(escrow.filled_amount, 1000);
    assert!(escrow.is_withdrawn());
}
