//! Merkle-membership validation for partial fills.
//!
//! A leaf commits to one fill index and its secret digest:
//! `keccak(little-endian index bytes ++ secret digest)`.  Proof verification
//! iteratively combines the running digest with each sibling, hashing the
//! two operands in ascending byte order (smaller operand first), so proofs
//! carry no left/right flags.  A proof is accepted iff the final digest
//! equals the committed root.

use vstd::prelude::*;

use crate::digest::keccak256;
use crate::digest::keccak_of;
use crate::digest::lex_le;
use crate::digest::push_digest;
use crate::digest::spec_lex_le;

verus! {

/// Merkle proof supplied with a partial-fill request.
#[derive(Clone, Debug)]
pub struct MerkleProof {
    /// Fill index the leaf stands for.
    pub index: u64,
    /// Digest of the secret committed for this index.
    pub secret_hash: [u8; 32],
    /// Ordered sibling digests from the leaf up to the root.
    pub proof: Vec<[u8; 32]>,
}

/// The byte views of a path of sibling digests.
pub open spec fn views_of(path: Seq<[u8; 32]>) -> Seq<Seq<u8>> {
    path.map_values(|d: [u8; 32]| d@)
}

/// Bytes a leaf digests: the little-endian index followed by the secret
/// digest for that index.
pub open spec fn spec_leaf_bytes(index: u64, secret_hash: Seq<u8>) -> Seq<u8> {
    vstd::bytes::spec_u64_to_le_bytes(index) + secret_hash
}

/// Canonical pairwise combination: the two operands are digested in
/// ascending byte order, so the combination is independent of tree position.
pub open spec fn spec_combine(a: Seq<u8>, b: Seq<u8>) -> Seq<u8> {
    if spec_lex_le(a, b) {
        keccak_of(a + b)
    } else {
        keccak_of(b + a)
    }
}

/// Digest reached from `acc` after folding in every sibling of `path`.
pub open spec fn spec_fold_path(acc: Seq<u8>, path: Seq<Seq<u8>>) -> Seq<u8>
    decreases path.len(),
{
    if path.len() == 0 {
        acc
    } else {
        spec_fold_path(spec_combine(acc, path.first()), path.drop_first())
    }
}

/// A proof is accepted iff folding the path from the leaf reaches the root.
pub open spec fn spec_path_accepted(leaf: Seq<u8>, path: Seq<Seq<u8>>, root: Seq<u8>) -> bool {
    spec_fold_path(leaf, path) == root
}

/// Leaf digest for one fill index and its secret digest.
pub fn compute_leaf(index: u64, secret_hash: &[u8; 32]) -> (r: [u8; 32])
    ensures
        r@ == keccak_of(spec_leaf_bytes(index, secret_hash@)),
{
    let mut data: Vec<u8> = vstd::bytes::u64_to_le_bytes(index);
    push_digest(&mut data, secret_hash);
    keccak256(&data)
}

/// Combines a running digest with one sibling, smaller operand first.
pub fn combine_ordered(a: &[u8; 32], b: &[u8; 32]) -> (r: [u8; 32])
    ensures
        r@ == spec_combine(a@, b@),
{
    let mut data: Vec<u8> = Vec::new();
    if lex_le(a, b) {
        push_digest(&mut data, a);
        push_digest(&mut data, b);
    } else {
        push_digest(&mut data, b);
        push_digest(&mut data, a);
    }
    proof {
        assert(Seq::<u8>::empty() + a@ + b@ =~= a@ + b@);
        assert(Seq::<u8>::empty() + b@ + a@ =~= b@ + a@);
    }
    keccak256(&data)
}

/// Verifies a Merkle proof: folds every sibling into the running digest and
/// accepts iff the result equals the committed root.
pub fn verify_merkle_proof(leaf: &[u8; 32], path: &Vec<[u8; 32]>, root: &[u8; 32]) -> (r: bool)
    ensures
        r == spec_path_accepted(leaf@, views_of(path@), root@),
{
    let mut computed: [u8; 32] = *leaf;
    let mut i: usize = 0;
    proof {
        assert(views_of(path@).skip(0) =~= views_of(path@));
    }
    while i < path.len()
        invariant
            0 <= i <= path.len(),
            spec_fold_path(leaf@, views_of(path@)) == spec_fold_path(
                computed@,
                views_of(path@).skip(i as int),
            ),
        decreases path.len() - i,
    {
        proof {
            assert(views_of(path@).skip(i as int).first() == path@[i as int]@);
            assert(views_of(path@).skip(i as int).drop_first() =~= views_of(path@).skip(
                i as int + 1,
            ));
        }
        computed = combine_ordered(&computed, &path[i]);
        i = i + 1;
    }
    proof {
        assert(views_of(path@).skip(path@.len() as int) =~= Seq::<Seq<u8>>::empty());
    }
    crate::digest::digest_eq(&computed, root)
}

} // verus!
