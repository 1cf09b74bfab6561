//! Merkle membership proofs with sorted-pair Keccak-256 hashing.
//!
//! A proof is the list of sibling hashes from a leaf up to the root. At each
//! level the running hash and the sibling are hashed together, the smaller of
//! the two (in lexicographic byte order) first.

use crate::keccak::{keccak_hash, keccak_hash_of, keccak_hashv_of, keccak_hashv_pair};
use vstd::prelude::*;

verus! {

/// Lexicographic `a <= b` on two byte strings of the same length, looking at
/// positions `i` onwards.
pub open spec fn lex_le_from(a: Seq<u8>, b: Seq<u8>, i: int) -> bool
    decreases a.len() - i,
{
    if i >= a.len() || i < 0 {
        true
    } else if a[i] != b[i] {
        a[i] < b[i]
    } else {
        lex_le_from(a, b, i + 1)
    }
}

/// Lexicographic `a <= b` on two byte strings of the same length: the order of
/// Rust's `<=` on byte arrays.
pub open spec fn lex_le(a: Seq<u8>, b: Seq<u8>) -> bool {
    lex_le_from(a, b, 0)
}

/// The hash of two nodes of the tree: the smaller one is hashed first.
pub open spec fn hash_pair(a: Seq<u8>, b: Seq<u8>) -> Seq<u8> {
    if lex_le(a, b) {
        keccak_hashv_of(seq![a, b])
    } else {
        keccak_hashv_of(seq![b, a])
    }
}

/// The root that a proof leads to from a leaf.
pub open spec fn fold_proof(proof: Seq<Seq<u8>>, leaf: Seq<u8>) -> Seq<u8>
    decreases proof.len(),
{
    if proof.len() == 0 {
        leaf
    } else {
        hash_pair(fold_proof(proof.drop_last(), leaf), proof.last())
    }
}

/// The byte strings of a proof.
pub open spec fn proof_view(proof: Seq<[u8; 32]>) -> Seq<Seq<u8>> {
    proof.map_values(|e: [u8; 32]| e@)
}

/// Whether `a <= b` in lexicographic byte order.
pub fn hash_le(a: &[u8; 32], b: &[u8; 32]) -> (le: bool)
    ensures
        le == lex_le(a@, b@),
        a@ == b@ ==> le,
        forall|i: int|
            0 <= i < 32 && #[trigger] a@[i] != b@[i] && (forall|j: int| 0 <= j < i ==> a@[j] == b@[j])
                ==> (le <==> a@[i] < b@[i]),
{
    let mut i: usize = 0;
    while i < 32
        invariant
            0 <= i <= 32,
            a@.len() == 32,
            b@.len() == 32,
            lex_le(a@, b@) == lex_le_from(a@, b@, i as int),
            forall|j: int| 0 <= j < i ==> a@[j] == b@[j],
        decreases 32 - i,
    {
        if a[i] != b[i] {
            let le = a[i] < b[i];
            assert forall|k: int|
                0 <= k < 32 && #[trigger] a@[k] != b@[k] && (forall|j: int| 0 <= j < k ==> a@[j] == b@[j])
                implies (le <==> a@[k] < b@[k]) by {
                if k < i {
                } else if k > i {
                    assert(a@[i as int] == b@[i as int]);
                }
            }
            return le;
        }
        i = i + 1;
    }
    assert(a@ =~= b@);
    true
}

/// The two nodes in the order in which they are hashed: the smaller first.
pub fn ordered_pair(a: &[u8; 32], b: &[u8; 32]) -> (pair: ([u8; 32], [u8; 32]))
    ensures
        lex_le(a@, b@) ==> pair == (*a, *b),
        !lex_le(a@, b@) ==> pair == (*b, *a),
{
    if hash_le(a, b) {
        (*a, *b)
    } else {
        (*b, *a)
    }
}

/// The hash of two nodes of the tree.
pub fn hash_nodes(a: &[u8; 32], b: &[u8; 32]) -> (digest: [u8; 32])
    ensures
        digest@ == hash_pair(a@, b@),
{
    let (first, second) = ordered_pair(a, b);
    keccak_hashv_pair(&first, &second)
}

/// The root that `proof` leads to from `leaf`.
pub fn process_proof(proof: Vec<[u8; 32]>, leaf: [u8; 32]) -> (root: [u8; 32])
    ensures
        root@ == fold_proof(proof_view(proof@), leaf@),
{
    let ghost nodes = proof_view(proof@);
    let mut computed_hash = leaf;
    let mut i: usize = 0;
    while i < proof.len()
        invariant
            0 <= i <= proof.len(),
            nodes == proof_view(proof@),
            computed_hash@ == fold_proof(nodes.take(i as int), leaf@),
        decreases proof.len() - i,
    {
        let proof_element = proof[i];
        assert(nodes.take(i + 1).drop_last() =~= nodes.take(i as int));
        computed_hash = hash_nodes(&computed_hash, &proof_element);
        i = i + 1;
    }
    assert(nodes.take(proof.len() as int) =~= nodes);
    computed_hash
}

/// Whether `proof` shows that `leaf` belongs to the tree with root `root`.
pub fn verify(proof: Vec<[u8; 32]>, root: [u8; 32], leaf: [u8; 32]) -> (valid: bool)
    ensures
        valid == (fold_proof(proof_view(proof@), leaf@) == root@),
{
    let computed_hash = process_proof(proof, leaf);
    bytes_eq(&computed_hash, &root)
}

/// Whether `proof` shows that the NFT with mint `mint` is a leaf of the tree with root `root`.
pub open spec fn mint_in_tree(proof: Seq<[u8; 32]>, root: [u8; 32], mint: [u8; 32]) -> bool {
    fold_proof(proof_view(proof), keccak_hash_of(mint@)) == root@
}

/// The leaf of the tree that stands for the NFT with mint `mint`: the Keccak-256 hash of its key.
pub fn nft_leaf(mint: &[u8; 32]) -> (leaf: [u8; 32])
    ensures
        leaf@ == keccak_hash_of(mint@),
{
    keccak_hash(mint.as_slice())
}

/// A copy of a proof.
pub fn copy_proof(proof: &Vec<[u8; 32]>) -> (copy: Vec<[u8; 32]>)
    ensures
        copy@ == proof@,
{
    let mut copy: Vec<[u8; 32]> = Vec::new();
    let mut i: usize = 0;
    while i < proof.len()
        invariant
            0 <= i <= proof.len(),
            copy@ =~= proof@.take(i as int),
        decreases proof.len() - i,
    {
        copy.push(proof[i]);
        i = i + 1;
    }
    assert(proof@.take(proof@.len() as int) =~= proof@);
    copy
}

/// Whether two 32-byte values are equal.
pub fn bytes_eq(a: &[u8; 32], b: &[u8; 32]) -> (eq: bool)
    ensures
        eq == (a@ == b@),
{
    let mut i: usize = 0;
    while i < 32
        invariant
            0 <= i <= 32,
            a@.len() == 32,
            b@.len() == 32,
            forall|j: int| 0 <= j < i ==> a@[j] == b@[j],
        decreases 32 - i,
    {
        if a[i] != b[i] {
            return false;
        }
        i = i + 1;
    }
    assert(a@ =~= b@);
    true
}

/// Byte strings that are `<=` each other from position `i` on agree from `i` on.
proof fn lemma_lex_le_antisymmetric(a: Seq<u8>, b: Seq<u8>, i: int)
    requires
        a.len() == b.len(),
        0 <= i <= a.len(),
        lex_le_from(a, b, i),
        lex_le_from(b, a, i),
    ensures
        forall|j: int| i <= j < a.len() ==> a[j] == b[j],
    decreases a.len() - i,
{
    if i < a.len() {
        lemma_lex_le_antisymmetric(a, b, i + 1);
    }
}

/// Of two byte strings of the same length, one is `<=` the other from position `i` on.
proof fn lemma_lex_le_total(a: Seq<u8>, b: Seq<u8>, i: int)
    requires
        a.len() == b.len(),
        0 <= i <= a.len(),
    ensures
        lex_le_from(a, b, i) || lex_le_from(b, a, i),
    decreases a.len() - i,
{
    if i < a.len() {
        lemma_lex_le_total(a, b, i + 1);
    }
}

/// Positions before the first difference do not change the comparison.
proof fn lemma_lex_le_from_prefix(a: Seq<u8>, b: Seq<u8>, k: int, i: int)
    requires
        a.len() == b.len(),
        0 <= k <= i <= a.len(),
        forall|j: int| 0 <= j < i ==> a[j] == b[j],
    ensures
        lex_le_from(a, b, k) == lex_le_from(a, b, i),
        lex_le_from(b, a, k) == lex_le_from(b, a, i),
    decreases i - k,
{
    if k < i {
        lemma_lex_le_from_prefix(a, b, k + 1, i);
    }
}

/// The order of nodes is Rust's unsigned lexicographic order on byte arrays:
/// at the first position where two equally long byte strings differ, the one
/// with the smaller byte is the smaller string.
pub proof fn lemma_lex_le_first_difference(a: Seq<u8>, b: Seq<u8>, i: int)
    requires
        a.len() == b.len(),
        0 <= i < a.len(),
        forall|j: int| 0 <= j < i ==> a[j] == b[j],
        a[i] < b[i],
    ensures
        lex_le(a, b),
        !lex_le(b, a),
{
    lemma_lex_le_from_prefix(a, b, 0, i);
}

/// Every byte string is `<=` itself.
pub proof fn lemma_lex_le_reflexive(a: Seq<u8>)
    ensures
        lex_le(a, a),
{
    lemma_lex_le_from_prefix(a, a, 0, a.len() as int);
}

/// The smaller node, in unsigned lexicographic byte order, is hashed first.
pub proof fn lemma_hash_pair_smaller_first(a: Seq<u8>, b: Seq<u8>, i: int)
    requires
        a.len() == b.len(),
        0 <= i < a.len(),
        forall|j: int| 0 <= j < i ==> a[j] == b[j],
        a[i] < b[i],
    ensures
        hash_pair(a, b) == keccak_hashv_of(seq![a, b]),
        hash_pair(b, a) == keccak_hashv_of(seq![a, b]),
{
    lemma_lex_le_first_difference(a, b, i);
}

/// A proof of any length that leads from the NFT's leaf to the root is accepted.
pub proof fn lemma_membership_any_length(proof: Seq<[u8; 32]>, root: [u8; 32], mint: [u8; 32])
    requires
        fold_proof(proof_view(proof), keccak_hash_of(mint@)) == root@,
    ensures
        mint_in_tree(proof, root, mint),
{
}

/// With an empty proof, an NFT belongs exactly to the tree whose root is its leaf.
pub proof fn lemma_membership_empty_proof(root: [u8; 32], mint: [u8; 32])
    ensures
        mint_in_tree(Seq::<[u8; 32]>::empty(), root, mint) <==> root@ == keccak_hash_of(mint@),
{
    assert(proof_view(Seq::<[u8; 32]>::empty()) =~= Seq::<Seq<u8>>::empty());
}

/// A proof extended by one more sibling proves membership in the tree whose
/// root is the hash of the shorter proof's root with that sibling, whatever
/// the length of the proof.
pub proof fn lemma_membership_extends(proof: Seq<[u8; 32]>, node: [u8; 32], root: [u8; 32], mint: [u8; 32])
    ensures
        mint_in_tree(proof.push(node), root, mint)
            <==> hash_pair(fold_proof(proof_view(proof), keccak_hash_of(mint@)), node@) == root@,
{
    assert(proof_view(proof.push(node)) =~= proof_view(proof).push(node@));
    lemma_fold_proof_push(proof_view(proof), node@, keccak_hash_of(mint@));
}

/// The hash of two nodes does not depend on the order in which they are given.
pub proof fn lemma_hash_pair_commutes(a: Seq<u8>, b: Seq<u8>)
    requires
        a.len() == b.len(),
    ensures
        hash_pair(a, b) == hash_pair(b, a),
{
    lemma_lex_le_total(a, b, 0);
    if lex_le(a, b) && lex_le(b, a) {
        lemma_lex_le_antisymmetric(a, b, 0);
        assert(a =~= b);
    }
}

/// Two leaves hashed together form a root that each of them proves with the
/// other as its one-element proof.
pub proof fn lemma_sibling_leaves_share_root(a: Seq<u8>, b: Seq<u8>)
    requires
        a.len() == b.len(),
    ensures
        fold_proof(seq![b], a) == fold_proof(seq![a], b),
        fold_proof(seq![b], a) == hash_pair(a, b),
{
    reveal_with_fuel(fold_proof, 2);
    assert(seq![b].drop_last() =~= Seq::<Seq<u8>>::empty());
    assert(seq![a].drop_last() =~= Seq::<Seq<u8>>::empty());
    assert(seq![b].last() == b);
    assert(seq![a].last() == a);
    lemma_hash_pair_commutes(a, b);
}

/// A proof one node longer leads to the hash of the shorter proof's root with that node.
pub proof fn lemma_fold_proof_push(proof: Seq<Seq<u8>>, node: Seq<u8>, leaf: Seq<u8>)
    ensures
        fold_proof(proof.push(node), leaf) == hash_pair(fold_proof(proof, leaf), node),
{
    assert(proof.push(node).drop_last() =~= proof);
}

/// A leaf with an empty proof belongs exactly to the tree whose root is the leaf.
pub proof fn lemma_empty_proof(leaf: Seq<u8>)
    ensures
        fold_proof(Seq::<Seq<u8>>::empty(), leaf) == leaf,
{
}

} // verus!
