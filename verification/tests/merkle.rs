use anchor_lang::solana_program::keccak;
use joker_swap::utils::verify_hash::{
    bytes_eq, hash_le, hash_nodes, nft_leaf, ordered_pair, process_proof, verify,
};

fn sorted_hash(a: [u8; 32], b: [u8; 32]) -> [u8; 32] {
    if a <= b {
        keccak::hashv(&[&a, &b]).0
    } else {
        keccak::hashv(&[&b, &a]).0
    }
}

fn key(byte: u8) -> [u8; 32] {
    [byte; 32]
}

#[test]
fn hash_le_is_lexicographic() {
    let mut a = [0u8; 32];
    let mut b = [0u8; 32];
    assert!(hash_le(&a, &b));
    a[5] = 1;
    assert!(!hash_le(&a, &b));
    assert!(hash_le(&b, &a));
    b[4] = 1;
    assert!(hash_le(&a, &b));
    assert!(!hash_le(&b, &a));
    a[31] = 9;
    b[0] = 0;
    assert_eq!(hash_le(&a, &b), a <= b);
}

#[test]
fn ordered_pair_puts_smaller_first() {
    let a = key(1);
    let b = key(2);
    assert_eq!(ordered_pair(&a, &b), (a, b));
    assert_eq!(ordered_pair(&b, &a), (a, b));
    assert_eq!(ordered_pair(&a, &a), (a, a));
}

#[test]
fn hash_nodes_is_sorted_keccak() {
    let a = key(7);
    let b = key(3);
    let expected = keccak::hashv(&[&b, &a]).0;
    assert_eq!(hash_nodes(&a, &b), expected);
    assert_eq!(hash_nodes(&b, &a), expected);
    assert_ne!(hash_nodes(&a, &b), a);
    assert_ne!(hash_nodes(&a, &b), b);
}

#[test]
fn nft_leaf_is_keccak_of_mint() {
    let mint = key(42);
    assert_eq!(nft_leaf(&mint), keccak::hash(&mint).0);
    assert_ne!(nft_leaf(&mint), mint);
}

#[test]
fn empty_proof_accepts_only_the_root_itself() {
    let leaf = key(1);
    assert!(verify(vec![], leaf, leaf));
    assert!(!verify(vec![], key(2), leaf));
    assert_eq!(process_proof(vec![], leaf), leaf);
}

#[test]
fn sibling_leaves_share_root() {
    let a = key(10);
    let b = key(20);
    let root = sorted_hash(a, b);
    assert!(verify(vec![b], root, a));
    assert!(verify(vec![a], root, b));
    assert_eq!(process_proof(vec![b], a), process_proof(vec![a], b));
    assert!(!verify(vec![key(30)], root, a));
}

#[test]
fn four_leaf_tree_proofs() {
    let leaves = [key(1), key(2), key(3), key(4)];
    let n01 = sorted_hash(leaves[0], leaves[1]);
    let n23 = sorted_hash(leaves[2], leaves[3]);
    let root = sorted_hash(n01, n23);
    assert!(verify(vec![leaves[1], n23], root, leaves[0]));
    assert!(verify(vec![leaves[0], n23], root, leaves[1]));
    assert!(verify(vec![leaves[3], n01], root, leaves[2]));
    assert!(verify(vec![leaves[2], n01], root, leaves[3]));
    assert_eq!(process_proof(vec![leaves[3], n01], leaves[2]), root);
    // wrong order of levels, wrong sibling, foreign leaf
    assert!(!verify(vec![n23, leaves[1]], root, leaves[0]));
    assert!(!verify(vec![leaves[2], n23], root, leaves[0]));
    assert!(!verify(vec![leaves[1], n23], root, key(9)));
}

#[test]
fn nft_mint_proof_round_trip() {
    let mints = [key(11), key(12)];
    let l0 = keccak::hash(&mints[0]).0;
    let l1 = keccak::hash(&mints[1]).0;
    let root = sorted_hash(l0, l1);
    assert!(verify(vec![l1], root, nft_leaf(&mints[0])));
    assert!(verify(vec![l0], root, nft_leaf(&mints[1])));
    assert!(!verify(vec![l1], root, mints[0]));
}

#[test]
fn bytes_eq_compares_all_bytes() {
    let a = key(5);
    let mut b = key(5);
    assert!(bytes_eq(&a, &b));
    b[31] = 6;
    assert!(!bytes_eq(&a, &b));
    b[31] = 5;
    b[0] = 0;
    assert!(!bytes_eq(&a, &b));
}

#[test]
fn copy_proof_keeps_every_node() {
    let proof = vec![key(1), key(2), key(3)];
    assert_eq!(joker_swap::utils::verify_hash::copy_proof(&proof), proof);
    assert_eq!(joker_swap::utils::verify_hash::copy_proof(&vec![]), Vec::<[u8; 32]>::new());
}

