use miden_node::account_tree::AccountTree;
use miden_node::block_header::BlockHeader;
use miden_node::chain_mmr::ChainMmr;
use miden_node::digest::{Digest, FIELD_MODULUS};
use miden_node::note_tree::{BatchNoteTree, NoteTree};
use miden_node::nullifier_tree::{
    block_num_to_nullifier_value, nullifier_value_to_block_num, NullifierTree,
};
use miden_objects::crypto::hash::rpo::RpoDigest;
use miden_objects::crypto::merkle::{LeafIndex, MerklePath, Mmr, SimpleSmt, Smt};
use miden_objects::Felt;

fn rpo(d: &Digest) -> RpoDigest {
    RpoDigest::new(d.elements().map(Felt::new))
}

fn word(d: &Digest) -> [Felt; 4] {
    d.elements().map(Felt::new)
}

fn dig(r: RpoDigest) -> Digest {
    Digest::new(r[0].as_int(), r[1].as_int(), r[2].as_int(), r[3].as_int()).unwrap()
}

fn d(a: u64, b: u64, c: u64, e: u64) -> Digest {
    Digest::new(a, b, c, e).unwrap()
}

#[test]
fn test_nullifier_data_encoding() {
    let block_num = 123;
    let nullifier_value = block_num_to_nullifier_value(block_num);

    assert_eq!(nullifier_value, Digest::new(u64::from(block_num), 0, 0, 0).unwrap())
}

#[test]
fn test_nullifier_data_decoding() {
    let block_num = 123;
    let nullifier_value = Digest::new(u64::from(block_num), 0, 0, 0).unwrap();
    let decoded_block_num = nullifier_value_to_block_num(nullifier_value);

    assert_eq!(decoded_block_num, block_num);
}

#[test]
fn nullifier_value_of_the_largest_block_number() {
    let value = block_num_to_nullifier_value(u32::MAX);
    assert_eq!(value.elements(), [u64::from(u32::MAX), 0, 0, 0]);
    assert_eq!(nullifier_value_to_block_num(value), u32::MAX);
    assert!(block_num_to_nullifier_value(0).is_empty());
}

#[test]
fn digest_accepts_only_field_elements() {
    assert!(Digest::new(FIELD_MODULUS - 1, 0, 0, 0).is_some());
    assert!(Digest::new(FIELD_MODULUS, 0, 0, 0).is_none());
    assert!(Digest::new(0, FIELD_MODULUS, 0, 0).is_none());
    assert!(Digest::new(0, 0, u64::MAX, 0).is_none());
    assert!(Digest::new(0, 0, 0, FIELD_MODULUS).is_none());
    assert_eq!(Digest::zero(), d(0, 0, 0, 0));
    assert!(Digest::zero().is_empty());
    assert!(!d(0, 0, 0, 1).is_empty());
    assert_eq!(d(1, 2, 3, 4).elements(), [1, 2, 3, 4]);
}

#[test]
fn digest_bytes_are_little_endian_elements() {
    let digest = d(0x0102030405060708, 1, 0, FIELD_MODULUS - 1);
    let bytes = digest.as_bytes();
    assert_eq!(bytes.len(), 32);
    assert_eq!(&bytes[..8], &[8, 7, 6, 5, 4, 3, 2, 1]);
    assert_eq!(&bytes[8..16], &[1, 0, 0, 0, 0, 0, 0, 0]);
    assert_eq!(bytes, rpo(&digest).as_bytes().to_vec());
}

#[test]
fn nullifier_tree_records_and_reports() {
    let n1 = d(1, 2, 3, 4);
    let n2 = d(5, 6, 7, 8);
    let mut tree = NullifierTree::new();
    assert_eq!(tree.root(), dig(Smt::new().root()));
    assert_eq!(tree.get_block_num(&n1), 0);
    tree.insert(&n1, 7);
    assert_eq!(tree.get_block_num(&n1), 7);
    assert_eq!(tree.get_block_num(&n2), 0);
    assert_eq!(tree.get_value(&n1), d(7, 0, 0, 0));
    assert_eq!(tree.get_value(&n2), Digest::zero());

    let mut outside = Smt::new();
    outside.insert(rpo(&n1), word(&d(7, 0, 0, 0)));
    assert_eq!(tree.root(), dig(outside.root()));
}

#[test]
fn nullifier_tree_clone_is_independent() {
    let n1 = d(1, 2, 3, 4);
    let mut tree = NullifierTree::new();
    tree.insert(&n1, 1);
    let copy = tree.clone();
    tree.insert(&d(9, 9, 9, 9), 2);
    assert_eq!(copy.get_block_num(&n1), 1);
    assert_eq!(copy.get_block_num(&d(9, 9, 9, 9)), 0);
    assert_ne!(copy.root(), tree.root());
}

#[test]
fn nullifier_tree_insert_of_block_zero_removes() {
    let n1 = d(1, 2, 3, 4);
    let mut tree = NullifierTree::new();
    let empty_root = tree.root();
    tree.insert(&n1, 3);
    tree.insert(&n1, 0);
    assert_eq!(tree.get_block_num(&n1), 0);
    assert_eq!(tree.root(), empty_root);
}

#[test]
fn nullifier_tree_from_entries() {
    let entries = vec![(d(1, 0, 0, 1), 4u32), (d(2, 0, 0, 2), 9u32)];
    let tree = NullifierTree::with_entries(&entries).unwrap();
    assert_eq!(tree.get_block_num(&d(1, 0, 0, 1)), 4);
    assert_eq!(tree.get_block_num(&d(2, 0, 0, 2)), 9);
    let outside = Smt::with_entries(vec![
        (rpo(&d(1, 0, 0, 1)), word(&d(4, 0, 0, 0))),
        (rpo(&d(2, 0, 0, 2)), word(&d(9, 0, 0, 0))),
    ])
    .unwrap();
    assert_eq!(tree.root(), dig(outside.root()));

    let twice = vec![(d(1, 0, 0, 1), 4u32), (d(1, 0, 0, 1), 5u32)];
    assert!(NullifierTree::with_entries(&twice).is_err());
    assert!(NullifierTree::with_entries(&Vec::new()).is_ok());
}

#[test]
fn nullifier_tree_opening_verifies() {
    let n1 = d(1, 2, 3, 4);
    let absent = d(4, 3, 2, 1);
    let mut tree = NullifierTree::new();
    tree.insert(&n1, 5);
    let root = rpo(&tree.root());
    let proof = tree.open(&n1);
    assert!(proof.verify_membership(&rpo(&n1), &word(&d(5, 0, 0, 0)), &root));
    assert!(!proof.verify_membership(&rpo(&n1), &word(&d(6, 0, 0, 0)), &root));
    let proof = tree.open(&absent);
    assert!(proof.verify_membership(&rpo(&absent), &word(&Digest::zero()), &root));
}

#[test]
fn account_tree_matches_outside_tree() {
    let h0 = d(10, 11, 12, 13);
    let h1 = d(20, 21, 22, 23);
    let mut tree = AccountTree::new();
    assert_eq!(tree.root(), dig(SimpleSmt::<64>::new().unwrap().root()));
    assert_eq!(tree.insert(77, &h0), Digest::zero());
    assert_eq!(tree.insert(77, &h1), h0);
    assert_eq!(tree.get_leaf(77), h1);
    assert_eq!(tree.get_leaf(78), Digest::zero());
    let outside = SimpleSmt::<64>::with_leaves(vec![(77u64, word(&h1))]).unwrap();
    assert_eq!(tree.root(), dig(outside.root()));

    let witness = tree.open(77);
    assert_eq!(witness.hash, h1);
    assert_eq!(witness.proof.len(), 64);
    let path = MerklePath::new(witness.proof.iter().map(rpo).collect());
    assert!(path.verify(77, rpo(&h1), &rpo(&tree.root())));
}

#[test]
fn account_tree_from_leaves() {
    let leaves = vec![(1u64, d(1, 1, 1, 1)), (u64::MAX, d(2, 2, 2, 2))];
    let tree = AccountTree::with_leaves(&leaves).unwrap();
    let outside = SimpleSmt::<64>::with_leaves(vec![
        (1u64, word(&d(1, 1, 1, 1))),
        (u64::MAX, word(&d(2, 2, 2, 2))),
    ])
    .unwrap();
    assert_eq!(tree.root(), dig(outside.root()));
    assert_eq!(tree.get_leaf(u64::MAX), d(2, 2, 2, 2));
    let copy = tree.clone();
    assert_eq!(copy.root(), tree.root());

    let twice = vec![(1u64, d(1, 1, 1, 1)), (1u64, d(2, 2, 2, 2))];
    assert!(AccountTree::with_leaves(&twice).is_err());
}

#[test]
fn note_tree_accepts_what_fits() {
    let leaves = vec![(0u64, d(1, 0, 0, 0)), (1u64, d(2, 0, 0, 0)), (0x1f_ffffu64, d(3, 0, 0, 0))];
    let tree = NoteTree::with_leaves(&leaves).unwrap();
    let outside = SimpleSmt::<21>::with_leaves(vec![
        (0u64, word(&d(1, 0, 0, 0))),
        (1u64, word(&d(2, 0, 0, 0))),
        (0x1f_ffffu64, word(&d(3, 0, 0, 0))),
    ])
    .unwrap();
    assert_eq!(tree.root(), dig(outside.root()));
    let path = tree.open(1);
    assert_eq!(path.len(), 21);
    let expected: Vec<RpoDigest> = outside.open(&LeafIndex::<21>::new(1).unwrap()).path.to_vec();
    assert_eq!(path.iter().map(rpo).collect::<Vec<_>>(), expected);

    assert!(NoteTree::with_leaves(&vec![(0x20_0000u64, d(1, 0, 0, 0))]).is_err());
    assert!(NoteTree::with_leaves(&vec![(5u64, d(1, 0, 0, 0)), (5u64, d(1, 0, 0, 0))]).is_err());
}

#[test]
fn batch_note_tree_matches_outside_tree() {
    let words: Vec<Digest> = (0..10u64).map(|i| d(i + 1, 0, 0, 0)).collect();
    let tree = BatchNoteTree::with_contiguous_leaves(&words).unwrap();
    let outside = SimpleSmt::<13>::with_contiguous_leaves(words.iter().map(word)).unwrap();
    assert_eq!(tree.root(), dig(outside.root()));
    let empty = BatchNoteTree::with_contiguous_leaves(&Vec::new()).unwrap();
    assert_eq!(empty.root(), dig(SimpleSmt::<13>::new().unwrap().root()));
}

#[test]
fn batch_note_tree_holds_8192_leaves() {
    let words: Vec<Digest> = (0..8192u64).map(|i| d(i + 1, 0, 0, 0)).collect();
    assert!(BatchNoteTree::with_contiguous_leaves(&words).is_ok());
}

#[test]
fn batch_note_tree_refuses_8193_leaves() {
    let words: Vec<Digest> = (0..8193u64).map(|i| d(i + 1, 0, 0, 0)).collect();
    assert!(BatchNoteTree::with_contiguous_leaves(&words).is_err());
}

#[test]
fn chain_mmr_matches_outside_accumulator() {
    let hashes: Vec<Digest> = (1..=5u64).map(|i| d(i, i, i, i)).collect();
    let mut chain = ChainMmr::new();
    assert_eq!(chain.forest(), 0);
    for h in hashes.iter() {
        chain.add(h);
    }
    assert_eq!(chain.forest(), 5);
    let outside = Mmr::from(hashes.iter().map(rpo));
    for forest in 0..=5usize {
        let peaks = chain.peaks(forest).unwrap();
        assert_eq!(peaks, outside.peaks(forest).unwrap());
    }
    assert_eq!(chain.root(), dig(outside.peaks(5).unwrap().hash_peaks()));
    assert_eq!(ChainMmr::new().root(), dig(Mmr::new().peaks(0).unwrap().hash_peaks()));
    assert!(chain.peaks(6).is_err());

    let loaded = ChainMmr::from_hashes(&hashes);
    assert_eq!(loaded.forest(), 5);
    assert_eq!(loaded.peaks(5).unwrap(), chain.peaks(5).unwrap());
    let copy = chain.clone();
    chain.add(&d(6, 6, 6, 6));
    assert_eq!(copy.forest(), 5);
    assert_eq!(chain.forest(), 6);
}

#[test]
fn chain_mmr_delta() {
    let hashes: Vec<Digest> = (1..=7u64).map(|i| d(i, 0, 0, i)).collect();
    let chain = ChainMmr::from_hashes(&hashes);
    let outside = Mmr::from(hashes.iter().map(rpo));
    let delta = chain.get_delta(2, 7).unwrap();
    let expected = outside.get_delta(2, 7).unwrap();
    assert_eq!(delta.forest, 7);
    assert_eq!(delta.data.iter().map(rpo).collect::<Vec<_>>(), expected.data);
    assert!(!delta.data.is_empty());

    let same = chain.get_delta(3, 3).unwrap();
    assert_eq!(same.forest, 3);
    assert!(same.data.is_empty());
    assert!(chain.get_delta(4, 3).is_err());
    assert!(chain.get_delta(0, 8).is_err());
}

#[test]
fn block_header_hash_is_that_of_the_outside_header() {
    let header = BlockHeader::new(
        d(1, 2, 3, 4),
        9,
        d(5, 6, 7, 8),
        d(9, 10, 11, 12),
        d(13, 14, 15, 16),
        d(17, 18, 19, 20),
        d(21, 22, 23, 24),
        d(25, 26, 27, 28),
        3,
        1_700_000_000,
    );
    let outside = miden_objects::BlockHeader::new(
        rpo(&d(1, 2, 3, 4)),
        9,
        rpo(&d(5, 6, 7, 8)),
        rpo(&d(9, 10, 11, 12)),
        rpo(&d(13, 14, 15, 16)),
        rpo(&d(17, 18, 19, 20)),
        rpo(&d(21, 22, 23, 24)),
        rpo(&d(25, 26, 27, 28)),
        Felt::new(3),
        Felt::new(1_700_000_000),
    );
    assert_eq!(header.hash(), dig(outside.hash()));
    assert_ne!(header.hash(), header.prev_hash());
    assert_eq!(header.block_num(), 9);
    assert_eq!(header.chain_root(), d(5, 6, 7, 8));
    assert_eq!(header.account_root(), d(9, 10, 11, 12));
    assert_eq!(header.nullifier_root(), d(13, 14, 15, 16));
    assert_eq!(header.note_root(), d(17, 18, 19, 20));
}

#[test]
fn nullifier_tree_is_determined_by_what_it_holds() {
    // three keys in one leaf (same last element), one in another
    let keys = [d(1, 0, 0, 9), d(2, 0, 0, 9), d(0, 5, 0, 9), d(7, 7, 7, 7)];
    let mut forward = NullifierTree::new();
    for (i, k) in keys.iter().enumerate() {
        forward.insert(k, i as u32 + 1);
    }
    let mut backward = NullifierTree::new();
    backward.insert(&d(3, 3, 3, 9), 8);
    for (i, k) in keys.iter().enumerate().rev() {
        backward.insert(k, 40);
        backward.insert(k, i as u32 + 1);
    }
    backward.insert(&d(3, 3, 3, 9), 0);
    assert_eq!(forward.root(), backward.root());
    for k in keys.iter() {
        assert_eq!(forward.open(k), backward.open(k));
        assert_eq!(forward.get_block_num(k), backward.get_block_num(k));
    }
    assert_eq!(forward.open(&d(3, 3, 3, 9)), backward.open(&d(3, 3, 3, 9)));
    let listed: Vec<(Digest, u32)> =
        keys.iter().enumerate().map(|(i, k)| (*k, i as u32 + 1)).collect();
    assert_eq!(NullifierTree::with_entries(&listed).unwrap().root(), forward.root());
}

#[test]
fn account_tree_is_determined_by_what_it_holds() {
    let mut one = AccountTree::new();
    one.insert(1, &d(1, 1, 1, 1));
    one.insert(u64::MAX, &d(2, 2, 2, 2));
    let mut other = AccountTree::new();
    other.insert(5, &d(5, 5, 5, 5));
    other.insert(u64::MAX, &d(9, 9, 9, 9));
    other.insert(u64::MAX, &d(2, 2, 2, 2));
    other.insert(1, &d(1, 1, 1, 1));
    other.insert(5, &Digest::zero());
    assert_eq!(one.root(), other.root());
    assert_eq!(one.open(1), other.open(1));
    assert_eq!(one.open(5), other.open(5));
}

#[test]
fn peaks_and_deltas_do_not_depend_on_later_leaves() {
    let hashes: Vec<Digest> = (1..=11u64).map(|i| d(i, 0, i, 0)).collect();
    let chain = ChainMmr::from_hashes(&hashes);
    for to in 0..=11usize {
        let earlier = ChainMmr::from_hashes(&hashes[..to].to_vec());
        assert_eq!(chain.peaks(to).unwrap(), earlier.peaks(to).unwrap());
        for from in 0..=to {
            assert_eq!(chain.get_delta(from, to).unwrap(), earlier.get_delta(from, to).unwrap());
        }
    }
}
