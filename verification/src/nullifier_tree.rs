//! The nullifier tree: a sparse Merkle tree from the nullifier of a consumed
//! note to the number of the block that consumed it.
use miden_objects::crypto::hash::rpo::RpoDigest;
use miden_objects::crypto::merkle::{MerkleError, Smt, SmtProof};
use miden_objects::Felt;
use vstd::pervasive::unreached;
use vstd::prelude::*;

use crate::digest::Digest;
use crate::merkle::{distinct_keys, empty_tree, tree_value, tree_write, tree_write_all};

verus! {

// ---------------------------------------------------------------------------
// The outside tree and what is taken on trust about it
// ---------------------------------------------------------------------------
// Digests go to the outside crate and come back element by element. Every
// element of a `Digest` is below the field modulus, so nothing is lost on the
// way.

/// `Smt` of the outside crate: the sparse Merkle tree with digests as keys.
/// What it holds is named by [`smt_entries`].
#[verifier::external_type_specification]
#[verifier::external_body]
pub struct ExSmt(Smt);

/// `SmtProof` of the outside crate: the opening of a key in an `Smt`. It is
/// carried through as it is.
#[verifier::external_type_specification]
#[verifier::external_body]
pub struct ExSmtProof(SmtProof);

/// The key-value pairs that a sparse Merkle tree holds. A key whose value is
/// the all-zero word is not held.
pub uninterp spec fn smt_entries(tree: Smt) -> Map<Digest, Digest>;

/// The root hash of the sparse Merkle tree that holds exactly `entries`.
pub uninterp spec fn smt_root_hash(entries: Map<Digest, Digest>) -> Digest;

/// The opening of `key` in the sparse Merkle tree that holds exactly `entries`:
/// the leaf that `key` falls into and the path from it to the root.
pub uninterp spec fn smt_opening(entries: Map<Digest, Digest>, key: Digest) -> SmtProof;

/// `Smt::with_entries`: fails exactly when a key is listed twice; otherwise the
/// tree holds the listed pairs whose value is not the all-zero word.
#[verifier::external_body]
fn smt_with_entries(pairs: &Vec<(Digest, Digest)>) -> (r: Result<Smt, MerkleError>)
    ensures
        r is Ok <==> distinct_keys(pairs@),
        r matches Ok(tree) ==> smt_entries(tree) == tree_write_all(empty_tree::<Digest>(), pairs@),
{
    Smt::with_entries(
        pairs.iter().map(
            |(k, v)|
                (
                    RpoDigest::new(
                        [Felt::new(k.e0), Felt::new(k.e1), Felt::new(k.e2), Felt::new(k.e3)],
                    ),
                    [Felt::new(v.e0), Felt::new(v.e1), Felt::new(v.e2), Felt::new(v.e3)],
                ),
        ),
    )
}

/// `Smt::clone`: a tree with the same entries.
#[verifier::external_body]
fn smt_clone(tree: &Smt) -> (copy: Smt)
    ensures
        smt_entries(copy) == smt_entries(*tree),
{
    tree.clone()
}

/// `Smt::get_value`: the value held at `key`, the all-zero word if there is none.
#[verifier::external_body]
fn smt_get_value(tree: &Smt, key: &Digest) -> (value: Digest)
    ensures
        value == tree_value(smt_entries(*tree), *key),
{
    let key = RpoDigest::new(
        [Felt::new(key.e0), Felt::new(key.e1), Felt::new(key.e2), Felt::new(key.e3)],
    );
    let w = tree.get_value(&key);
    Digest { e0: w[0].as_int(), e1: w[1].as_int(), e2: w[2].as_int(), e3: w[3].as_int() }
}

/// `Smt::insert`: writes `value` at `key` and returns the value held there
/// before. It has no failure path, so it never unwinds.
#[verifier::external_body]
fn smt_insert(tree: &mut Smt, key: &Digest, value: &Digest) -> (previous: Digest)
    ensures
        smt_entries(*final(tree)) == tree_write(smt_entries(*old(tree)), *key, *value),
        previous == tree_value(smt_entries(*old(tree)), *key),
    no_unwind
{
    let key = RpoDigest::new(
        [Felt::new(key.e0), Felt::new(key.e1), Felt::new(key.e2), Felt::new(key.e3)],
    );
    let value = [Felt::new(value.e0), Felt::new(value.e1), Felt::new(value.e2), Felt::new(value.e3)];
    let w = tree.insert(key, value);
    Digest { e0: w[0].as_int(), e1: w[1].as_int(), e2: w[2].as_int(), e3: w[3].as_int() }
}

/// `Smt::root`: the root hash, which the entries determine.
#[verifier::external_body]
fn smt_root(tree: &Smt) -> (root: Digest)
    ensures
        root == smt_root_hash(smt_entries(*tree)),
{
    let r = tree.root();
    Digest { e0: r[0].as_int(), e1: r[1].as_int(), e2: r[2].as_int(), e3: r[3].as_int() }
}

/// `Smt::open`: the opening of `key`, which the entries and the key determine.
#[verifier::external_body]
fn smt_open(tree: &Smt, key: &Digest) -> (proof: SmtProof)
    ensures
        proof == smt_opening(smt_entries(*tree), *key),
{
    tree.open(
        &RpoDigest::new([Felt::new(key.e0), Felt::new(key.e1), Felt::new(key.e2), Felt::new(key.e3)]),
    )
}

// ---------------------------------------------------------------------------
// Block numbers as leaf values
// ---------------------------------------------------------------------------

/// The leaf value that records a nullifier as consumed in block `block_num`:
/// the block number in the first element, zero in the other three. Block 0
/// gives the all-zero word, which stands for "not consumed".
pub open spec fn nullifier_value(block_num: u32) -> Digest {
    Digest::from_elements(block_num as u64, 0, 0, 0)
}

/// The block number that a leaf value carries in its first element.
pub open spec fn nullifier_block_num(value: Digest) -> int {
    value@[0] as int
}

/// Decoding undoes encoding, and only block 0 encodes to the all-zero word.
pub proof fn lemma_nullifier_value(block_num: u32)
    ensures
        nullifier_block_num(nullifier_value(block_num)) == block_num,
        nullifier_value(block_num) == Digest::empty() <==> block_num == 0,
{
    Digest::lemma_from_elements(block_num as u64, 0, 0, 0);
    Digest::lemma_from_elements(0, 0, 0, 0);
}

/// Returns the nullifier's leaf value in the tree by its block number.
pub fn block_num_to_nullifier_value(block: u32) -> (value: Digest)
    ensures
        value == nullifier_value(block),
{
    let r = Digest::new(block as u64, 0, 0, 0);
    r.unwrap()
}

/// Given the leaf value of the nullifier tree, returns the nullifier's block number.
///
/// There are no nullifiers in the genesis block. The value zero is instead used
/// to signal absence of a value.
pub fn nullifier_value_to_block_num(value: Digest) -> (block: u32)
    requires
        nullifier_block_num(value) <= u32::MAX,
    ensures
        block == nullifier_block_num(value),
{
    let e = value.elements();
    e[0] as u32
}

// ---------------------------------------------------------------------------
// The nullifier tree
// ---------------------------------------------------------------------------

/// Sparse Merkle tree from nullifier to the encoded number of the block that
/// consumed it. Every value it holds is the encoding of a non-zero block number.
pub struct NullifierTree {
    tree: Smt,
}

impl View for NullifierTree {
    type V = Map<Digest, Digest>;

    closed spec fn view(&self) -> Map<Digest, Digest> {
        smt_entries(self.tree)
    }
}

/// Whether every value of `entries` encodes a block number other than 0.
pub open spec fn holds_block_numbers(entries: Map<Digest, Digest>) -> bool {
    forall|k: Digest| #[trigger]
        entries.contains_key(k) ==> exists|b: u32| b != 0 && entries[k] == #[trigger] nullifier_value(b)
}

/// The pairs that record each of `nullifiers` as consumed in `block_num`.
pub open spec fn consumed_in(nullifiers: Seq<Digest>, block_num: u32) -> Seq<(Digest, Digest)> {
    nullifiers.map_values(|n: Digest| (n, nullifier_value(block_num)))
}

/// The pairs that a list of recorded nullifiers stands for.
pub open spec fn recorded(nullifiers: Seq<(Digest, u32)>) -> Seq<(Digest, Digest)> {
    nullifiers.map_values(|p: (Digest, u32)| (p.0, nullifier_value(p.1)))
}

/// Writing the encoding of a block number keeps every value an encoded,
/// non-zero block number.
pub proof fn lemma_write_keeps_block_numbers(entries: Map<Digest, Digest>, key: Digest, block_num: u32)
    requires
        holds_block_numbers(entries),
    ensures
        holds_block_numbers(tree_write(entries, key, nullifier_value(block_num))),
{
    lemma_nullifier_value(block_num);
    let after = tree_write(entries, key, nullifier_value(block_num));
    assert forall|k: Digest| #[trigger] after.contains_key(k) implies exists|b: u32|
        b != 0 && after[k] == #[trigger] nullifier_value(b) by {
        if k == key {
            assert(block_num != 0 && after[k] == nullifier_value(block_num));
        } else {
            assert(entries.contains_key(k));
        }
    }
}

/// Writing a recorded list, pair after pair, into entries that hold block
/// numbers gives entries that hold block numbers.
pub proof fn lemma_write_all_keeps_block_numbers(
    entries: Map<Digest, Digest>,
    nullifiers: Seq<(Digest, u32)>,
)
    requires
        holds_block_numbers(entries),
    ensures
        holds_block_numbers(tree_write_all(entries, recorded(nullifiers))),
    decreases nullifiers.len(),
{
    if nullifiers.len() > 0 {
        let front = nullifiers.drop_last();
        lemma_write_all_keeps_block_numbers(entries, front);
        assert(recorded(nullifiers).drop_last() =~= recorded(front));
        lemma_write_keeps_block_numbers(
            tree_write_all(entries, recorded(front)),
            nullifiers.last().0,
            nullifiers.last().1,
        );
    }
}

impl Clone for NullifierTree {
    /// A second tree with the same entries; the two are independent afterwards.
    fn clone(&self) -> (copy: Self)
        ensures
            copy@ == self@,
    {
        proof {
            use_type_invariant(self);
        }
        NullifierTree { tree: smt_clone(&self.tree) }
    }
}

impl NullifierTree {
    #[verifier::type_invariant]
    closed spec fn inv(self) -> bool {
        holds_block_numbers(smt_entries(self.tree))
    }

    /// A tree in which no nullifier is recorded.
    pub fn new() -> (tree: NullifierTree)
        ensures
            tree@ == empty_tree::<Digest>(),
    {
        let none: Vec<(Digest, Digest)> = Vec::new();
        match smt_with_entries(&none) {
            Ok(tree) => NullifierTree { tree },
            Err(_) => unreached(),
        }
    }

    /// Builds the tree from the recorded nullifiers and the blocks that consumed
    /// them. Fails exactly when a nullifier is listed twice.
    pub fn with_entries(nullifiers: &Vec<(Digest, u32)>) -> (r: Result<NullifierTree, MerkleError>)
        ensures
            r is Ok <==> distinct_keys(nullifiers@),
            r matches Ok(tree) ==> tree@ == tree_write_all(empty_tree::<Digest>(), recorded(nullifiers@)),
    {
        let mut pairs: Vec<(Digest, Digest)> = Vec::new();
        let mut i: usize = 0;
        while i < nullifiers.len()
            invariant
                i <= nullifiers.len(),
                pairs@ == recorded(nullifiers@.take(i as int)),
            decreases nullifiers.len() - i,
        {
            let (nullifier, block_num) = nullifiers[i];
            pairs.push((nullifier, block_num_to_nullifier_value(block_num)));
            i += 1;
            assert(pairs@ =~= recorded(nullifiers@.take(i as int)));
        }
        proof {
            assert(nullifiers@.take(i as int) =~= nullifiers@);
            assert(distinct_keys(pairs@) <==> distinct_keys(nullifiers@)) by {
                if distinct_keys(nullifiers@) {
                    assert forall|a: int, b: int| 0 <= a < b < pairs@.len() implies pairs@[a].0
                        != pairs@[b].0 by {
                        assert(nullifiers@[a].0 != nullifiers@[b].0);
                    }
                }
                if distinct_keys(pairs@) {
                    assert forall|a: int, b: int|
                        0 <= a < b < nullifiers@.len() implies nullifiers@[a].0
                        != nullifiers@[b].0 by {
                        assert(pairs@[a].0 != pairs@[b].0);
                    }
                }
            }
            lemma_write_all_keeps_block_numbers(empty_tree::<Digest>(), nullifiers@);
        }
        match smt_with_entries(&pairs) {
            Ok(tree) => Ok(NullifierTree { tree }),
            Err(e) => Err(e),
        }
    }

    /// Records `nullifier` as consumed in block `block_num`. Block 0 stands for
    /// "not consumed" and removes the record.
    pub fn insert(&mut self, nullifier: &Digest, block_num: u32)
        ensures
            final(self)@ == tree_write(old(self)@, *nullifier, nullifier_value(block_num)),
    {
        proof {
            use_type_invariant(&*self);
            lemma_write_keeps_block_numbers(self@, *nullifier, block_num);
        }
        let value = block_num_to_nullifier_value(block_num);
        let _ = smt_insert(&mut self.tree, nullifier, &value);
    }

    /// The leaf value recorded for `nullifier`; the all-zero word if it was never consumed.
    pub fn get_value(&self, nullifier: &Digest) -> (value: Digest)
        ensures
            value == tree_value(self@, *nullifier),
    {
        smt_get_value(&self.tree, nullifier)
    }

    /// The number of the block that consumed `nullifier`, or 0 if none did.
    pub fn get_block_num(&self, nullifier: &Digest) -> (block: u32)
        ensures
            block == nullifier_block_num(tree_value(self@, *nullifier)),
            block != 0 <==> self@.contains_key(*nullifier),
    {
        let value = smt_get_value(&self.tree, nullifier);
        proof {
            use_type_invariant(self);
            lemma_nullifier_value(0);
            if self@.contains_key(*nullifier) {
                let b = choose|b: u32| b != 0 && self@[*nullifier] == #[trigger] nullifier_value(b);
                lemma_nullifier_value(b);
            }
        }
        nullifier_value_to_block_num(value)
    }

    /// The root hash of the tree.
    pub fn root(&self) -> (root: Digest)
        ensures
            root == smt_root_hash(self@),
    {
        smt_root(&self.tree)
    }

    /// The opening of `nullifier` against the current root: a proof that it is
    /// recorded with its value, or that it is not recorded.
    pub fn open(&self, nullifier: &Digest) -> (proof: SmtProof)
        ensures
            proof == smt_opening(self@, *nullifier),
    {
        smt_open(&self.tree, nullifier)
    }
}

} // verus!
