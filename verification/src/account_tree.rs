//! The account tree: a sparse Merkle tree of depth 64 from account identifier
//! to the hash of the account's state.
use miden_objects::crypto::merkle::{LeafIndex, MerkleError, SimpleSmt};
use miden_objects::Felt;
use vstd::pervasive::unreached;
use vstd::prelude::*;

use crate::digest::Digest;
use crate::merkle::{
    distinct_keys, empty_tree, simple_smt_path, simple_smt_root, tree_value, tree_write,
    tree_write_all,
};

verus! {

/// Depth of the account tree.
pub const ACCOUNT_TREE_DEPTH: u8 = 64;

/// The most entries that a tree of depth 64 can be built from in one call: `2^63`.
pub const ACCOUNT_TREE_MAX_ENTRIES: u64 = 0x8000_0000_0000_0000;

// ---------------------------------------------------------------------------
// The outside tree and what is taken on trust about it
// ---------------------------------------------------------------------------
// Digests go to the outside crate and come back element by element. Every
// element of a `Digest` is below the field modulus, so nothing is lost on the
// way.

/// `SimpleSmt` of the outside crate: the sparse Merkle tree of a fixed depth
/// with leaf indices as keys.
#[verifier::external_type_specification]
#[verifier::external_body]
pub struct ExSimpleSmt<const DEPTH: u8>(SimpleSmt<DEPTH>);

/// The leaves that a tree of depth 64 holds, by index. A leaf whose value is
/// the all-zero word is not held.
pub uninterp spec fn account_smt_leaves(tree: SimpleSmt<64>) -> Map<u64, Digest>;

/// Whether a tree of depth 64 can be built from the pairs: no index is listed
/// twice, and there are at most `2^63` of them.
pub open spec fn account_leaves_accepted(pairs: Seq<(u64, Digest)>) -> bool {
    distinct_keys(pairs) && pairs.len() <= ACCOUNT_TREE_MAX_ENTRIES
}

/// `SimpleSmt::<64>::with_leaves`: fails exactly when an index is listed twice
/// or more than `2^63` pairs are given; otherwise the tree holds the listed
/// pairs whose value is not the all-zero word.
#[verifier::external_body]
fn account_smt_with_leaves(pairs: &Vec<(u64, Digest)>) -> (r: Result<SimpleSmt<64>, MerkleError>)
    ensures
        r is Ok <==> account_leaves_accepted(pairs@),
        r matches Ok(tree) ==> account_smt_leaves(tree) == tree_write_all(empty_tree::<u64>(), pairs@),
{
    SimpleSmt::with_leaves(
        pairs.iter().map(
            |(k, v)| (*k, [Felt::new(v.e0), Felt::new(v.e1), Felt::new(v.e2), Felt::new(v.e3)]),
        ),
    )
}

/// `SimpleSmt::clone`: a tree with the same leaves.
#[verifier::external_body]
fn account_smt_clone(tree: &SimpleSmt<64>) -> (copy: SimpleSmt<64>)
    ensures
        account_smt_leaves(copy) == account_smt_leaves(*tree),
{
    tree.clone()
}

/// `SimpleSmt::insert`: writes `value` at leaf `index` and returns the value
/// held there before. It has no failure path, so it never unwinds.
#[verifier::external_body]
fn account_smt_insert(tree: &mut SimpleSmt<64>, index: u64, value: &Digest) -> (previous: Digest)
    ensures
        account_smt_leaves(*final(tree)) == tree_write(account_smt_leaves(*old(tree)), index, *value),
        previous == tree_value(account_smt_leaves(*old(tree)), index),
    no_unwind
{
    let value = [Felt::new(value.e0), Felt::new(value.e1), Felt::new(value.e2), Felt::new(value.e3)];
    let w = tree.insert(LeafIndex::new_max_depth(index), value);
    Digest { e0: w[0].as_int(), e1: w[1].as_int(), e2: w[2].as_int(), e3: w[3].as_int() }
}

/// `SimpleSmt::root`: the root hash, which depth and leaves determine.
#[verifier::external_body]
fn account_smt_root(tree: &SimpleSmt<64>) -> (root: Digest)
    ensures
        root == simple_smt_root(ACCOUNT_TREE_DEPTH, account_smt_leaves(*tree)),
{
    let r = tree.root();
    Digest { e0: r[0].as_int(), e1: r[1].as_int(), e2: r[2].as_int(), e3: r[3].as_int() }
}

/// `SimpleSmt::open`: the value of leaf `index` and its path to the root.
#[verifier::external_body]
fn account_smt_open(tree: &SimpleSmt<64>, index: u64) -> (r: (Digest, Vec<Digest>))
    ensures
        r.0 == tree_value(account_smt_leaves(*tree), index),
        r.1@ == simple_smt_path(ACCOUNT_TREE_DEPTH, account_smt_leaves(*tree), index),
{
    let opening = tree.open(&LeafIndex::new_max_depth(index));
    let v = opening.value;
    let path = opening.path.iter().map(
        |d| Digest { e0: d[0].as_int(), e1: d[1].as_int(), e2: d[2].as_int(), e3: d[3].as_int() },
    ).collect();
    (Digest { e0: v[0].as_int(), e1: v[1].as_int(), e2: v[2].as_int(), e3: v[3].as_int() }, path)
}

// ---------------------------------------------------------------------------
// The account tree
// ---------------------------------------------------------------------------

/// The state hash of an account together with the proof that the account tree
/// holds it.
#[derive(Clone, Debug, PartialEq, Eq)]
pub struct AccountWitness {
    /// The hash recorded for the account; the all-zero word if the account is unknown.
    pub hash: Digest,
    /// The sibling hashes from the account's leaf up to the root.
    pub proof: Vec<Digest>,
}

/// Sparse Merkle tree from account identifier to account-state hash.
pub struct AccountTree {
    tree: SimpleSmt<64>,
}

impl View for AccountTree {
    type V = Map<u64, Digest>;

    closed spec fn view(&self) -> Map<u64, Digest> {
        account_smt_leaves(self.tree)
    }
}

impl Clone for AccountTree {
    /// A second tree with the same leaves; the two are independent afterwards.
    fn clone(&self) -> (copy: Self)
        ensures
            copy@ == self@,
    {
        AccountTree { tree: account_smt_clone(&self.tree) }
    }
}

impl AccountTree {
    /// A tree in which no account is recorded.
    pub fn new() -> (tree: AccountTree)
        ensures
            tree@ == empty_tree::<u64>(),
    {
        let none: Vec<(u64, Digest)> = Vec::new();
        match account_smt_with_leaves(&none) {
            Ok(tree) => AccountTree { tree },
            Err(_) => unreached(),
        }
    }

    /// Builds the tree from account identifiers and their state hashes. Fails
    /// exactly when an identifier is listed twice or the list is longer than
    /// [`ACCOUNT_TREE_MAX_ENTRIES`].
    pub fn with_leaves(accounts: &Vec<(u64, Digest)>) -> (r: Result<AccountTree, MerkleError>)
        ensures
            r is Ok <==> account_leaves_accepted(accounts@),
            r matches Ok(tree) ==> tree@ == tree_write_all(empty_tree::<u64>(), accounts@),
    {
        match account_smt_with_leaves(accounts) {
            Ok(tree) => Ok(AccountTree { tree }),
            Err(e) => Err(e),
        }
    }

    /// Records `hash` as the state of account `id` and returns the hash
    /// recorded before. The all-zero word removes the account.
    pub fn insert(&mut self, id: u64, hash: &Digest) -> (previous: Digest)
        ensures
            final(self)@ == tree_write(old(self)@, id, *hash),
            previous == tree_value(old(self)@, id),
    {
        account_smt_insert(&mut self.tree, id, hash)
    }

    /// The state hash recorded for account `id`; the all-zero word if the account is unknown.
    pub fn get_leaf(&self, id: u64) -> (hash: Digest)
        ensures
            hash == tree_value(self@, id),
    {
        let (hash, _) = account_smt_open(&self.tree, id);
        hash
    }

    /// The root hash of the tree.
    pub fn root(&self) -> (root: Digest)
        ensures
            root == simple_smt_root(ACCOUNT_TREE_DEPTH, self@),
    {
        account_smt_root(&self.tree)
    }

    /// The state hash of account `id` and its opening against the current root.
    pub fn open(&self, id: u64) -> (witness: AccountWitness)
        ensures
            witness.hash == tree_value(self@, id),
            witness.proof@ == simple_smt_path(ACCOUNT_TREE_DEPTH, self@, id),
    {
        let (hash, proof) = account_smt_open(&self.tree, id);
        AccountWitness { hash, proof }
    }
}

} // verus!
