//! What the trees of this crate have in common: the model of a sparse tree as
//! a map from key to leaf value, and the outside types that travel with them.
use miden_objects::crypto::merkle::MerkleError;
use vstd::prelude::*;

use crate::digest::Digest;

verus! {

/// `MerkleError` of the outside crate: why a tree could not be built. Nothing
/// is known of its contents.
#[verifier::external_type_specification]
#[verifier::external_body]
pub struct ExMerkleError(MerkleError);

/// The root hash of the sparse Merkle tree of depth `depth`, keyed by leaf
/// index, that holds exactly `leaves`.
pub uninterp spec fn simple_smt_root(depth: u8, leaves: Map<u64, Digest>) -> Digest;

/// The opening of leaf `index` in the tree of depth `depth` that holds exactly
/// `leaves`: the sibling hashes on the way from the leaf up to the root.
pub uninterp spec fn simple_smt_path(depth: u8, leaves: Map<u64, Digest>, index: u64) -> Seq<Digest>;

/// The entries of a tree that holds nothing.
pub open spec fn empty_tree<K>() -> Map<K, Digest> {
    Map::empty()
}

/// The value that a tree with the given entries reports for `key`: the value
/// held there, or the all-zero word.
pub open spec fn tree_value<K>(entries: Map<K, Digest>, key: K) -> Digest {
    if entries.contains_key(key) {
        entries[key]
    } else {
        Digest::empty()
    }
}

/// The entries after `value` has been written at `key`. Writing the all-zero
/// word removes the key.
pub open spec fn tree_write<K>(entries: Map<K, Digest>, key: K, value: Digest) -> Map<K, Digest> {
    if value == Digest::empty() {
        entries.remove(key)
    } else {
        entries.insert(key, value)
    }
}

/// The entries after the pairs have been written one after the other, first to last.
pub open spec fn tree_write_all<K>(entries: Map<K, Digest>, pairs: Seq<(K, Digest)>) -> Map<
    K,
    Digest,
>
    decreases pairs.len(),
{
    if pairs.len() == 0 {
        entries
    } else {
        tree_write(tree_write_all(entries, pairs.drop_last()), pairs.last().0, pairs.last().1)
    }
}

/// Whether no key occurs twice among the pairs.
pub open spec fn distinct_keys<K, V>(pairs: Seq<(K, V)>) -> bool {
    forall|i: int, j: int| 0 <= i < j < pairs.len() ==> pairs[i].0 != pairs[j].0
}

/// Whether `key` is the key of one of the pairs.
pub open spec fn has_key<K, V>(pairs: Seq<(K, V)>, key: K) -> bool {
    exists|i: int| 0 <= i < pairs.len() && #[trigger] pairs[i].0 == key
}

/// Writing two lists one after the other is writing their concatenation.
pub proof fn lemma_write_all_concat<K>(
    entries: Map<K, Digest>,
    first: Seq<(K, Digest)>,
    second: Seq<(K, Digest)>,
)
    ensures
        tree_write_all(entries, first + second) == tree_write_all(
            tree_write_all(entries, first),
            second,
        ),
    decreases second.len(),
{
    if second.len() == 0 {
        assert(first + second =~= first);
    } else {
        lemma_write_all_concat(entries, first, second.drop_last());
        assert((first + second).drop_last() =~= first + second.drop_last());
    }
}

/// A key that none of the written pairs names keeps what it had.
pub proof fn lemma_write_all_other_keys<K>(entries: Map<K, Digest>, pairs: Seq<(K, Digest)>, key: K)
    requires
        !has_key(pairs, key),
    ensures
        tree_write_all(entries, pairs).contains_key(key) == entries.contains_key(key),
        tree_value(tree_write_all(entries, pairs), key) == tree_value(entries, key),
    decreases pairs.len(),
{
    if pairs.len() > 0 {
        let front = pairs.drop_last();
        assert(!has_key(front, key)) by {
            if has_key(front, key) {
                let i = choose|i: int| 0 <= i < front.len() && #[trigger] front[i].0 == key;
                assert(pairs[i].0 == key);
            }
        }
        lemma_write_all_other_keys(entries, front, key);
        assert(pairs[pairs.len() - 1].0 == pairs.last().0);
    }
}

/// After a list has been written in which every pair with the key `key` has
/// the value `value`, a key of the list holds `value`, and is held exactly
/// when `value` is not the all-zero word.
pub proof fn lemma_write_all_same_value<K>(
    entries: Map<K, Digest>,
    pairs: Seq<(K, Digest)>,
    key: K,
    value: Digest,
)
    requires
        has_key(pairs, key),
        forall|i: int| 0 <= i < pairs.len() && #[trigger] pairs[i].0 == key ==> pairs[i].1 == value,
    ensures
        tree_value(tree_write_all(entries, pairs), key) == value,
        tree_write_all(entries, pairs).contains_key(key) <==> value != Digest::empty(),
    decreases pairs.len(),
{
    let front = pairs.drop_last();
    if pairs.last().0 == key {
        assert(pairs[pairs.len() - 1].0 == key);
    } else {
        let i = choose|i: int| 0 <= i < pairs.len() && #[trigger] pairs[i].0 == key;
        assert(front[i].0 == key);
        assert forall|j: int| 0 <= j < front.len() && #[trigger] front[j].0 == key implies front[j].1
            == value by {
            assert(pairs[j].0 == key);
        }
        lemma_write_all_same_value(entries, front, key, value);
    }
}

/// Whether `list` lists the table: each key once, with its value, and every
/// key of the table.
pub open spec fn lists_entries<K>(list: Seq<(K, Digest)>, table: Map<K, Digest>) -> bool {
    &&& distinct_keys(list)
    &&& forall|i: int|
        0 <= i < list.len() ==> table.contains_key((#[trigger] list[i]).0) && table[list[i].0]
            == list[i].1
    &&& forall|k: K| table.contains_key(k) ==> has_key(list, k)
}

/// The entries of a tree after a table has been written over it: a key of
/// the table has the value of the table, and is gone where that is the
/// all-zero word; any other key keeps what it had.
pub open spec fn overlay<K>(base: Map<K, Digest>, table: Map<K, Digest>) -> Map<K, Digest> {
    Map::new(
        |k: K|
            if table.contains_key(k) {
                table[k] != Digest::empty()
            } else {
                base.contains_key(k)
            },
        |k: K|
            if table.contains_key(k) {
                table[k]
            } else {
                base[k]
            },
    )
}

/// Writing a list of a table into a tree lays the table over the tree.
pub proof fn lemma_write_listed<K>(base: Map<K, Digest>, list: Seq<(K, Digest)>, table: Map<K, Digest>)
    requires
        lists_entries(list, table),
    ensures
        tree_write_all(base, list) == overlay(base, table),
{
    let built = tree_write_all(base, list);
    let laid = overlay(base, table);
    assert forall|k: K|
        #![trigger built.contains_key(k)]
        #![trigger laid.contains_key(k)]
        built.contains_key(k) == laid.contains_key(k) && (built.contains_key(k) ==> built[k]
            == laid[k]) by {
        if has_key(list, k) {
            let i = choose|i: int| 0 <= i < list.len() && #[trigger] list[i].0 == k;
            assert forall|j: int| 0 <= j < list.len() && #[trigger] list[j].0 == k implies list[j].1
                == list[i].1 by {
                if j < i {
                    assert(list[j].0 != list[i].0);
                } else if i < j {
                    assert(list[i].0 != list[j].0);
                }
            }
            lemma_write_all_same_value(base, list, k, list[i].1);
        } else {
            lemma_write_all_other_keys(base, list, k);
        }
    }
    assert(built.dom() =~= laid.dom());
    assert(built =~= laid);
}

} // verus!
