//! The trees over created notes: one per block, of depth 21, and one per
//! batch, of depth 13. A note takes two leaves next to each other, the first
//! for its identifier and the second for its metadata.
use miden_objects::crypto::merkle::{LeafIndex, MerkleError, SimpleSmt};
use miden_objects::Felt;
use vstd::pervasive::unreached;
use vstd::prelude::*;

use crate::account::{check_account_id, valid_account_id};
use crate::digest::Digest;
use crate::errors::ApplyBlockError;
use crate::merkle::{
    distinct_keys, empty_tree, simple_smt_path, simple_smt_root, tree_write_all,
};
use crate::notes::{
    absolute_index, metadata_word, note_metadata_word, tag_fits_type, NoteCreated,
};

verus! {

/// Depth of the tree over the notes of a block.
pub const NOTE_LEAF_DEPTH: u8 = 21;

/// Number of leaves of the tree over the notes of a block: `2^21`.
pub const NOTE_TREE_LEAVES: u64 = 0x20_0000;

/// Depth of the tree over the notes of a batch.
pub const BATCH_OUTPUT_NOTES_TREE_DEPTH: u8 = 13;

/// Number of leaves of the tree over the notes of a batch: `2^13`.
pub const BATCH_TREE_LEAVES: usize = 8192;

// ---------------------------------------------------------------------------
// The outside trees and what is taken on trust about them
// ---------------------------------------------------------------------------
// Digests go to the outside crate and come back element by element. Every
// element of a `Digest` is below the field modulus, so nothing is lost on the
// way.

/// The leaves that a tree of depth 21 holds, by index.
pub uninterp spec fn note_smt_leaves(tree: SimpleSmt<21>) -> Map<u64, Digest>;

/// The leaves that a tree of depth 13 holds, by index.
pub uninterp spec fn batch_smt_leaves(tree: SimpleSmt<13>) -> Map<u64, Digest>;

/// Whether a tree of depth 21 can be built from the pairs: no index is listed
/// twice, every index is below `2^21`, and there are at most `2^21` pairs.
pub open spec fn note_leaves_accepted(pairs: Seq<(u64, Digest)>) -> bool {
    &&& distinct_keys(pairs)
    &&& forall|i: int| 0 <= i < pairs.len() ==> (#[trigger] pairs[i]).0 < NOTE_TREE_LEAVES
    &&& pairs.len() <= NOTE_TREE_LEAVES
}

/// The words of a list, each with its position as index.
pub open spec fn indexed(words: Seq<Digest>) -> Seq<(u64, Digest)> {
    Seq::new(words.len(), |i: int| (i as u64, words[i]))
}

/// Whether a tree of depth 13 can hold the words side by side.
pub open spec fn batch_leaves_accepted(words: Seq<Digest>) -> bool {
    words.len() <= BATCH_TREE_LEAVES
}

/// Whether `index` names a leaf of the tree over the notes of a block.
pub open spec fn note_leaf_in_range(index: u64) -> bool {
    index < NOTE_TREE_LEAVES
}

/// `SimpleSmt::<21>::with_leaves`: fails exactly when the pairs are not
/// accepted; otherwise the tree holds the listed pairs whose value is not the
/// all-zero word.
#[verifier::external_body]
fn note_smt_with_leaves(pairs: &Vec<(u64, Digest)>) -> (r: Result<SimpleSmt<21>, MerkleError>)
    ensures
        r is Ok <==> note_leaves_accepted(pairs@),
        r matches Ok(tree) ==> note_smt_leaves(tree) == tree_write_all(empty_tree::<u64>(), pairs@),
{
    SimpleSmt::with_leaves(
        pairs.iter().map(|(k, v)| (*k, [v.e0, v.e1, v.e2, v.e3].map(Felt::new))),
    )
}

/// `SimpleSmt::root` at depth 21.
#[verifier::external_body]
fn note_smt_root(tree: &SimpleSmt<21>) -> (root: Digest)
    ensures
        root == simple_smt_root(NOTE_LEAF_DEPTH, note_smt_leaves(*tree)),
{
    let r = tree.root();
    Digest { e0: r[0].as_int(), e1: r[1].as_int(), e2: r[2].as_int(), e3: r[3].as_int() }
}

/// `LeafIndex::new` and `SimpleSmt::open` at depth 21: the path from leaf
/// `index` to the root. The index has to name a leaf of the tree.
#[verifier::external_body]
fn note_smt_open(tree: &SimpleSmt<21>, index: u64) -> (path: Vec<Digest>)
    requires
        note_leaf_in_range(index),
    ensures
        path@ == simple_smt_path(NOTE_LEAF_DEPTH, note_smt_leaves(*tree), index),
{
    tree.open(&LeafIndex::new(index).unwrap()).path.iter().map(
        |d| Digest { e0: d[0].as_int(), e1: d[1].as_int(), e2: d[2].as_int(), e3: d[3].as_int() },
    ).collect()
}

/// `SimpleSmt::<13>::with_contiguous_leaves`: the tree with the words at the
/// indices 0, 1, 2 and so on. Fails exactly when there are more words than leaves.
#[verifier::external_body]
fn batch_smt_with_contiguous_leaves(words: &Vec<Digest>) -> (r: Result<SimpleSmt<13>, MerkleError>)
    ensures
        r is Ok <==> batch_leaves_accepted(words@),
        r matches Ok(tree) ==> batch_smt_leaves(tree) == tree_write_all(empty_tree::<u64>(), indexed(words@)),
{
    SimpleSmt::with_contiguous_leaves(words.iter().map(|v| [v.e0, v.e1, v.e2, v.e3].map(Felt::new)))
}

/// `SimpleSmt::root` at depth 13.
#[verifier::external_body]
fn batch_smt_root(tree: &SimpleSmt<13>) -> (root: Digest)
    ensures
        root == simple_smt_root(BATCH_OUTPUT_NOTES_TREE_DEPTH, batch_smt_leaves(*tree)),
{
    let r = tree.root();
    Digest { e0: r[0].as_int(), e1: r[1].as_int(), e2: r[2].as_int(), e3: r[3].as_int() }
}

// ---------------------------------------------------------------------------
// The tree over the notes of a batch
// ---------------------------------------------------------------------------

/// The tree over the notes that a batch creates.
#[derive(Debug)]
pub struct BatchNoteTree {
    tree: SimpleSmt<13>,
}

impl View for BatchNoteTree {
    type V = Map<u64, Digest>;

    closed spec fn view(&self) -> Map<u64, Digest> {
        batch_smt_leaves(self.tree)
    }
}

impl BatchNoteTree {
    /// The tree with the given words as its first leaves. Fails exactly when
    /// there are more than [`BATCH_TREE_LEAVES`] of them.
    pub fn with_contiguous_leaves(words: &Vec<Digest>) -> (r: Result<BatchNoteTree, MerkleError>)
        ensures
            r is Ok <==> words@.len() <= BATCH_TREE_LEAVES,
            r matches Ok(tree) ==> tree@ == tree_write_all(empty_tree::<u64>(), indexed(words@)),
    {
        match batch_smt_with_contiguous_leaves(words) {
            Ok(tree) => Ok(BatchNoteTree { tree }),
            Err(e) => Err(e),
        }
    }

    /// The root hash of the tree.
    pub fn root(&self) -> (root: Digest)
        ensures
            root == simple_smt_root(BATCH_OUTPUT_NOTES_TREE_DEPTH, self@),
    {
        batch_smt_root(&self.tree)
    }
}

// ---------------------------------------------------------------------------
// The tree over the notes of a block
// ---------------------------------------------------------------------------

/// The leaf that holds the identifier of a note; its metadata is in the next one.
pub open spec fn note_leaf_index(note: NoteCreated) -> int {
    2 * absolute_index(note.batch_index, note.note_index)
}

/// Whether the note can stand in a tree: its sender is an account and its tag
/// goes with its type.
pub open spec fn note_well_formed(note: NoteCreated) -> bool {
    valid_account_id(note.sender) && tag_fits_type(note.tag, note.note_type)
}

/// The leaves that a list of notes stands for: for each note, in order, its
/// identifier and its metadata word.
pub open spec fn note_entries(notes: Seq<NoteCreated>) -> Seq<(u64, Digest)>
    decreases notes.len(),
{
    if notes.len() == 0 {
        Seq::empty()
    } else {
        let note = notes.last();
        note_entries(notes.drop_last()).push((note_leaf_index(note) as u64, note.note_id)).push(
            (
                (note_leaf_index(note) + 1) as u64,
                metadata_word(note.sender, note.note_type, note.tag),
            ),
        )
    }
}

/// Whether `i` is the first note of the list that is not well formed.
pub open spec fn first_refused(notes: Seq<NoteCreated>, i: int) -> bool {
    &&& 0 <= i < notes.len()
    &&& !note_well_formed(notes[i])
    &&& forall|j: int| 0 <= j < i ==> note_well_formed(#[trigger] notes[j])
}

/// Whether every note of the list is well formed.
pub open spec fn all_well_formed(notes: Seq<NoteCreated>) -> bool {
    forall|j: int| 0 <= j < notes.len() ==> note_well_formed(#[trigger] notes[j])
}

/// Each note has two entries, and the first of them is at the note's leaf.
pub proof fn lemma_note_entries(notes: Seq<NoteCreated>, i: int)
    requires
        0 <= i < notes.len(),
    ensures
        note_entries(notes).len() == 2 * notes.len(),
        note_entries(notes)[2 * i] == (note_leaf_index(notes[i]) as u64, notes[i].note_id),
        note_entries(notes)[2 * i + 1] == (
            (note_leaf_index(notes[i]) + 1) as u64,
            metadata_word(notes[i].sender, notes[i].note_type, notes[i].tag),
        ),
    decreases notes.len(),
{
    lemma_note_entries_len(notes);
    if i < notes.len() - 1 {
        lemma_note_entries(notes.drop_last(), i);
    } else {
        lemma_note_entries_len(notes.drop_last());
    }
}

/// A list of notes stands for twice as many leaves.
pub proof fn lemma_note_entries_len(notes: Seq<NoteCreated>)
    ensures
        note_entries(notes).len() == 2 * notes.len(),
    decreases notes.len(),
{
    if notes.len() > 0 {
        lemma_note_entries_len(notes.drop_last());
    }
}

/// The tree over the notes created in one block.
pub struct NoteTree {
    tree: SimpleSmt<21>,
}

impl View for NoteTree {
    type V = Map<u64, Digest>;

    closed spec fn view(&self) -> Map<u64, Digest> {
        note_smt_leaves(self.tree)
    }
}

impl NoteTree {
    /// A tree without notes.
    pub fn new() -> (tree: NoteTree)
        ensures
            tree@ == empty_tree::<u64>(),
    {
        let none: Vec<(u64, Digest)> = Vec::new();
        match note_smt_with_leaves(&none) {
            Ok(tree) => NoteTree { tree },
            Err(_) => unreached(),
        }
    }

    /// The tree with the given leaves. Fails exactly when an index is listed
    /// twice, is not below `2^21`, or more than `2^21` pairs are given.
    pub fn with_leaves(pairs: &Vec<(u64, Digest)>) -> (r: Result<NoteTree, MerkleError>)
        ensures
            r is Ok <==> note_leaves_accepted(pairs@),
            r matches Ok(tree) ==> tree@ == tree_write_all(empty_tree::<u64>(), pairs@),
    {
        match note_smt_with_leaves(pairs) {
            Ok(tree) => Ok(NoteTree { tree }),
            Err(e) => Err(e),
        }
    }

    /// The root hash of the tree.
    pub fn root(&self) -> (root: Digest)
        ensures
            root == simple_smt_root(NOTE_LEAF_DEPTH, self@),
    {
        note_smt_root(&self.tree)
    }

    /// The path from leaf `index` to the root.
    pub fn open(&self, index: u64) -> (path: Vec<Digest>)
        requires
            index < NOTE_TREE_LEAVES,
        ensures
            path@ == simple_smt_path(NOTE_LEAF_DEPTH, self@, index),
    {
        note_smt_open(&self.tree, index)
    }
}

/// Creates the note tree of a block from the notes created in it.
///
/// Succeeds exactly when every note is well formed and the leaves of the
/// notes fit one tree. Otherwise the error is that of the first note that is
/// not well formed (its sender, or else its tag), or, where all are, that of
/// the tree.
pub fn build_notes_tree(notes: &Vec<NoteCreated>) -> (r: Result<NoteTree, ApplyBlockError>)
    ensures
        r is Ok <==> all_well_formed(notes@) && note_leaves_accepted(note_entries(notes@)),
        r matches Ok(tree) ==> tree@ == tree_write_all(empty_tree::<u64>(), note_entries(notes@)),
        r matches Err(e) ==> match e {
            ApplyBlockError::AccountError(_) => exists|i: int|
                first_refused(notes@, i) && !valid_account_id(notes@[i].sender),
            ApplyBlockError::NoteError(_) => exists|i: int|
                first_refused(notes@, i) && valid_account_id(notes@[i].sender),
            ApplyBlockError::FailedToCreateNotesTree(_) => all_well_formed(notes@),
            _ => false,
        },
{
    let mut entries: Vec<(u64, Digest)> = Vec::new();
    let mut i: usize = 0;
    while i < notes.len()
        invariant
            i <= notes.len(),
            entries@ == note_entries(notes@.take(i as int)),
            forall|j: int| 0 <= j < i ==> note_well_formed(#[trigger] notes@[j]),
        decreases notes.len() - i,
    {
        let note = &notes[i];
        match check_account_id(note.sender) {
            Ok(()) => {},
            Err(e) => {
                assert(first_refused(notes@, i as int) && !valid_account_id(notes@[i as int].sender));
                return Err(ApplyBlockError::AccountError(e));
            },
        }
        let metadata = match note_metadata_word(note.sender, note.note_type, note.tag) {
            Ok(word) => word,
            Err(e) => {
                assert(first_refused(notes@, i as int) && valid_account_id(notes@[i as int].sender));
                return Err(ApplyBlockError::NoteError(e));
            },
        };
        let index = note.absolute_note_index() * 2;
        entries.push((index, note.note_id));
        entries.push((index + 1, metadata));
        i += 1;
        proof {
            assert(notes@.take(i as int).drop_last() =~= notes@.take(i - 1));
            assert(notes@.take(i as int).last() == notes@[i - 1]);
        }
    }
    proof {
        assert(notes@.take(i as int) =~= notes@);
    }
    match NoteTree::with_leaves(&entries) {
        Ok(tree) => Ok(tree),
        Err(e) => Err(ApplyBlockError::FailedToCreateNotesTree(e)),
    }
}

} // verus!
