//! Transaction batches: proven transactions put together into the unit that a
//! block is built from.
use miden_objects::crypto::hash::blake::Blake3_256;
use miden_objects::crypto::merkle::MerkleError;
use std::collections::BTreeMap;
use vstd::prelude::*;
use vstd::std_specs::btree::*;
use vstd::std_specs::cmp::OrdSpec;
use vstd::std_specs::iter::IteratorSpec;

use crate::account::AccountDetails;
use crate::digest::Digest;
use crate::merkle::{empty_tree, simple_smt_root, tree_write_all};
use crate::note_tree::{indexed, BatchNoteTree, BATCH_OUTPUT_NOTES_TREE_DEPTH};
use crate::notes::MAX_NOTES_PER_BATCH;

verus! {

broadcast use vstd::std_specs::btree::group_btree_axioms;

/// The identifier of a batch: 32 bytes.
pub type BatchId = [u8; 32];

/// The Blake3 hash of a sequence of bytes, 32 bytes long.
pub uninterp spec fn blake3_256(bytes: Seq<u8>) -> Seq<u8>;

/// `Blake3_256::hash`: the 32-byte Blake3 hash of the bytes.
#[verifier::external_body]
fn blake3_hash(bytes: &Vec<u8>) -> (hash: [u8; 32])
    ensures
        hash@ == blake3_256(bytes@),
{
    Blake3_256::hash(bytes).into()
}

/// What a note shows of itself to everyone: its identifier and its metadata word.
#[derive(Clone, Copy, Debug, PartialEq, Eq, Structural)]
pub struct NoteEnvelope {
    pub note_id: Digest,
    pub metadata: Digest,
}

/// What a batch reads of a proven transaction.
#[derive(Clone, Debug, PartialEq, Eq)]
pub struct ProvenTransaction {
    /// The identifier of the transaction.
    pub id: Digest,
    /// The account that the transaction was executed against.
    pub account_id: u64,
    /// The hash of the account before the transaction.
    pub initial_account_hash: Digest,
    /// The hash of the account after the transaction.
    pub final_account_hash: Digest,
    /// The changes to an on-chain account.
    pub account_details: Option<AccountDetails>,
    /// The nullifiers of the notes that the transaction consumed.
    pub input_notes: Vec<Digest>,
    /// The notes that the transaction created.
    pub output_notes: Vec<NoteEnvelope>,
}

/// Stores the initial state (before the transaction) and final state (after the transaction) of
/// an
/// account.
#[derive(Clone, Copy, Debug, PartialEq, Eq, Structural)]
pub struct AccountStates {
    pub initial_state: Digest,
    pub final_state: Digest,
    pub details: Option<AccountDetails>,
}

/// Why a batch could not be built. Both errors hand the transactions back.
#[derive(Debug)]
pub enum BuildBatchError {
    /// The transactions create more notes than a batch can hold: this many.
    TooManyNotesCreated(usize, Vec<ProvenTransaction>),
    /// The tree over the created notes could not be built.
    NotesSmtError(MerkleError, Vec<ProvenTransaction>),
}

// ---------------------------------------------------------------------------
// What a list of transactions stands for
// ---------------------------------------------------------------------------

/// The bytes that the identifier of a batch is the hash of: the identifiers of
/// its transactions, in order.
pub open spec fn tx_id_bytes(txs: Seq<ProvenTransaction>) -> Seq<u8>
    decreases txs.len(),
{
    if txs.len() == 0 {
        Seq::empty()
    } else {
        tx_id_bytes(txs.drop_last()) + txs.last().id.bytes()
    }
}

/// The states that a transaction records for its account.
pub open spec fn states_of(tx: ProvenTransaction) -> AccountStates {
    AccountStates {
        initial_state: tx.initial_account_hash,
        final_state: tx.final_account_hash,
        details: tx.account_details,
    }
}

/// The account map of a list of transactions: each account with the states
/// of the last transaction that touches it.
pub open spec fn account_states(txs: Seq<ProvenTransaction>) -> Map<u64, AccountStates>
    decreases txs.len(),
{
    if txs.len() == 0 {
        Map::empty()
    } else {
        account_states(txs.drop_last()).insert(txs.last().account_id, states_of(txs.last()))
    }
}

/// The nullifiers that the transactions consume, in order, nothing removed.
pub open spec fn consumed_nullifiers(txs: Seq<ProvenTransaction>) -> Seq<Digest>
    decreases txs.len(),
{
    if txs.len() == 0 {
        Seq::empty()
    } else {
        consumed_nullifiers(txs.drop_last()) + txs.last().input_notes@
    }
}

/// The notes that the transactions create, in order.
pub open spec fn created_envelopes(txs: Seq<ProvenTransaction>) -> Seq<NoteEnvelope>
    decreases txs.len(),
{
    if txs.len() == 0 {
        Seq::empty()
    } else {
        created_envelopes(txs.drop_last()) + txs.last().output_notes@
    }
}

/// The leaves of the notes: for each note, in order, its identifier and its metadata.
pub open spec fn envelope_words(notes: Seq<NoteEnvelope>) -> Seq<Digest>
    decreases notes.len(),
{
    if notes.len() == 0 {
        Seq::empty()
    } else {
        envelope_words(notes.drop_last()).push(notes.last().note_id).push(notes.last().metadata)
    }
}

/// The root of the tree over the notes of a batch.
pub open spec fn batch_notes_root(notes: Seq<NoteEnvelope>) -> Digest {
    simple_smt_root(
        BATCH_OUTPUT_NOTES_TREE_DEPTH,
        tree_write_all(empty_tree::<u64>(), indexed(envelope_words(notes))),
    )
}

/// Notes take two leaves each.
pub proof fn lemma_envelope_words_len(notes: Seq<NoteEnvelope>)
    ensures
        envelope_words(notes).len() == 2 * notes.len(),
    decreases notes.len(),
{
    if notes.len() > 0 {
        lemma_envelope_words_len(notes.drop_last());
    }
}

/// Whether `list` lists the accounts of `map`: each once, by rising
/// identifier, with what the map has for it, and every account of the map.
pub open spec fn lists_accounts<V>(list: Seq<(u64, V)>, map: Map<u64, V>) -> bool {
    &&& forall|i: int|
        0 <= i < list.len() ==> map.contains_key((#[trigger] list[i]).0) && map[list[i].0]
            == list[i].1
    &&& forall|i: int, j: int| 0 <= i < j < list.len() ==> list[i].0 < list[j].0
    &&& forall|k: u64| map.contains_key(k) ==> exists|i: int| 0 <= i < list.len() && (#[trigger] list[i]).0 == k
}

/// The state hash of each account before the batch.
pub open spec fn initial_states(accounts: Map<u64, AccountStates>) -> Map<u64, Digest> {
    accounts.map_values(|s: AccountStates| s.initial_state)
}

/// The state hash of each account after the batch.
pub open spec fn final_states(accounts: Map<u64, AccountStates>) -> Map<u64, Digest> {
    accounts.map_values(|s: AccountStates| s.final_state)
}

/// The details and the state hash of each account after the batch.
pub open spec fn updates(accounts: Map<u64, AccountStates>) -> Map<u64, (Option<AccountDetails>, Digest)> {
    accounts.map_values(|s: AccountStates| (s.details, s.final_state))
}

/// The triples of a list as pairs of account and the rest.
pub open spec fn keyed(list: Seq<(u64, Option<AccountDetails>, Digest)>) -> Seq<(u64, (Option<AccountDetails>, Digest))> {
    list.map_values(|t: (u64, Option<AccountDetails>, Digest)| (t.0, (t.1, t.2)))
}

// ---------------------------------------------------------------------------
// The batch
// ---------------------------------------------------------------------------

/// A batch of transactions that share a common proof. For any given account, at most 1
/// transaction
/// in the batch must be addressing that account; where several do, the states
/// of the last one stand.
#[derive(Debug)]
pub struct TransactionBatch {
    id: BatchId,
    updated_accounts: BTreeMap<u64, AccountStates>,
    produced_nullifiers: Vec<Digest>,
    created_notes_smt: BatchNoteTree,
    /// The notes stored `created_notes_smt`
    created_notes: Vec<NoteEnvelope>,
}

/// The entries of the account map, by rising account identifier.
fn account_entries(map: &BTreeMap<u64, AccountStates>) -> (list: Vec<(u64, AccountStates)>)
    ensures
        lists_accounts(list@, map@),
{
    let mut list: Vec<(u64, AccountStates)> = Vec::new();
    for kv in it: map.iter()
        invariant
            list@.len() == it.index(),
            it.seq() == spec_btree_map_iter(map).remaining(),
            forall|j: int| 0 <= j < list@.len() ==> list@[j] == (*it.seq()[j].0, *it.seq()[j].1),
    {
        list.push((*kv.0, *kv.1));
    }
    proof {
        let r = spec_btree_map_iter(map).remaining();
        assert forall|i: int| 0 <= i < list@.len() implies map@.contains_key(
            (#[trigger] list@[i]).0,
        ) && map@[list@[i].0] == list@[i].1 by {
            assert(map@.contains_key(*r[i].0));
        }
        let keys = r.map_values(|kv: (&u64, &AccountStates)| *kv.0);
        assert(increasing_seq(keys));
        assert forall|i: int, j: int| 0 <= i < j < list@.len() implies list@[i].0 < list@[j].0 by {
            assert(keys[i] == list@[i].0 && keys[j] == list@[j].0);
            assert(keys[i].cmp_spec(&keys[j]) is Less);
        }
        assert forall|k: u64| map@.contains_key(k) implies exists|i: int|
            0 <= i < list@.len() && (#[trigger] list@[i]).0 == k by {
            assert(r.contains((&k, &map@[k])));
            let i = choose|i: int| 0 <= i < r.len() && r[i] == (&k, &map@[k]);
            assert(list@[i].0 == k);
        }
    }
    list
}

impl TransactionBatch {
    /// The identifier of the batch.
    pub closed spec fn spec_id(&self) -> Seq<u8> {
        self.id@
    }

    /// The accounts that the batch touches, each with its states.
    pub closed spec fn accounts(&self) -> Map<u64, AccountStates> {
        self.updated_accounts@
    }

    /// The nullifiers that the batch consumes.
    pub closed spec fn nullifiers(&self) -> Seq<Digest> {
        self.produced_nullifiers@
    }

    /// The notes that the batch creates.
    pub closed spec fn notes(&self) -> Seq<NoteEnvelope> {
        self.created_notes@
    }

    /// The leaves of the tree over the created notes.
    pub closed spec fn note_leaves(&self) -> Map<u64, Digest> {
        self.created_notes_smt@
    }

    /// Returns a new [TransactionBatch] instantiated from the provided vector of proven
    /// transactions.
    ///
    /// The identifier is the hash of the transactions' identifiers in the
    /// order given; the account map has, for each account, the states of the
    /// last transaction that touches it; nullifiers and notes are those of the
    /// transactions one after the other.
    ///
    /// # Errors
    /// Fails exactly when the transactions create more than
    /// [`MAX_NOTES_PER_BATCH`] notes, and then hands the transactions back
    /// together with the number of notes.
    pub fn new(txs: Vec<ProvenTransaction>) -> (r: Result<TransactionBatch, BuildBatchError>)
        ensures
            r is Ok <==> created_envelopes(txs@).len() <= MAX_NOTES_PER_BATCH,
            r matches Ok(batch) ==> {
                &&& batch.spec_id() == blake3_256(tx_id_bytes(txs@))
                &&& batch.accounts() == account_states(txs@)
                &&& batch.nullifiers() == consumed_nullifiers(txs@)
                &&& batch.notes() == created_envelopes(txs@)
                &&& batch.note_leaves() == tree_write_all(
                    empty_tree::<u64>(),
                    indexed(envelope_words(created_envelopes(txs@))),
                )
            },
            r matches Err(e) ==> e matches BuildBatchError::TooManyNotesCreated(count, returned)
                && count == created_envelopes(txs@).len() && returned == txs,
    {
        let id = Self::compute_id(&txs);

        let mut updated_accounts: BTreeMap<u64, AccountStates> = BTreeMap::new();
        let mut produced_nullifiers: Vec<Digest> = Vec::new();
        let mut created_notes: Vec<NoteEnvelope> = Vec::new();
        let mut i: usize = 0;
        while i < txs.len()
            invariant
                i <= txs.len(),
                updated_accounts@ == account_states(txs@.take(i as int)),
                produced_nullifiers@ == consumed_nullifiers(txs@.take(i as int)),
                created_notes@ == created_envelopes(txs@.take(i as int)),
            decreases txs.len() - i,
        {
            let tx = &txs[i];
            proof {
                assert(txs@.take(i + 1).drop_last() =~= txs@.take(i as int));
                assert(txs@.take(i + 1).last() == txs@[i as int]);
            }
            updated_accounts.insert(
                tx.account_id,
                AccountStates {
                    initial_state: tx.initial_account_hash,
                    final_state: tx.final_account_hash,
                    details: tx.account_details,
                },
            );
            let mut k: usize = 0;
            while k < tx.input_notes.len()
                invariant
                    k <= tx.input_notes.len(),
                    produced_nullifiers@ == consumed_nullifiers(txs@.take(i as int))
                        + tx.input_notes@.take(k as int),
                decreases tx.input_notes.len() - k,
            {
                produced_nullifiers.push(tx.input_notes[k]);
                k += 1;
                assert(tx.input_notes@.take(k as int) =~= tx.input_notes@.take(k - 1).push(
                    tx.input_notes@[k - 1],
                ));
            }
            assert(tx.input_notes@.take(k as int) =~= tx.input_notes@);
            let mut n: usize = 0;
            while n < tx.output_notes.len()
                invariant
                    n <= tx.output_notes.len(),
                    created_notes@ == created_envelopes(txs@.take(i as int))
                        + tx.output_notes@.take(n as int),
                decreases tx.output_notes.len() - n,
            {
                created_notes.push(tx.output_notes[n]);
                n += 1;
                assert(tx.output_notes@.take(n as int) =~= tx.output_notes@.take(n - 1).push(
                    tx.output_notes@[n - 1],
                ));
            }
            assert(tx.output_notes@.take(n as int) =~= tx.output_notes@);
            i += 1;
        }
        proof {
            assert(txs@.take(i as int) =~= txs@);
        }

        if created_notes.len() > MAX_NOTES_PER_BATCH {
            return Err(BuildBatchError::TooManyNotesCreated(created_notes.len(), txs));
        }
        let words = Self::note_words(&created_notes);
        proof {
            lemma_envelope_words_len(created_notes@);
        }
        let created_notes_smt = match BatchNoteTree::with_contiguous_leaves(&words) {
            Ok(tree) => tree,
            Err(e) => { return Err(BuildBatchError::NotesSmtError(e, txs)); },
        };

        Ok(
            TransactionBatch {
                id,
                updated_accounts,
                produced_nullifiers,
                created_notes_smt,
                created_notes,
            },
        )
    }

    /// Returns the batch ID.
    pub fn id(&self) -> (id: BatchId)
        ensures
            id@ == self.spec_id(),
    {
        self.id
    }

    /// Returns the (account_id, init_state_hash) pairs of the accounts that
    /// were modified in this transaction batch, by rising account identifier.
    pub fn account_initial_states(&self) -> (list: Vec<(u64, Digest)>)
        ensures
            lists_accounts(list@, initial_states(self.accounts())),
    {
        let entries = account_entries(&self.updated_accounts);
        let mut list: Vec<(u64, Digest)> = Vec::new();
        let mut i: usize = 0;
        while i < entries.len()
            invariant
                i <= entries.len(),
                list@.len() == i,
                forall|j: int|
                    0 <= j < i ==> (#[trigger] list@[j]).0 == entries@[j].0 && list@[j].1
                        == entries@[j].1.initial_state,
            decreases entries.len() - i,
        {
            let (account_id, states) = entries[i];
            list.push((account_id, states.initial_state));
            i += 1;
        }
        proof {
            let map = initial_states(self.accounts());
            assert forall|k: u64| map.contains_key(k) implies exists|i: int|
                0 <= i < list@.len() && (#[trigger] list@[i]).0 == k by {
                let i = choose|i: int| 0 <= i < entries@.len() && (#[trigger] entries@[i]).0 == k;
                assert(list@[i].0 == k);
            }
            assert forall|i: int| 0 <= i < list@.len() implies map.contains_key(
                (#[trigger] list@[i]).0,
            ) && map[list@[i].0] == list@[i].1 by {
                assert(self.accounts().contains_key(entries@[i].0));
            }
        }
        list
    }

    /// Returns the (account_id, details, new_state_hash) triples of the
    /// accounts that were modified in this transaction batch, by rising
    /// account identifier.
    pub fn updated_accounts(&self) -> (list: Vec<(u64, Option<AccountDetails>, Digest)>)
        ensures
            lists_accounts(keyed(list@), updates(self.accounts())),
    {
        let entries = account_entries(&self.updated_accounts);
        let mut list: Vec<(u64, Option<AccountDetails>, Digest)> = Vec::new();
        let mut i: usize = 0;
        while i < entries.len()
            invariant
                i <= entries.len(),
                list@.len() == i,
                forall|j: int|
                    0 <= j < i ==> {
                        &&& (#[trigger] list@[j]).0 == entries@[j].0
                        &&& list@[j].1 == entries@[j].1.details
                        &&& list@[j].2 == entries@[j].1.final_state
                    },
            decreases entries.len() - i,
        {
            let (account_id, states) = entries[i];
            list.push((account_id, states.details, states.final_state));
            i += 1;
        }
        proof {
            let map = updates(self.accounts());
            let pairs = keyed(list@);
            assert forall|k: u64| map.contains_key(k) implies exists|i: int|
                0 <= i < pairs.len() && (#[trigger] pairs[i]).0 == k by {
                let i = choose|i: int| 0 <= i < entries@.len() && (#[trigger] entries@[i]).0 == k;
                assert(pairs[i].0 == k);
            }
            assert forall|i: int| 0 <= i < pairs.len() implies map.contains_key(
                (#[trigger] pairs[i]).0,
            ) && map[pairs[i].0] == pairs[i].1 by {
                assert(self.accounts().contains_key(entries@[i].0));
                assert(list@[i].0 == entries@[i].0);
            }
            assert forall|i: int, j: int| 0 <= i < j < pairs.len() implies pairs[i].0
                < pairs[j].0 by {
                assert(list@[i].0 == entries@[i].0 && list@[j].0 == entries@[j].0);
            }
        }
        list
    }

    /// Returns the produced nullifiers for all consumed notes.
    pub fn produced_nullifiers(&self) -> (nullifiers: &Vec<Digest>)
        ensures
            nullifiers@ == self.nullifiers(),
    {
        &self.produced_nullifiers
    }

    /// Returns the created notes.
    pub fn created_notes(&self) -> (notes: &Vec<NoteEnvelope>)
        ensures
            notes@ == self.notes(),
    {
        &self.created_notes
    }

    /// Returns the root hash of the created notes SMT.
    pub fn created_notes_root(&self) -> (root: Digest)
        ensures
            root == simple_smt_root(BATCH_OUTPUT_NOTES_TREE_DEPTH, self.note_leaves()),
    {
        self.created_notes_smt.root()
    }

    /// The identifier of a batch of the given transactions: the hash of their
    /// identifiers in the order given.
    pub fn compute_id(txs: &Vec<ProvenTransaction>) -> (id: BatchId)
        ensures
            id@ == blake3_256(tx_id_bytes(txs@)),
    {
        let mut buf: Vec<u8> = Vec::new();
        let mut i: usize = 0;
        while i < txs.len()
            invariant
                i <= txs.len(),
                buf@ == tx_id_bytes(txs@.take(i as int)),
            decreases txs.len() - i,
        {
            let mut bytes = txs[i].id.as_bytes();
            buf.append(&mut bytes);
            proof {
                assert(txs@.take(i + 1).drop_last() =~= txs@.take(i as int));
                assert(txs@.take(i + 1).last() == txs@[i as int]);
            }
            i += 1;
        }
        proof {
            assert(txs@.take(i as int) =~= txs@);
        }
        blake3_hash(&buf)
    }

    /// The leaves of the notes: identifier and metadata of each, side by side.
    fn note_words(notes: &Vec<NoteEnvelope>) -> (words: Vec<Digest>)
        ensures
            words@ == envelope_words(notes@),
    {
        let mut words: Vec<Digest> = Vec::new();
        let mut i: usize = 0;
        while i < notes.len()
            invariant
                i <= notes.len(),
                words@ == envelope_words(notes@.take(i as int)),
            decreases notes.len() - i,
        {
            words.push(notes[i].note_id);
            words.push(notes[i].metadata);
            proof {
                assert(notes@.take(i + 1).drop_last() =~= notes@.take(i as int));
                assert(notes@.take(i + 1).last() == notes@[i as int]);
            }
            i += 1;
        }
        proof {
            assert(notes@.take(i as int) =~= notes@);
        }
        words
    }
}

} // verus!
