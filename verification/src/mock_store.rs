//! A store that keeps everything in memory and checks nothing, for trying out
//! the block producer, and a store that fails every call.
use miden_objects::crypto::merkle::{MmrPeaks, SmtProof};
use vstd::pervasive::unreached;
use vstd::prelude::*;

use crate::account::AccountDetails;
use crate::account_tree::{account_leaves_accepted, AccountTree, AccountWitness, ACCOUNT_TREE_DEPTH};
use crate::batch::{
    final_states, initial_states, keyed, lists_accounts, updates, NoteEnvelope, ProvenTransaction,
    TransactionBatch,
};
use crate::block_header::{block_header_hash, BlockHeader};
use crate::chain_mmr::{chain_root_of, mmr_peaks_of, ChainMmr};
use crate::digest::Digest;
use crate::merkle::{
    distinct_keys, empty_tree, has_key, lemma_write_listed, lists_entries, overlay,
    simple_smt_path, simple_smt_root, tree_value, tree_write_all,
};
use crate::note_tree::{NoteTree, NOTE_LEAF_DEPTH};
use crate::notes::MAX_NOTES_PER_BATCH;
use crate::nullifier_tree::{
    consumed_in, nullifier_block_num, recorded, smt_opening, smt_root_hash, NullifierTree,
};

verus! {

// ---------------------------------------------------------------------------
// What the block producer hands to a store and gets from it
// ---------------------------------------------------------------------------

/// The new state of an account and the details that come with it.
#[derive(Clone, Copy, Debug, PartialEq, Eq, Structural)]
pub struct AccountUpdateDetails {
    pub account_id: u64,
    pub final_state_hash: Digest,
    pub details: Option<AccountDetails>,
}

/// A block as the block producer builds it.
#[derive(Clone, Debug, PartialEq, Eq)]
pub struct Block {
    pub header: BlockHeader,
    pub updated_accounts: Vec<AccountUpdateDetails>,
    /// The notes of the block, batch by batch.
    pub created_notes: Vec<Vec<NoteEnvelope>>,
    pub produced_nullifiers: Vec<Digest>,
}

/// What the block producer needs of the store to build the next block.
pub struct BlockInputs {
    pub block_header: BlockHeader,
    pub chain_peaks: MmrPeaks,
    pub accounts: Vec<(u64, AccountWitness)>,
    pub nullifiers: Vec<(Digest, SmtProof)>,
}

/// What the block producer needs of the store to check a transaction.
#[derive(Clone, Debug, PartialEq, Eq)]
pub struct TransactionInputs {
    pub account_id: u64,
    /// The state hash of the account; `None` for an account that the store does not know.
    pub account_hash: Option<Digest>,
    /// Each nullifier of the transaction with the block that consumed it, 0 for none.
    pub nullifiers: Vec<(Digest, u32)>,
}

/// Why a store did not apply a block.
#[derive(Clone, Debug, PartialEq, Eq)]
pub enum ApplyBlockError {
    GrpcClientError(String),
}

/// Why a store did not give the inputs of a transaction.
#[derive(Clone, Copy, Debug, PartialEq, Eq, Structural)]
pub enum TxInputsError {
    Dummy,
}

/// Why a store did not give the inputs of a block.
#[derive(Clone, Debug, PartialEq, Eq)]
pub enum BlockInputsError {
    GrpcClientError(String),
}

// ---------------------------------------------------------------------------
// The store that works
// ---------------------------------------------------------------------------

/// The accounts, nullifiers and chain of a rollup, the header of the last
/// block, and how many blocks were applied.
pub struct MockStoreSuccess {
    /// Map account id -> account hash
    pub accounts: AccountTree,
    /// Stores the nullifiers of the notes that were consumed
    pub produced_nullifiers: NullifierTree,
    /// Stores the chain MMR
    pub chain_mmr: ChainMmr,
    /// Stores the header of the last applied block
    pub last_block_header: BlockHeader,
    /// The number of times `apply_block()` was called
    pub num_apply_block_called: u32,
}

/// The leaves that the account updates of a block write.
pub open spec fn update_pairs(updates: Seq<AccountUpdateDetails>) -> Seq<(u64, Digest)> {
    updates.map_values(|u: AccountUpdateDetails| (u.account_id, u.final_state_hash))
}

/// Writes the new state hash of every updated account.
fn insert_updates(tree: &mut AccountTree, updates: &Vec<AccountUpdateDetails>)
    ensures
        final(tree)@ == tree_write_all(old(tree)@, update_pairs(updates@)),
{
    let ghost before = tree@;
    let mut i: usize = 0;
    while i < updates.len()
        invariant
            i <= updates.len(),
            tree@ == tree_write_all(before, update_pairs(updates@.take(i as int))),
        decreases updates.len() - i,
    {
        let update = &updates[i];
        let _ = tree.insert(update.account_id, &update.final_state_hash);
        proof {
            let done = update_pairs(updates@.take(i as int));
            let next = update_pairs(updates@.take(i + 1));
            assert(next.drop_last() =~= done);
            assert(next.last() == (updates@[i as int].account_id, updates@[i as int].final_state_hash));
        }
        i += 1;
    }
    proof {
        assert(updates@.take(i as int) =~= updates@);
    }
}

impl MockStoreSuccess {
    /// The root of the account tree.
    pub fn account_root(&self) -> (root: Digest)
        ensures
            root == simple_smt_root(ACCOUNT_TREE_DEPTH, self.accounts@),
    {
        self.accounts.root()
    }

    /// Takes the block as it is: writes the new state of its accounts,
    /// records its nullifiers with its number, appends the hash of its header
    /// to the chain, keeps the header as the last one, and counts the call.
    pub fn apply_block(&mut self, block: Block) -> (r: Result<(), ApplyBlockError>)
        requires
            old(self).chain_mmr@.len() < usize::MAX,
            old(self).num_apply_block_called < u32::MAX,
        ensures
            r is Ok,
            final(self).accounts@ == tree_write_all(
                old(self).accounts@,
                update_pairs(block.updated_accounts@),
            ),
            final(self).produced_nullifiers@ == tree_write_all(
                old(self).produced_nullifiers@,
                consumed_in(block.produced_nullifiers@, block.header.block_num),
            ),
            final(self).chain_mmr@ == old(self).chain_mmr@.push(block_header_hash(block.header)),
            final(self).last_block_header == block.header,
            final(self).num_apply_block_called == old(self).num_apply_block_called + 1,
    {
        // update accounts
        insert_updates(&mut self.accounts, &block.updated_accounts);

        // update nullifiers
        let ghost before = self.produced_nullifiers@;
        let mut i: usize = 0;
        while i < block.produced_nullifiers.len()
            invariant
                i <= block.produced_nullifiers.len(),
                self.produced_nullifiers@ == tree_write_all(
                    before,
                    consumed_in(block.produced_nullifiers@.take(i as int), block.header.block_num),
                ),
                self.accounts@ == tree_write_all(
                    old(self).accounts@,
                    update_pairs(block.updated_accounts@),
                ),
                self.chain_mmr@ == old(self).chain_mmr@,
                self.num_apply_block_called == old(self).num_apply_block_called,
            decreases block.produced_nullifiers.len() - i,
        {
            self.produced_nullifiers.insert(&block.produced_nullifiers[i], block.header.block_num);
            proof {
                let done = consumed_in(
                    block.produced_nullifiers@.take(i as int),
                    block.header.block_num,
                );
                let next = consumed_in(block.produced_nullifiers@.take(i + 1), block.header.block_num);
                assert(next.drop_last() =~= done);
                assert(next.last() == (
                    block.produced_nullifiers@[i as int],
                    crate::nullifier_tree::nullifier_value(block.header.block_num),
                ));
            }
            i += 1;
        }
        proof {
            assert(block.produced_nullifiers@.take(i as int) =~= block.produced_nullifiers@);
        }

        // update chain mmr with new block header hash
        self.chain_mmr.add(&block.header.hash());

        // update last block header
        self.last_block_header = block.header;

        // update num_apply_block_called
        self.num_apply_block_called += 1;

        Ok(())
    }

    /// The state hash of the transaction's account, `None` if the store does
    /// not know the account, and for each nullifier of the transaction the
    /// block that consumed it.
    pub fn get_tx_inputs(&self, proven_tx: &ProvenTransaction) -> (r: Result<
        TransactionInputs,
        TxInputsError,
    >)
        ensures
            r matches Ok(inputs) && {
                &&& inputs.account_id == proven_tx.account_id
                &&& inputs.account_hash == (if self.accounts@.contains_key(proven_tx.account_id)
                    && self.accounts@[proven_tx.account_id] != Digest::empty() {
                    Some(self.accounts@[proven_tx.account_id])
                } else {
                    None
                })
                &&& inputs.nullifiers@.len() == proven_tx.input_notes@.len()
                &&& forall|i: int|
                    0 <= i < proven_tx.input_notes@.len() ==> (#[trigger] inputs.nullifiers@[i]).0
                        == proven_tx.input_notes@[i] && inputs.nullifiers@[i].1
                        == nullifier_block_num(
                        tree_value(self.produced_nullifiers@, proven_tx.input_notes@[i]),
                    )
            },
    {
        let account_hash = {
            let account_hash = self.accounts.get_leaf(proven_tx.account_id);
            if account_hash.is_empty() {
                None
            } else {
                Some(account_hash)
            }
        };

        let mut nullifiers: Vec<(Digest, u32)> = Vec::new();
        let mut i: usize = 0;
        while i < proven_tx.input_notes.len()
            invariant
                i <= proven_tx.input_notes.len(),
                nullifiers@.len() == i,
                forall|j: int|
                    0 <= j < i ==> (#[trigger] nullifiers@[j]).0 == proven_tx.input_notes@[j]
                        && nullifiers@[j].1 == nullifier_block_num(
                        tree_value(self.produced_nullifiers@, proven_tx.input_notes@[j]),
                    ),
            decreases proven_tx.input_notes.len() - i,
        {
            let nullifier = proven_tx.input_notes[i];
            let block_num = self.produced_nullifiers.get_block_num(&nullifier);
            nullifiers.push((nullifier, block_num));
            i += 1;
        }

        Ok(TransactionInputs { account_id: proven_tx.account_id, account_hash, nullifiers })
    }

    /// The last header, the current peaks of the chain, and an opening for
    /// each of the accounts and nullifiers asked for.
    pub fn get_block_inputs(&self, updated_accounts: &Vec<u64>, produced_nullifiers: &Vec<Digest>) -> (r:
        Result<BlockInputs, BlockInputsError>)
        ensures
            r matches Ok(inputs) && {
                &&& inputs.block_header == self.last_block_header
                &&& inputs.chain_peaks == mmr_peaks_of(self.chain_mmr@)
                &&& inputs.accounts@.len() == updated_accounts@.len()
                &&& forall|i: int|
                    0 <= i < updated_accounts@.len() ==> {
                        &&& (#[trigger] inputs.accounts@[i]).0 == updated_accounts@[i]
                        &&& inputs.accounts@[i].1.hash == tree_value(
                            self.accounts@,
                            updated_accounts@[i],
                        )
                        &&& inputs.accounts@[i].1.proof@ == simple_smt_path(
                            ACCOUNT_TREE_DEPTH,
                            self.accounts@,
                            updated_accounts@[i],
                        )
                    }
                &&& inputs.nullifiers@.len() == produced_nullifiers@.len()
                &&& forall|i: int|
                    0 <= i < produced_nullifiers@.len() ==> (#[trigger] inputs.nullifiers@[i]).0
                        == produced_nullifiers@[i] && inputs.nullifiers@[i].1 == smt_opening(
                        self.produced_nullifiers@,
                        produced_nullifiers@[i],
                    )
            },
    {
        let forest = self.chain_mmr.forest();
        proof {
            assert(self.chain_mmr@.take(forest as int) =~= self.chain_mmr@);
        }
        let chain_peaks = match self.chain_mmr.peaks(forest) {
            Ok(peaks) => peaks,
            Err(_) => unreached(),
        };

        let mut accounts: Vec<(u64, AccountWitness)> = Vec::new();
        let mut i: usize = 0;
        while i < updated_accounts.len()
            invariant
                i <= updated_accounts.len(),
                accounts@.len() == i,
                forall|j: int|
                    0 <= j < i ==> {
                        &&& (#[trigger] accounts@[j]).0 == updated_accounts@[j]
                        &&& accounts@[j].1.hash == tree_value(self.accounts@, updated_accounts@[j])
                        &&& accounts@[j].1.proof@ == simple_smt_path(
                            ACCOUNT_TREE_DEPTH,
                            self.accounts@,
                            updated_accounts@[j],
                        )
                    },
            decreases updated_accounts.len() - i,
        {
            let account_id = updated_accounts[i];
            accounts.push((account_id, self.accounts.open(account_id)));
            i += 1;
        }

        let mut nullifiers: Vec<(Digest, SmtProof)> = Vec::new();
        let mut k: usize = 0;
        while k < produced_nullifiers.len()
            invariant
                k <= produced_nullifiers.len(),
                nullifiers@.len() == k,
                forall|j: int|
                    0 <= j < k ==> (#[trigger] nullifiers@[j]).0 == produced_nullifiers@[j]
                        && nullifiers@[j].1 == smt_opening(
                        self.produced_nullifiers@,
                        produced_nullifiers@[j],
                    ),
            decreases produced_nullifiers.len() - k,
        {
            let nullifier = produced_nullifiers[k];
            nullifiers.push((nullifier, self.produced_nullifiers.open(&nullifier)));
            k += 1;
        }

        Ok(
            BlockInputs {
                block_header: self.last_block_header,
                chain_peaks,
                accounts,
                nullifiers,
            },
        )
    }
}

// ---------------------------------------------------------------------------
// The store that fails
// ---------------------------------------------------------------------------

/// A store that fails every call.
#[derive(Clone, Copy, Debug, Default, PartialEq, Eq)]
pub struct MockStoreFailure;

impl MockStoreFailure {
    /// Fails, with an empty message.
    pub fn apply_block(&self, _block: Block) -> (r: Result<(), ApplyBlockError>)
        ensures
            r matches Err(ApplyBlockError::GrpcClientError(message)) && message@.len() == 0,
    {
        Err(ApplyBlockError::GrpcClientError(String::new()))
    }

    /// Fails.
    pub fn get_tx_inputs(&self, _proven_tx: &ProvenTransaction) -> (r: Result<
        TransactionInputs,
        TxInputsError,
    >)
        ensures
            r == Err::<TransactionInputs, TxInputsError>(TxInputsError::Dummy),
    {
        Err(TxInputsError::Dummy)
    }

    /// Fails, with an empty message.
    pub fn get_block_inputs(
        &self,
        _updated_accounts: &Vec<u64>,
        _produced_nullifiers: &Vec<Digest>,
    ) -> (r: Result<BlockInputs, BlockInputsError>)
        ensures
            r matches Err(BlockInputsError::GrpcClientError(message)) && message@.len() == 0,
    {
        Err(BlockInputsError::GrpcClientError(String::new()))
    }
}

// ---------------------------------------------------------------------------
// The tree over the notes of a block, batch by batch
// ---------------------------------------------------------------------------

/// The most batches that one block can hold.
pub const MAX_BATCHES_PER_BLOCK: usize = 256;

/// The batches of notes as sequences.
pub open spec fn note_batches(batches: Seq<Vec<NoteEnvelope>>) -> Seq<Seq<NoteEnvelope>> {
    batches.map_values(|batch: Vec<NoteEnvelope>| batch@)
}

/// The leaf that holds the identifier of note `note_index` of batch
/// `batch_index`; its metadata is in the next one.
pub open spec fn batch_note_leaf(batch_index: int, note_index: int) -> int {
    2 * (batch_index * MAX_NOTES_PER_BATCH + note_index)
}

/// The leaves of the notes of batch `batch_index`.
pub open spec fn one_batch_entries(batch_index: int, notes: Seq<NoteEnvelope>) -> Seq<(u64, Digest)>
    decreases notes.len(),
{
    if notes.len() == 0 {
        Seq::empty()
    } else {
        let leaf = batch_note_leaf(batch_index, notes.len() - 1);
        one_batch_entries(batch_index, notes.drop_last()).push(
            (leaf as u64, notes.last().note_id),
        ).push(((leaf + 1) as u64, notes.last().metadata))
    }
}

/// The leaves of the notes of all batches, batch after batch.
pub open spec fn batch_entries(batches: Seq<Seq<NoteEnvelope>>) -> Seq<(u64, Digest)>
    decreases batches.len(),
{
    if batches.len() == 0 {
        Seq::empty()
    } else {
        batch_entries(batches.drop_last()) + one_batch_entries(
            batches.len() - 1,
            batches.last(),
        )
    }
}

/// Whether the batches fit one block: at most 256 batches of at most 4096 notes.
pub open spec fn batches_fit(batches: Seq<Seq<NoteEnvelope>>) -> bool {
    &&& batches.len() <= MAX_BATCHES_PER_BLOCK
    &&& forall|b: int| 0 <= b < batches.len() ==> (#[trigger] batches[b]).len() <= MAX_NOTES_PER_BATCH
}

/// The tree over the notes of a block, given batch by batch: note `i` of
/// batch `b` takes the leaves `2 * (4096 * b + i)` and the next.
pub fn note_created_smt_from_note_batches(batches: &Vec<Vec<NoteEnvelope>>) -> (tree: NoteTree)
    requires
        batches_fit(note_batches(batches@)),
    ensures
        tree@ == tree_write_all(empty_tree::<u64>(), batch_entries(note_batches(batches@))),
{
    let ghost all = note_batches(batches@);
    let mut entries: Vec<(u64, Digest)> = Vec::new();
    let mut b: usize = 0;
    while b < batches.len()
        invariant
            b <= batches.len(),
            all == note_batches(batches@),
            batches_fit(all),
            entries@ == batch_entries(all.take(b as int)),
            forall|p: int| 0 <= p < entries@.len() ==> (#[trigger] entries@[p]).0 < batch_note_leaf(b as int, 0),
            forall|p: int, q: int| 0 <= p < q < entries@.len() ==> entries@[p].0 < entries@[q].0,
        decreases batches.len() - b,
    {
        let batch = &batches[b];
        let ghost done = entries@;
        assert(all[b as int] == batch@);
        let mut i: usize = 0;
        while i < batch.len()
            invariant
                i <= batch.len(),
                b < batches.len() <= MAX_BATCHES_PER_BLOCK,
                batch@.len() <= MAX_NOTES_PER_BATCH,
                entries@ == done + one_batch_entries(b as int, batch@.take(i as int)),
                forall|p: int| 0 <= p < entries@.len() ==> (#[trigger] entries@[p]).0 < batch_note_leaf(b as int, i as int),
                forall|p: int, q: int| 0 <= p < q < entries@.len() ==> entries@[p].0 < entries@[q].0,
            decreases batch.len() - i,
        {
            let leaf: u64 = 2 * (b as u64 * 4096 + i as u64);
            let note = batch[i];
            proof {
                assert(batch@.take(i + 1).drop_last() =~= batch@.take(i as int));
                assert(batch@.take(i + 1).last() == note);
                assert(done + one_batch_entries(b as int, batch@.take(i + 1)) =~= (done
                    + one_batch_entries(b as int, batch@.take(i as int))).push(
                    (leaf, note.note_id),
                ).push(((leaf + 1) as u64, note.metadata)));
            }
            entries.push((leaf, note.note_id));
            entries.push((leaf + 1, note.metadata));
            i += 1;
        }
        proof {
            assert(batch@.take(i as int) =~= batch@);
            assert(all.take(b + 1).drop_last() =~= all.take(b as int));
            assert(all.take(b + 1).last() == batch@);
        }
        b += 1;
    }
    proof {
        assert(all.take(b as int) =~= all);
        assert(distinct_keys(entries@));
        assert(entries@.len() <= crate::note_tree::NOTE_TREE_LEAVES) by {
            lemma_sorted_keys_bound(entries@, crate::note_tree::NOTE_TREE_LEAVES as int);
        }
    }
    match NoteTree::with_leaves(&entries) {
        Ok(tree) => tree,
        Err(_) => unreached(),
    }
}

/// A list whose keys rise strictly and stay below a bound is no longer than the bound.
proof fn lemma_sorted_keys_bound(pairs: Seq<(u64, Digest)>, bound: int)
    requires
        0 <= bound,
        forall|p: int| 0 <= p < pairs.len() ==> (#[trigger] pairs[p]).0 < bound,
        forall|p: int, q: int| 0 <= p < q < pairs.len() ==> pairs[p].0 < pairs[q].0,
    ensures
        pairs.len() <= bound,
        forall|p: int| 0 <= p < pairs.len() ==> (#[trigger] pairs[p]).0 >= p,
    decreases pairs.len(),
{
    if pairs.len() > 0 {
        let front = pairs.drop_last();
        lemma_sorted_keys_bound(front, bound);
        assert forall|p: int| 0 <= p < pairs.len() implies (#[trigger] pairs[p]).0 >= p by {
            if p < front.len() {
                assert(front[p] == pairs[p]);
            } else if p > 0 {
                assert(front[p - 1] == pairs[p - 1]);
                assert(pairs[p - 1].0 < pairs[p].0);
            }
        }
        assert(pairs[pairs.len() - 1].0 >= pairs.len() - 1);
    }
}

// ---------------------------------------------------------------------------
// Trees from batches
// ---------------------------------------------------------------------------

/// The notes of the transaction batches, batch by batch.
pub open spec fn notes_of(batches: Seq<TransactionBatch>) -> Seq<Seq<NoteEnvelope>> {
    batches.map_values(|batch: TransactionBatch| batch.notes())
}

/// The account tree that holds the state before the batches: the state hash
/// of every account that one of the batches touches, before that batch.
pub open spec fn accounts_before(batches: Seq<TransactionBatch>) -> Map<u64, Digest>
    decreases batches.len(),
{
    if batches.len() == 0 {
        empty_tree::<u64>()
    } else {
        overlay(accounts_before(batches.drop_last()), initial_states(batches.last().accounts()))
    }
}

/// The account tree after the batches: the tree before them with the state
/// hash of every account that a batch touches, after that batch.
pub open spec fn accounts_after(accounts: Map<u64, Digest>, batches: Seq<TransactionBatch>) -> Map<
    u64,
    Digest,
>
    decreases batches.len(),
{
    if batches.len() == 0 {
        accounts
    } else {
        overlay(accounts_after(accounts, batches.drop_last()), final_states(batches.last().accounts()))
    }
}

/// Whether no account is touched by two of the batches.
pub open spec fn accounts_disjoint(batches: Seq<TransactionBatch>) -> bool {
    forall|a: int, b: int, k: u64|
        0 <= a < b < batches.len() ==> !(#[trigger] batches[a].accounts().contains_key(k)
            && #[trigger] batches[b].accounts().contains_key(k))
}

/// A list of accounts by rising identifier is a list of the table.
proof fn lemma_listing(list: Seq<(u64, Digest)>, table: Map<u64, Digest>)
    requires
        lists_accounts(list, table),
    ensures
        lists_entries(list, table),
{
    assert forall|k: u64| table.contains_key(k) implies has_key(list, k) by {
        let i = choose|i: int| 0 <= i < list.len() && (#[trigger] list[i]).0 == k;
        assert(list[i].0 == k);
    }
}

/// Writes a list of accounts and state hashes into the tree.
fn insert_pairs(tree: &mut AccountTree, pairs: &Vec<(u64, Digest)>)
    ensures
        final(tree)@ == tree_write_all(old(tree)@, pairs@),
{
    let ghost before = tree@;
    let mut i: usize = 0;
    while i < pairs.len()
        invariant
            i <= pairs.len(),
            tree@ == tree_write_all(before, pairs@.take(i as int)),
        decreases pairs.len() - i,
    {
        let _ = tree.insert(pairs[i].0, &pairs[i].1);
        proof {
            assert(pairs@.take(i + 1).drop_last() =~= pairs@.take(i as int));
        }
        i += 1;
    }
    proof {
        assert(pairs@.take(i as int) =~= pairs@);
    }
}

/// The accounts of a batch with their state hash after it.
fn final_pairs(batch: &TransactionBatch) -> (pairs: Vec<(u64, Digest)>)
    ensures
        lists_accounts(pairs@, final_states(batch.accounts())),
{
    let triples = batch.updated_accounts();
    let mut pairs: Vec<(u64, Digest)> = Vec::new();
    let mut i: usize = 0;
    while i < triples.len()
        invariant
            i <= triples.len(),
            pairs@.len() == i,
            forall|j: int|
                0 <= j < i ==> (#[trigger] pairs@[j]).0 == triples@[j].0 && pairs@[j].1
                    == triples@[j].2,
        decreases triples.len() - i,
    {
        pairs.push((triples[i].0, triples[i].2));
        i += 1;
    }
    proof {
        let keyed_list = keyed(triples@);
        let after = final_states(batch.accounts());
        assert forall|i: int| 0 <= i < pairs@.len() implies after.contains_key(
            (#[trigger] pairs@[i]).0,
        ) && after[pairs@[i].0] == pairs@[i].1 by {
            assert(keyed_list[i].0 == triples@[i].0);
            assert(updates(batch.accounts()).contains_key(keyed_list[i].0));
        }
        assert forall|i: int, j: int| 0 <= i < j < pairs@.len() implies pairs@[i].0
            < pairs@[j].0 by {
            assert(keyed_list[i].0 < keyed_list[j].0);
        }
        assert forall|k: u64| after.contains_key(k) implies exists|i: int|
            0 <= i < pairs@.len() && (#[trigger] pairs@[i]).0 == k by {
            assert(updates(batch.accounts()).contains_key(k));
            let i = choose|i: int| 0 <= i < keyed_list.len() && (#[trigger] keyed_list[i]).0 == k;
            assert(pairs@[i].0 == k);
        }
    }
    pairs
}

/// The tree over the notes that the batches create, batch by batch.
pub fn note_created_smt_from_batches(batches: &Vec<TransactionBatch>) -> (tree: NoteTree)
    requires
        batches_fit(notes_of(batches@)),
    ensures
        tree@ == tree_write_all(empty_tree::<u64>(), batch_entries(notes_of(batches@))),
{
    let mut notes: Vec<Vec<NoteEnvelope>> = Vec::new();
    let mut b: usize = 0;
    while b < batches.len()
        invariant
            b <= batches.len(),
            notes@.len() == b,
            forall|j: int| 0 <= j < b ==> (#[trigger] notes@[j])@ == batches@[j].notes(),
        decreases batches.len() - b,
    {
        let created = batches[b].created_notes();
        let mut copy: Vec<NoteEnvelope> = Vec::new();
        let mut i: usize = 0;
        while i < created.len()
            invariant
                i <= created.len(),
                copy@ == created@.take(i as int),
            decreases created.len() - i,
        {
            copy.push(created[i]);
            i += 1;
            assert(created@.take(i as int) =~= created@.take(i - 1).push(created@[i - 1]));
        }
        assert(created@.take(i as int) =~= created@);
        notes.push(copy);
        b += 1;
    }
    assert(note_batches(notes@) =~= notes_of(batches@));
    note_created_smt_from_note_batches(&notes)
}

// ---------------------------------------------------------------------------
// Building the store
// ---------------------------------------------------------------------------

/// Builds a [`MockStoreSuccess`]. The nullifiers are kept as a set: none of
/// them twice.
pub struct MockStoreSuccessBuilder {
    accounts: Option<AccountTree>,
    notes: Option<NoteTree>,
    produced_nullifiers: Option<Vec<Digest>>,
    chain_mmr: Option<ChainMmr>,
    block_num: Option<u32>,
}

/// The nullifiers of a list, each once, in the order in which they first occur.
fn each_once(nullifiers: &Vec<Digest>) -> (set: Vec<Digest>)
    ensures
        set@.no_duplicates(),
        forall|n: Digest| set@.contains(n) <==> nullifiers@.contains(n),
{
    let mut set: Vec<Digest> = Vec::new();
    let mut i: usize = 0;
    while i < nullifiers.len()
        invariant
            i <= nullifiers.len(),
            set@.no_duplicates(),
            forall|n: Digest| set@.contains(n) <==> nullifiers@.take(i as int).contains(n),
        decreases nullifiers.len() - i,
    {
        let nullifier = nullifiers[i];
        let mut seen = false;
        let mut j: usize = 0;
        while j < set.len() && !seen
            invariant
                j <= set.len(),
                seen ==> set@.contains(nullifier),
                !seen ==> forall|m: int| 0 <= m < j ==> set@[m] != nullifier,
            decreases set.len() - j + (if seen { 0int } else { 1int }),
        {
            if set[j] == nullifier {
                seen = true;
            } else {
                j += 1;
            }
        }
        let ghost before = nullifiers@.take(i as int);
        let ghost after = nullifiers@.take(i + 1);
        let ghost old_set = set@;
        if !seen {
            set.push(nullifier);
        }
        proof {
            assert(after =~= before.push(nullifier));
            assert forall|n: Digest| set@.contains(n) <==> after.contains(n) by {
                if set@.contains(n) {
                    let m = choose|m: int| 0 <= m < set@.len() && set@[m] == n;
                    if m < old_set.len() {
                        assert(old_set[m] == n);
                        assert(old_set.contains(n));
                        assert(before.contains(n));
                        let k = choose|k: int| 0 <= k < before.len() && before[k] == n;
                        assert(after[k] == n);
                    } else {
                        assert(after[i as int] == n);
                    }
                }
                if after.contains(n) {
                    let k = choose|k: int| 0 <= k < after.len() && after[k] == n;
                    if k < before.len() {
                        assert(before[k] == n);
                        assert(before.contains(n));
                        assert(old_set.contains(n));
                        let m = choose|m: int| 0 <= m < old_set.len() && old_set[m] == n;
                        assert(set@[m] == n);
                    } else if seen {
                        assert(old_set.contains(nullifier));
                    } else {
                        assert(set@[set@.len() - 1] == n);
                    }
                }
            }
        }
        i += 1;
    }
    proof {
        assert(nullifiers@.take(i as int) =~= nullifiers@);
    }
    set
}

/// The records of nullifiers that were all consumed in block `block_num`.
pub open spec fn records_in(nullifiers: Seq<Digest>, block_num: u32) -> Seq<(Digest, u32)> {
    nullifiers.map_values(|n: Digest| (n, block_num))
}

impl MockStoreSuccessBuilder {
    #[verifier::type_invariant]
    closed spec fn nothing_twice(self) -> bool {
        self.produced_nullifiers matches Some(list) ==> list@.no_duplicates()
    }

    /// The accounts that the store will start with, if any were given.
    pub closed spec fn accounts(&self) -> Option<Map<u64, Digest>> {
        match self.accounts {
            Some(tree) => Some(tree@),
            None => None,
        }
    }

    /// The notes that the store will start with, if any were given.
    pub closed spec fn notes(&self) -> Option<Map<u64, Digest>> {
        match self.notes {
            Some(tree) => Some(tree@),
            None => None,
        }
    }

    /// The nullifiers that the store will start with, if any were given.
    pub closed spec fn nullifiers(&self) -> Option<Seq<Digest>> {
        match self.produced_nullifiers {
            Some(list) => Some(list@),
            None => None,
        }
    }

    /// The chain that the store will start with, if one was given.
    pub closed spec fn chain(&self) -> Option<Seq<Digest>> {
        match self.chain_mmr {
            Some(chain) => Some(chain@),
            None => None,
        }
    }

    /// The number of the store's first block, if one was given.
    pub closed spec fn first_block_num(&self) -> Option<u32> {
        self.block_num
    }

    /// Starts from the batches that the block producer is about to put into
    /// a block: the accounts are as they are before the batches, and the notes
    /// are those that the batches create. No account may be in two batches.
    pub fn from_batches(batches: &Vec<TransactionBatch>) -> (builder: Self)
        requires
            accounts_disjoint(batches@),
            batches_fit(notes_of(batches@)),
        ensures
            builder.accounts() == Some(accounts_before(batches@)),
            builder.notes() == Some(
                tree_write_all(empty_tree::<u64>(), batch_entries(notes_of(batches@))),
            ),
            builder.nullifiers() is None,
            builder.chain() is None,
            builder.first_block_num() is None,
    {
        let mut accounts_smt = AccountTree::new();
        let mut b: usize = 0;
        while b < batches.len()
            invariant
                b <= batches.len(),
                accounts_smt@ == accounts_before(batches@.take(b as int)),
            decreases batches.len() - b,
        {
            let pairs = batches[b].account_initial_states();
            proof {
                let table = initial_states(batches@[b as int].accounts());
                lemma_listing(pairs@, table);
                lemma_write_listed(accounts_smt@, pairs@, table);
                assert(batches@.take(b + 1).drop_last() =~= batches@.take(b as int));
                assert(batches@.take(b + 1).last() == batches@[b as int]);
            }
            insert_pairs(&mut accounts_smt, &pairs);
            b += 1;
        }
        proof {
            assert(batches@.take(b as int) =~= batches@);
        }
        let created_notes = note_created_smt_from_batches(batches);

        Self {
            accounts: Some(accounts_smt),
            notes: Some(created_notes),
            produced_nullifiers: None,
            chain_mmr: None,
            block_num: None,
        }
    }

    /// Starts from the given accounts and their state hashes. No account may
    /// be listed twice.
    pub fn from_accounts(accounts: &Vec<(u64, Digest)>) -> (builder: Self)
        requires
            account_leaves_accepted(accounts@),
        ensures
            builder.accounts() == Some(tree_write_all(empty_tree::<u64>(), accounts@)),
            builder.notes() is None,
            builder.nullifiers() is None,
            builder.chain() is None,
            builder.first_block_num() is None,
    {
        let accounts_smt = match AccountTree::with_leaves(accounts) {
            Ok(tree) => tree,
            Err(_) => unreached(),
        };

        Self {
            accounts: Some(accounts_smt),
            notes: None,
            produced_nullifiers: None,
            chain_mmr: None,
            block_num: None,
        }
    }

    /// Sets the notes that the store starts with, batch by batch.
    pub fn initial_notes(self, notes: &Vec<Vec<NoteEnvelope>>) -> (builder: Self)
        requires
            batches_fit(note_batches(notes@)),
        ensures
            builder.notes() == Some(
                tree_write_all(empty_tree::<u64>(), batch_entries(note_batches(notes@))),
            ),
            builder.accounts() == self.accounts(),
            builder.nullifiers() == self.nullifiers(),
            builder.chain() == self.chain(),
            builder.first_block_num() == self.first_block_num(),
    {
        let mut builder = self;
        proof {
            use_type_invariant(&builder);
        }
        builder.notes = Some(note_created_smt_from_note_batches(notes));

        builder
    }

    /// Sets the nullifiers that the store starts with. They are taken as a
    /// set: one that is listed twice counts once.
    pub fn initial_nullifiers(self, nullifiers: Vec<Digest>) -> (builder: Self)
        ensures
            builder.nullifiers() matches Some(set) && set.no_duplicates() && forall|n: Digest|
                set.contains(n) <==> nullifiers@.contains(n),
            builder.accounts() == self.accounts(),
            builder.notes() == self.notes(),
            builder.chain() == self.chain(),
            builder.first_block_num() == self.first_block_num(),
    {
        let mut builder = self;
        proof {
            use_type_invariant(&builder);
        }
        builder.produced_nullifiers = Some(each_once(&nullifiers));

        builder
    }

    /// Sets the chain that the store starts with.
    pub fn initial_chain_mmr(self, chain_mmr: ChainMmr) -> (builder: Self)
        ensures
            builder.chain() == Some(chain_mmr@),
            builder.accounts() == self.accounts(),
            builder.notes() == self.notes(),
            builder.nullifiers() == self.nullifiers(),
            builder.first_block_num() == self.first_block_num(),
    {
        let mut builder = self;
        proof {
            use_type_invariant(&builder);
        }
        builder.chain_mmr = Some(chain_mmr);

        builder
    }

    /// Sets the number of the block that the store starts with.
    pub fn initial_block_num(self, block_num: u32) -> (builder: Self)
        ensures
            builder.first_block_num() == Some(block_num),
            builder.accounts() == self.accounts(),
            builder.notes() == self.notes(),
            builder.nullifiers() == self.nullifiers(),
            builder.chain() == self.chain(),
    {
        let mut builder = self;
        proof {
            use_type_invariant(&builder);
        }
        builder.block_num = Some(block_num);

        builder
    }

    /// Builds the store. What was not set is empty, and the first block has
    /// the number 1. The nullifiers are recorded as consumed in the first
    /// block, whose header declares the roots of what the store holds.
    pub fn build(self) -> (store: MockStoreSuccess)
        ensures
            store.accounts@ == (match self.accounts() {
                Some(accounts) => accounts,
                None => empty_tree::<u64>(),
            }),
            store.chain_mmr@ == (match self.chain() {
                Some(chain) => chain,
                None => Seq::empty(),
            }),
            store.produced_nullifiers@ == (match self.nullifiers() {
                Some(list) => tree_write_all(
                    empty_tree::<Digest>(),
                    recorded(records_in(list, store.last_block_header.block_num)),
                ),
                None => empty_tree::<Digest>(),
            }),
            store.num_apply_block_called == 0,
            store.last_block_header == (BlockHeader {
                prev_hash: Digest::empty(),
                block_num: match self.first_block_num() {
                    Some(block_num) => block_num,
                    None => 1,
                },
                chain_root: chain_root_of(store.chain_mmr@),
                account_root: simple_smt_root(ACCOUNT_TREE_DEPTH, store.accounts@),
                nullifier_root: smt_root_hash(store.produced_nullifiers@),
                note_root: simple_smt_root(
                    NOTE_LEAF_DEPTH,
                    match self.notes() {
                        Some(notes) => notes,
                        None => empty_tree::<u64>(),
                    },
                ),
                batch_root: Digest::empty(),
                proof_hash: Digest::empty(),
                version: 0,
                timestamp: 1,
            }),
    {
        proof {
            use_type_invariant(&self);
        }
        let block_num = match self.block_num {
            Some(block_num) => block_num,
            None => 1,
        };
        let accounts_smt = match self.accounts {
            Some(tree) => tree,
            None => AccountTree::new(),
        };
        let notes_smt = match self.notes {
            Some(tree) => tree,
            None => NoteTree::new(),
        };
        let chain_mmr = match self.chain_mmr {
            Some(chain) => chain,
            None => ChainMmr::new(),
        };
        let nullifiers_smt = match self.produced_nullifiers {
            Some(nullifiers) => {
                let mut records: Vec<(Digest, u32)> = Vec::new();
                let mut i: usize = 0;
                while i < nullifiers.len()
                    invariant
                        i <= nullifiers.len(),
                        records@ == records_in(nullifiers@.take(i as int), block_num),
                    decreases nullifiers.len() - i,
                {
                    records.push((nullifiers[i], block_num));
                    i += 1;
                    assert(records@ =~= records_in(nullifiers@.take(i as int), block_num));
                }
                proof {
                    assert(nullifiers@.take(i as int) =~= nullifiers@);
                    assert(distinct_keys(records@)) by {
                        assert forall|a: int, b: int| 0 <= a < b < records@.len() implies records@[a].0
                            != records@[b].0 by {
                            assert(nullifiers@[a] != nullifiers@[b]);
                        }
                    }
                }
                match NullifierTree::with_entries(&records) {
                    Ok(tree) => tree,
                    Err(_) => unreached(),
                }
            },
            None => NullifierTree::new(),
        };

        let initial_block_header = BlockHeader::new(
            Digest::zero(),
            block_num,
            chain_mmr.root(),
            accounts_smt.root(),
            nullifiers_smt.root(),
            notes_smt.root(),
            Digest::zero(),
            Digest::zero(),
            0,
            1,
        );

        MockStoreSuccess {
            accounts: accounts_smt,
            produced_nullifiers: nullifiers_smt,
            chain_mmr,
            last_block_header: initial_block_header,
            num_apply_block_called: 0,
        }
    }
}

// ---------------------------------------------------------------------------
// Building blocks and the headers to expect
// ---------------------------------------------------------------------------

/// Constructs the block we expect to be built given the store state, and a set of transaction
/// batches to be applied
pub fn build_expected_block_header(store: &MockStoreSuccess, batches: &Vec<TransactionBatch>) -> (header:
    BlockHeader)
    requires
        store.last_block_header.block_num < u32::MAX,
        store.chain_mmr@.len() < usize::MAX,
        batches_fit(notes_of(batches@)),
    ensures
        header == (BlockHeader {
            prev_hash: block_header_hash(store.last_block_header),
            block_num: (store.last_block_header.block_num + 1) as u32,
            chain_root: chain_root_of(
                store.chain_mmr@.push(block_header_hash(store.last_block_header)),
            ),
            account_root: simple_smt_root(
                ACCOUNT_TREE_DEPTH,
                accounts_after(store.accounts@, batches@),
            ),
            nullifier_root: Digest::empty(),
            note_root: simple_smt_root(
                NOTE_LEAF_DEPTH,
                tree_write_all(empty_tree::<u64>(), batch_entries(notes_of(batches@))),
            ),
            batch_root: Digest::empty(),
            proof_hash: Digest::empty(),
            version: 0,
            timestamp: 1,
        }),
{
    let last_block_header = store.last_block_header;

    // Compute new account root
    let new_account_root = {
        let mut store_accounts = store.accounts.clone();
        let mut b: usize = 0;
        while b < batches.len()
            invariant
                b <= batches.len(),
                store_accounts@ == accounts_after(store.accounts@, batches@.take(b as int)),
            decreases batches.len() - b,
        {
            let pairs = final_pairs(&batches[b]);
            proof {
                let table = final_states(batches@[b as int].accounts());
                lemma_listing(pairs@, table);
                lemma_write_listed(store_accounts@, pairs@, table);
                assert(batches@.take(b + 1).drop_last() =~= batches@.take(b as int));
                assert(batches@.take(b + 1).last() == batches@[b as int]);
            }
            insert_pairs(&mut store_accounts, &pairs);
            b += 1;
        }
        proof {
            assert(batches@.take(b as int) =~= batches@);
        }

        store_accounts.root()
    };

    // Compute new chain MMR root
    let new_chain_mmr_root = {
        let mut store_chain_mmr = store.chain_mmr.clone();

        store_chain_mmr.add(&last_block_header.hash());

        store_chain_mmr.root()
    };

    // Build header
    BlockHeader::new(
        last_block_header.hash(),
        last_block_header.block_num + 1,
        new_chain_mmr_root,
        new_account_root,
        Digest::zero(),
        note_created_smt_from_batches(batches).root(),
        Digest::zero(),
        Digest::zero(),
        0,
        1,
    )
}

/// Builds the next block on a store, from what it is told to put into it.
pub struct MockBlockBuilder {
    store_accounts: AccountTree,
    store_chain_mmr: ChainMmr,
    last_block_header: BlockHeader,
    updated_accounts: Option<Vec<AccountUpdateDetails>>,
    created_note: Option<Vec<Vec<NoteEnvelope>>>,
    produced_nullifiers: Option<Vec<Digest>>,
}

impl MockBlockBuilder {
    /// The accounts of the store with the updates given so far.
    pub closed spec fn accounts(&self) -> Map<u64, Digest> {
        self.store_accounts@
    }

    /// The chain of the store.
    pub closed spec fn chain(&self) -> Seq<Digest> {
        self.store_chain_mmr@
    }

    /// The header of the block to build on.
    pub closed spec fn last_header(&self) -> BlockHeader {
        self.last_block_header
    }

    /// The account updates given so far.
    pub closed spec fn updates(&self) -> Seq<AccountUpdateDetails> {
        match self.updated_accounts {
            Some(list) => list@,
            None => Seq::empty(),
        }
    }

    /// The nullifiers given so far.
    pub closed spec fn nullifiers(&self) -> Seq<Digest> {
        match self.produced_nullifiers {
            Some(list) => list@,
            None => Seq::empty(),
        }
    }

    /// A builder for the block after the last block of the store.
    pub fn new(store: &MockStoreSuccess) -> (builder: Self)
        ensures
            builder.accounts() == store.accounts@,
            builder.chain() == store.chain_mmr@,
            builder.last_header() == store.last_block_header,
            builder.updates().len() == 0,
            builder.nullifiers().len() == 0,
    {
        Self {
            store_accounts: store.accounts.clone(),
            store_chain_mmr: store.chain_mmr.clone(),
            last_block_header: store.last_block_header,
            updated_accounts: None,
            created_note: None,
            produced_nullifiers: None,
        }
    }

    /// Sets the account updates of the block and writes them into the
    /// builder's copy of the account tree.
    pub fn account_updates(self, updated_accounts: Vec<AccountUpdateDetails>) -> (builder: Self)
        ensures
            builder.accounts() == tree_write_all(self.accounts(), update_pairs(updated_accounts@)),
            builder.updates() == updated_accounts@,
            builder.chain() == self.chain(),
            builder.last_header() == self.last_header(),
            builder.nullifiers() == self.nullifiers(),
    {
        let mut builder = self;
        insert_updates(&mut builder.store_accounts, &updated_accounts);

        builder.updated_accounts = Some(updated_accounts);

        builder
    }

    /// Sets the nullifiers of the block.
    pub fn produced_nullifiers(self, produced_nullifiers: Vec<Digest>) -> (builder: Self)
        ensures
            builder.nullifiers() == produced_nullifiers@,
            builder.accounts() == self.accounts(),
            builder.updates() == self.updates(),
            builder.chain() == self.chain(),
            builder.last_header() == self.last_header(),
    {
        let mut builder = self;
        builder.produced_nullifiers = Some(produced_nullifiers);

        builder
    }

    /// Builds the block: its header continues the last block, declares the
    /// current chain root and the root of the updated accounts, and leaves
    /// the nullifier root open. The block creates no notes.
    pub fn build(self) -> (block: Block)
        requires
            self.last_header().block_num < u32::MAX,
        ensures
            block.header == (BlockHeader {
                prev_hash: block_header_hash(self.last_header()),
                block_num: (self.last_header().block_num + 1) as u32,
                chain_root: chain_root_of(self.chain()),
                account_root: simple_smt_root(ACCOUNT_TREE_DEPTH, self.accounts()),
                nullifier_root: Digest::empty(),
                note_root: simple_smt_root(NOTE_LEAF_DEPTH, empty_tree::<u64>()),
                batch_root: Digest::empty(),
                proof_hash: Digest::empty(),
                version: 0,
                timestamp: 1,
            }),
            block.updated_accounts@ == self.updates(),
            block.created_notes@.len() == 0,
            block.produced_nullifiers@ == self.nullifiers(),
    {
        let created_notes: Vec<Vec<NoteEnvelope>> = Vec::new();
        proof {
            assert(note_batches(created_notes@) =~= Seq::<Seq<NoteEnvelope>>::empty());
        }

        let header = BlockHeader::new(
            self.last_block_header.hash(),
            self.last_block_header.block_num + 1,
            self.store_chain_mmr.root(),
            self.store_accounts.root(),
            Digest::zero(),
            note_created_smt_from_note_batches(&created_notes).root(),
            Digest::zero(),
            Digest::zero(),
            0,
            1,
        );

        Block {
            header,
            updated_accounts: match self.updated_accounts {
                Some(list) => list,
                None => Vec::new(),
            },
            created_notes,
            produced_nullifiers: match self.produced_nullifiers {
                Some(list) => list,
                None => Vec::new(),
            },
        }
    }
}

} // verus!
