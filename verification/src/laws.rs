//! What holds of the state across the blocks that are applied to it.
use vstd::prelude::*;

use crate::account::ValidAccount;
use crate::account_tree::ACCOUNT_TREE_DEPTH;
use crate::block_header::{block_header_hash, BlockHeader};
use crate::chain_mmr::{chain_root_of, mmr_peaks_hash, mmr_peaks_of};
use crate::digest::Digest;
use crate::merkle::{
    empty_tree, has_key, lemma_write_all_concat, lemma_write_all_other_keys,
    lemma_write_all_same_value, lemma_write_listed, lists_entries, overlay, simple_smt_root,
    tree_write, tree_write_all,
};
use crate::note_tree::NOTE_LEAF_DEPTH;
use crate::notes::NoteCreated;
use crate::nullifier_tree::{
    consumed_in, lemma_nullifier_value, nullifier_value, recorded, smt_root_hash,
};
use crate::state::{
    account_pairs, applied, block_verdict, follows, loaded, note_leaves,
    BlockRejection, StateView,
};

verus! {

/// A block as it is handed to the state: the latest header of the durable
/// store, and the header, nullifiers, account updates and notes of the block.
pub struct BlockInput {
    pub prev: Option<BlockHeader>,
    pub header: BlockHeader,
    pub nullifiers: Seq<Digest>,
    pub accounts: Seq<ValidAccount>,
    pub notes: Seq<NoteCreated>,
}

/// Whether the state accepts the block.
pub open spec fn accepts(state: StateView, block: BlockInput) -> bool {
    block_verdict(
        state,
        block.prev,
        block.header,
        block.nullifiers,
        block.accounts,
        block.notes,
    ) is None
}

/// The state after the block.
pub open spec fn after(state: StateView, block: BlockInput) -> StateView {
    applied(state, block.header, block.nullifiers, block.accounts)
}

/// Whether `states` is the course of a state through `blocks`: every block was
/// accepted by the state before it and led to the state after it.
pub open spec fn is_history(states: Seq<StateView>, blocks: Seq<BlockInput>) -> bool {
    &&& states.len() == blocks.len() + 1
    &&& forall|i: int|
        0 <= i < blocks.len() ==> accepts(states[i], #[trigger] blocks[i]) && states[i + 1]
            == after(states[i], blocks[i])
}

// ---------------------------------------------------------------------------
// Chain continuity
// ---------------------------------------------------------------------------

/// A block is accepted only if it continues the chain: its number is that of
/// the latest block plus one, and its previous hash is the hash of the latest
/// block.
pub proof fn lemma_accepted_block_follows(state: StateView, block: BlockInput)
    requires
        accepts(state, block),
    ensures
        block.prev is Some,
        follows(block.prev->0, block.header),
        block.header.block_num != 0,
{
}

/// A block with any other number is turned away for its number.
pub proof fn lemma_wrong_number_rejected(state: StateView, block: BlockInput)
    requires
        block.prev is Some,
        block.header.block_num != block.prev->0.block_num + 1,
    ensures
        block_verdict(
            state,
            block.prev,
            block.header,
            block.nullifiers,
            block.accounts,
            block.notes,
        ) == Some(BlockRejection::InvalidBlockNum),
{
}

/// A block with the right number and any other previous hash is turned away
/// for its previous hash.
pub proof fn lemma_wrong_prev_hash_rejected(state: StateView, block: BlockInput)
    requires
        block.prev is Some,
        block.header.block_num == block.prev->0.block_num + 1,
        block.header.prev_hash != block_header_hash(block.prev->0),
    ensures
        block_verdict(
            state,
            block.prev,
            block.header,
            block.nullifiers,
            block.accounts,
            block.notes,
        ) == Some(BlockRejection::InvalidPrevHash),
{
}

// ---------------------------------------------------------------------------
// Nullifier uniqueness
// ---------------------------------------------------------------------------

/// A block that consumes a nullifier which the state already records is not accepted.
pub proof fn lemma_spent_nullifier_rejected(state: StateView, block: BlockInput, i: int)
    requires
        0 <= i < block.nullifiers.len(),
        state.nullifiers.contains_key(block.nullifiers[i]),
    ensures
        !accepts(state, block),
{
    if accepts(state, block) {
        assert(!state.nullifiers.contains_key(block.nullifiers[i]));
    }
}

/// The pairs of `consumed_in` name exactly the nullifiers of the list.
pub proof fn lemma_consumed_keys(nullifiers: Seq<Digest>, block_num: u32, key: Digest)
    ensures
        has_key(consumed_in(nullifiers, block_num), key) <==> nullifiers.contains(key),
{
    let pairs = consumed_in(nullifiers, block_num);
    if has_key(pairs, key) {
        let i = choose|i: int| 0 <= i < pairs.len() && #[trigger] pairs[i].0 == key;
        assert(nullifiers[i] == key);
    }
    if nullifiers.contains(key) {
        let i = choose|i: int| 0 <= i < nullifiers.len() && nullifiers[i] == key;
        assert(pairs[i].0 == key);
    }
}

/// What an accepted block does to the nullifier tree: every nullifier that
/// was recorded keeps its block, every nullifier of the block is recorded
/// with the block's number, and nothing else is recorded.
pub proof fn lemma_accepted_block_records(state: StateView, block: BlockInput, key: Digest)
    requires
        accepts(state, block),
    ensures
        state.nullifiers.contains_key(key) ==> !block.nullifiers.contains(key) && after(
            state,
            block,
        ).nullifiers.contains_key(key) && after(state, block).nullifiers[key]
            == state.nullifiers[key],
        block.nullifiers.contains(key) ==> after(state, block).nullifiers.contains_key(key)
            && after(state, block).nullifiers[key] == nullifier_value(block.header.block_num),
        after(state, block).nullifiers.contains_key(key) ==> state.nullifiers.contains_key(key)
            || block.nullifiers.contains(key),
{
    let block_num = block.header.block_num;
    let pairs = consumed_in(block.nullifiers, block_num);
    lemma_consumed_keys(block.nullifiers, block_num, key);
    lemma_nullifier_value(block_num);
    if block.nullifiers.contains(key) {
        let i = choose|i: int| 0 <= i < block.nullifiers.len() && block.nullifiers[i] == key;
        assert(!state.nullifiers.contains_key(block.nullifiers[i]));
        lemma_write_all_same_value(state.nullifiers, pairs, key, nullifier_value(block_num));
    } else {
        lemma_write_all_other_keys(state.nullifiers, pairs, key);
    }
}

/// Once recorded, a nullifier is recorded for good and with the same block,
/// however many blocks are applied after it.
pub proof fn lemma_nullifier_recorded_for_good(
    states: Seq<StateView>,
    blocks: Seq<BlockInput>,
    i: int,
    j: int,
    key: Digest,
)
    requires
        is_history(states, blocks),
        0 <= i <= j < states.len(),
        states[i].nullifiers.contains_key(key),
    ensures
        states[j].nullifiers.contains_key(key),
        states[j].nullifiers[key] == states[i].nullifiers[key],
    decreases j - i,
{
    if i < j {
        lemma_nullifier_recorded_for_good(states, blocks, i, j - 1, key);
        assert(accepts(states[j - 1], blocks[j - 1]));
        lemma_accepted_block_records(states[j - 1], blocks[j - 1], key);
    }
}

/// No nullifier is accepted twice: a nullifier that one block of a history
/// consumed is in no later block of it.
pub proof fn lemma_no_nullifier_accepted_twice(
    states: Seq<StateView>,
    blocks: Seq<BlockInput>,
    i: int,
    j: int,
    key: Digest,
)
    requires
        is_history(states, blocks),
        0 <= i < j < blocks.len(),
        blocks[i].nullifiers.contains(key),
    ensures
        !blocks[j].nullifiers.contains(key),
{
    assert(accepts(states[i], blocks[i]));
    lemma_accepted_block_records(states[i], blocks[i], key);
    lemma_nullifier_recorded_for_good(states, blocks, i + 1, j, key);
    assert(accepts(states[j], blocks[j]));
    lemma_accepted_block_records(states[j], blocks[j], key);
}

// ---------------------------------------------------------------------------
// Root agreement
// ---------------------------------------------------------------------------

/// After an accepted block, the roots of the accumulators are the roots that
/// its header declares: the chain root is that of the chain before the block,
/// the nullifier and account roots are those of the trees after it, and the
/// note root is that of the tree of its notes.
pub proof fn lemma_roots_agree(state: StateView, block: BlockInput)
    requires
        accepts(state, block),
    ensures
        chain_root_of(state.chain) == block.header.chain_root,
        smt_root_hash(after(state, block).nullifiers) == block.header.nullifier_root,
        simple_smt_root(ACCOUNT_TREE_DEPTH, after(state, block).accounts)
            == block.header.account_root,
        simple_smt_root(NOTE_LEAF_DEPTH, note_leaves(block.notes)) == block.header.note_root,
{
}

/// A block whose header declares another root for one of the four is not accepted.
pub proof fn lemma_wrong_root_rejected(state: StateView, block: BlockInput)
    requires
        chain_root_of(state.chain) != block.header.chain_root || smt_root_hash(
            after(state, block).nullifiers,
        ) != block.header.nullifier_root || simple_smt_root(
            ACCOUNT_TREE_DEPTH,
            after(state, block).accounts,
        ) != block.header.account_root || simple_smt_root(
            NOTE_LEAF_DEPTH,
            note_leaves(block.notes),
        ) != block.header.note_root,
    ensures
        !accepts(state, block),
{
}

/// The peaks that the block producer is given after a block was applied are
/// those that the block's chain root commits to: the chain as it was before
/// the block, one leaf behind the chain in memory.
pub proof fn lemma_served_peaks_match_header(state: StateView, block: BlockInput)
    requires
        accepts(state, block),
        state.chain.len() == block.header.block_num,
    ensures
        after(state, block).chain.len() == block.header.block_num + 1,
        mmr_peaks_hash(
            mmr_peaks_of(after(state, block).chain.take(block.header.block_num as int)),
        ) == block.header.chain_root,
{
    assert(after(state, block).chain.take(block.header.block_num as int) =~= state.chain);
}

/// The chain in memory stays one leaf ahead of the number of the latest
/// block: if it was before a block, it is after it.
pub proof fn lemma_forest_tracks_block_num(state: StateView, block: BlockInput)
    requires
        accepts(state, block),
        state.chain.len() == block.prev->0.block_num + 1,
    ensures
        after(state, block).chain.len() == block.header.block_num + 1,
{
}

// ---------------------------------------------------------------------------
// Agreement of memory and durable store
// ---------------------------------------------------------------------------

/// The leaves that a table of accounts stands for: the accounts whose hash is
/// not the all-zero word.
pub open spec fn table_leaves(table: Map<u64, Digest>) -> Map<u64, Digest> {
    overlay(empty_tree::<u64>(), table)
}

/// The nullifier records that the durable store adds for a block.
pub open spec fn block_records(nullifiers: Seq<Digest>, block_num: u32) -> Seq<(Digest, u32)> {
    nullifiers.map_values(|n: Digest| (n, block_num))
}

/// Writing updates into the leaves of a table gives the leaves of the updated table.
pub proof fn lemma_updates_reach_table(table: Map<u64, Digest>, updates: Seq<(u64, Digest)>)
    ensures
        tree_write_all(table_leaves(table), updates) == table_leaves(
            account_table_after(table, updates),
        ),
    decreases updates.len(),
{
    if updates.len() > 0 {
        let front = updates.drop_last();
        lemma_updates_reach_table(table, front);
        let t = account_table_after(table, front);
        let (k, v) = updates.last();
        assert(tree_write(table_leaves(t), k, v) =~= table_leaves(t.insert(k, v)));
    } else {
        assert(tree_write_all(table_leaves(table), updates) =~= table_leaves(table));
    }
}

/// The table of accounts after the durable store has recorded the updates,
/// one after the other.
pub open spec fn account_table_after(table: Map<u64, Digest>, updates: Seq<(u64, Digest)>) -> Map<
    u64,
    Digest,
>
    decreases updates.len(),
{
    if updates.len() == 0 {
        table
    } else {
        account_table_after(table, updates.drop_last()).insert(updates.last().0, updates.last().1)
    }
}

/// The state that is loaded from the records of the durable store after it
/// has recorded the block: the nullifier records with those of the block
/// added, the block hashes with that of the block's header added, and the
/// account records as they are afterwards.
pub open spec fn reloaded(
    block: BlockInput,
    nullifier_records: Seq<(Digest, u32)>,
    block_hashes: Seq<Digest>,
    account_records_after: Seq<(u64, Digest)>,
) -> StateView {
    loaded(
        nullifier_records + block_records(block.nullifiers, block.header.block_num),
        block_hashes.push(block_header_hash(block.header)),
        account_records_after,
    )
}

/// Memory and durable store agree after a block as they did before it.
///
/// Let the state in memory be what loading builds from the records of the
/// durable store. When a block is applied, the durable store adds the
/// nullifiers of the block with the block's number, adds the hash of its
/// header, and sets the hash of every updated account. A state that is
/// loaded from those records afterwards holds what the state in memory
/// holds, and so has the same three roots.
pub proof fn lemma_reload_agrees(
    state: StateView,
    block: BlockInput,
    nullifier_records: Seq<(Digest, u32)>,
    block_hashes: Seq<Digest>,
    account_records: Seq<(u64, Digest)>,
    account_records_after: Seq<(u64, Digest)>,
    table: Map<u64, Digest>,
)
    requires
        state == loaded(nullifier_records, block_hashes, account_records),
        lists_entries(account_records, table),
        lists_entries(
            account_records_after,
            account_table_after(table, account_pairs(block.accounts)),
        ),
    ensures
        after(state, block) == reloaded(
            block,
            nullifier_records,
            block_hashes,
            account_records_after,
        ),
        smt_root_hash(after(state, block).nullifiers) == smt_root_hash(
            reloaded(block, nullifier_records, block_hashes, account_records_after).nullifiers,
        ),
        chain_root_of(after(state, block).chain) == chain_root_of(
            reloaded(block, nullifier_records, block_hashes, account_records_after).chain,
        ),
        simple_smt_root(ACCOUNT_TREE_DEPTH, after(state, block).accounts) == simple_smt_root(
            ACCOUNT_TREE_DEPTH,
            reloaded(block, nullifier_records, block_hashes, account_records_after).accounts,
        ),
{
    let added = block_records(block.nullifiers, block.header.block_num);
    assert(recorded(nullifier_records + added) =~= recorded(nullifier_records) + consumed_in(
        block.nullifiers,
        block.header.block_num,
    ));
    lemma_write_all_concat(
        empty_tree::<Digest>(),
        recorded(nullifier_records),
        consumed_in(block.nullifiers, block.header.block_num),
    );
    lemma_write_listed(empty_tree::<u64>(), account_records, table);
    lemma_updates_reach_table(table, account_pairs(block.accounts));
    lemma_write_listed(
        empty_tree::<u64>(),
        account_records_after,
        account_table_after(table, account_pairs(block.accounts)),
    );
}

} // verus!
