//! The state of the rollup: the nullifier tree, the chain accumulator and the
//! account tree, the checks that a new block has to pass before it replaces
//! them, and the queries that read them.
use miden_objects::crypto::merkle::{MmrPeaks, SmtProof};
use vstd::prelude::*;

use crate::account::{check_account_id, valid_account_id, ValidAccount};
use crate::account_tree::{AccountTree, ACCOUNT_TREE_DEPTH};
use crate::block_header::{block_header_hash, BlockHeader};
use crate::chain_mmr::{
    chain_root_of, mmr_delta_data, mmr_peaks_of, peaks_hash, ChainMmr, MmrDelta,
};
use crate::digest::Digest;
use crate::errors::{
    ApplyBlockError, GetBlockInputsError, StateInitializationError, StateSyncError,
};
use crate::merkle::{
    distinct_keys, empty_tree, simple_smt_path, simple_smt_root, tree_value, tree_write_all,
};
use crate::note_tree::{
    all_well_formed, build_notes_tree, first_refused, lemma_note_entries, note_entries,
    note_leaf_index, note_leaves_accepted, note_well_formed, NoteTree, NOTE_LEAF_DEPTH,
};
use crate::notes::{Note, NoteCreated};
use crate::nullifier_tree::{
    consumed_in, nullifier_block_num, nullifier_value, recorded, smt_opening, smt_root_hash,
    NullifierTree,
};

verus! {

// ---------------------------------------------------------------------------
// What the queries return
// ---------------------------------------------------------------------------

/// A nullifier and the block that consumed it; block 0 if none did.
#[derive(Clone, Copy, Debug, PartialEq, Eq, Structural)]
pub struct NullifierInfo {
    pub nullifier: Digest,
    pub block_num: u32,
}

/// What the block producer needs to check a transaction: the current state
/// hash of its account and, for each nullifier, the block that consumed it.
#[derive(Clone, Debug, PartialEq, Eq)]
pub struct TransactionInputs {
    pub account_hash: Digest,
    pub nullifiers: Vec<NullifierInfo>,
}

/// The state of an account with its opening against the account root.
#[derive(Clone, Debug, PartialEq, Eq)]
pub struct AccountInputRecord {
    pub account_id: u64,
    pub account_hash: Digest,
    pub proof: Vec<Digest>,
}

/// A nullifier with its opening against the nullifier root.
pub struct NullifierWitness {
    pub nullifier: Digest,
    pub proof: SmtProof,
}

/// An account with its latest state hash and the block that set it.
#[derive(Clone, Copy, Debug, PartialEq, Eq, Structural)]
pub struct AccountInfo {
    pub account_id: u64,
    pub account_hash: Digest,
    pub block_num: u32,
}

/// What a client is told when it asks to be brought up to date: the block to
/// advance to, and what changed for it up to that block.
#[derive(Debug, PartialEq, Eq)]
pub struct StateSyncUpdate {
    pub notes: Vec<Note>,
    pub block_header: BlockHeader,
    pub chain_tip: u32,
    pub account_updates: Vec<AccountInfo>,
    pub nullifiers: Vec<NullifierInfo>,
}

// ---------------------------------------------------------------------------
// The state and its model
// ---------------------------------------------------------------------------

/// What the three accumulators hold.
pub struct StateView {
    /// Nullifier to encoded block number.
    pub nullifiers: Map<Digest, Digest>,
    /// The hashes of the block headers, oldest first.
    pub chain: Seq<Digest>,
    /// Account identifier to state hash.
    pub accounts: Map<u64, Digest>,
}

/// The rollup state: the three accumulators that change together, one block
/// at a time.
pub struct State {
    nullifier_tree: NullifierTree,
    chain_mmr: ChainMmr,
    account_tree: AccountTree,
}

impl View for State {
    type V = StateView;

    closed spec fn view(&self) -> StateView {
        StateView {
            nullifiers: self.nullifier_tree@,
            chain: self.chain_mmr@,
            accounts: self.account_tree@,
        }
    }
}

/// The state that the durable store's records stand for: the recorded
/// nullifiers written into an empty tree, the block hashes in order, and the
/// account hashes written into an empty tree.
pub open spec fn loaded(
    nullifiers: Seq<(Digest, u32)>,
    block_hashes: Seq<Digest>,
    accounts: Seq<(u64, Digest)>,
) -> StateView {
    StateView {
        nullifiers: tree_write_all(empty_tree::<Digest>(), recorded(nullifiers)),
        chain: block_hashes,
        accounts: tree_write_all(empty_tree::<u64>(), accounts),
    }
}

impl State {
    /// Builds the state from what the durable store holds: every recorded
    /// nullifier with its block, the hash of every block header, oldest first,
    /// and the latest state hash of every account.
    ///
    /// Fails exactly when a nullifier or an account is listed twice (or the
    /// list of accounts is longer than a tree can be built from), and names
    /// the nullifiers first.
    pub fn load(
        nullifiers: &Vec<(Digest, u32)>,
        block_hashes: &Vec<Digest>,
        accounts: &Vec<(u64, Digest)>,
    ) -> (r: Result<State, StateInitializationError>)
        ensures
            r is Ok <==> distinct_keys(nullifiers@) && crate::account_tree::account_leaves_accepted(
                accounts@,
            ),
            r matches Ok(state) ==> state@ == loaded(nullifiers@, block_hashes@, accounts@),
            r matches Err(e) ==> match e {
                StateInitializationError::FailedToCreateNullifiersTree(_) => !distinct_keys(
                    nullifiers@,
                ),
                StateInitializationError::FailedToCreateAccountsTree(_) => distinct_keys(
                    nullifiers@,
                ),
            },
    {
        let nullifier_tree = match load_nullifier_tree(nullifiers) {
            Ok(tree) => tree,
            Err(e) => { return Err(e); },
        };
        let chain_mmr = load_mmr(block_hashes);
        let account_tree = match load_accounts(accounts) {
            Ok(tree) => tree,
            Err(e) => { return Err(e); },
        };
        Ok(State { nullifier_tree, chain_mmr, account_tree })
    }

    /// The number of block hashes in the chain accumulator.
    pub fn chain_forest(&self) -> (forest: usize)
        ensures
            forest == self@.chain.len(),
    {
        self.chain_mmr.forest()
    }

    /// The state hash recorded for account `id`; all zero if the account is unknown.
    pub fn get_account_hash(&self, id: u64) -> (hash: Digest)
        ensures
            hash == tree_value(self@.accounts, id),
    {
        self.account_tree.get_leaf(id)
    }

    /// The root of the account tree.
    pub fn account_root(&self) -> (root: Digest)
        ensures
            root == simple_smt_root(ACCOUNT_TREE_DEPTH, self@.accounts),
    {
        self.account_tree.root()
    }

    /// The root of the nullifier tree.
    pub fn nullifier_root(&self) -> (root: Digest)
        ensures
            root == smt_root_hash(self@.nullifiers),
    {
        self.nullifier_tree.root()
    }

    /// Generates membership proofs for each one of the `nullifiers` against the latest
    /// nullifier
    /// tree.
    ///
    /// Note: these proofs are invalidated once the nullifier tree is modified, i.e. on a new
    /// block.
    pub fn check_nullifiers(&self, nullifiers: &Vec<Digest>) -> (proofs: Vec<SmtProof>)
        ensures
            proofs@.len() == nullifiers@.len(),
            forall|i: int|
                0 <= i < nullifiers@.len() ==> #[trigger] proofs@[i] == smt_opening(
                    self@.nullifiers,
                    nullifiers@[i],
                ),
    {
        let mut proofs: Vec<SmtProof> = Vec::new();
        let mut i: usize = 0;
        while i < nullifiers.len()
            invariant
                i <= nullifiers.len(),
                proofs@.len() == i,
                forall|j: int|
                    0 <= j < i ==> #[trigger] proofs@[j] == smt_opening(
                        self@.nullifiers,
                        nullifiers@[j],
                    ),
            decreases nullifiers.len() - i,
        {
            proofs.push(self.nullifier_tree.open(&nullifiers[i]));
            i += 1;
        }
        proofs
    }

    /// Returns data needed by the block producer to verify transactions validity:
    /// the state hash of the account, all zero if the account is unknown, and
    /// for each nullifier the block that consumed it, 0 if none did.
    pub fn get_transaction_inputs(&self, account_id: u64, nullifiers: &Vec<Digest>) -> (inputs:
        TransactionInputs)
        ensures
            inputs.account_hash == tree_value(self@.accounts, account_id),
            inputs.nullifiers@.len() == nullifiers@.len(),
            forall|i: int|
                0 <= i < nullifiers@.len() ==> {
                    &&& (#[trigger] inputs.nullifiers@[i]).nullifier == nullifiers@[i]
                    &&& inputs.nullifiers@[i].block_num == nullifier_block_num(
                        tree_value(self@.nullifiers, nullifiers@[i]),
                    )
                    &&& (inputs.nullifiers@[i].block_num != 0 <==> self@.nullifiers.contains_key(
                        nullifiers@[i],
                    ))
                },
    {
        let account_hash = self.account_tree.open(account_id).hash;
        let mut infos: Vec<NullifierInfo> = Vec::new();
        let mut i: usize = 0;
        while i < nullifiers.len()
            invariant
                i <= nullifiers.len(),
                infos@.len() == i,
                forall|j: int|
                    0 <= j < i ==> {
                        &&& (#[trigger] infos@[j]).nullifier == nullifiers@[j]
                        &&& infos@[j].block_num == nullifier_block_num(
                            tree_value(self@.nullifiers, nullifiers@[j]),
                        )
                        &&& (infos@[j].block_num != 0 <==> self@.nullifiers.contains_key(
                            nullifiers@[j],
                        ))
                    },
            decreases nullifiers.len() - i,
        {
            let nullifier = nullifiers[i];
            let block_num = self.nullifier_tree.get_block_num(&nullifier);
            infos.push(NullifierInfo { nullifier, block_num });
            i += 1;
        }
        TransactionInputs { account_hash, nullifiers: infos }
    }
}

// ---------------------------------------------------------------------------
// Applying a block: the model
// ---------------------------------------------------------------------------

/// The leaves that the account updates of a block write: identifier and new state hash.
pub open spec fn account_pairs(accounts: Seq<ValidAccount>) -> Seq<(u64, Digest)> {
    accounts.map_values(|a: ValidAccount| (a.id, a.hash))
}

/// Those of the incoming nullifiers that the tree already records, in their order.
pub open spec fn duplicated(entries: Map<Digest, Digest>, incoming: Seq<Digest>) -> Seq<Digest>
    decreases incoming.len(),
{
    if incoming.len() == 0 {
        Seq::empty()
    } else {
        let front = duplicated(entries, incoming.drop_last());
        if entries.contains_key(incoming.last()) {
            front.push(incoming.last())
        } else {
            front
        }
    }
}

/// Whether none of the incoming nullifiers is recorded yet.
pub open spec fn all_unspent(entries: Map<Digest, Digest>, incoming: Seq<Digest>) -> bool {
    forall|i: int| 0 <= i < incoming.len() ==> !entries.contains_key(#[trigger] incoming[i])
}

/// Whether `header` continues the chain after `prev`.
pub open spec fn follows(prev: BlockHeader, header: BlockHeader) -> bool {
    header.block_num == prev.block_num + 1 && header.prev_hash == block_header_hash(prev)
}

/// The accumulators after the block has been applied: every nullifier of the
/// block recorded with the block's number, the hash of the header appended to
/// the chain, and every updated account with its new state hash.
pub open spec fn applied(
    state: StateView,
    header: BlockHeader,
    nullifiers: Seq<Digest>,
    accounts: Seq<ValidAccount>,
) -> StateView {
    StateView {
        nullifiers: tree_write_all(state.nullifiers, consumed_in(nullifiers, header.block_num)),
        chain: state.chain.push(block_header_hash(header)),
        accounts: tree_write_all(state.accounts, account_pairs(accounts)),
    }
}

/// The leaves of the note tree of a block.
pub open spec fn note_leaves(notes: Seq<NoteCreated>) -> Map<u64, Digest> {
    tree_write_all(empty_tree::<u64>(), note_entries(notes))
}

/// The first note of the list that is not well formed.
pub open spec fn first_refused_note(notes: Seq<NoteCreated>) -> NoteCreated {
    notes[choose|i: int| first_refused(notes, i)]
}

/// Why a block is turned away. The checks are made in the order of the variants.
#[derive(Clone, Copy, Debug, PartialEq, Eq, Structural)]
pub enum BlockRejection {
    /// The durable store holds no block to continue from.
    NoPreviousBlock,
    /// The number is not that of the latest block plus one.
    InvalidBlockNum,
    /// The previous hash is not the hash of the latest block.
    InvalidPrevHash,
    /// A nullifier of the block is already recorded.
    DuplicatedNullifiers,
    /// The declared chain root is not that of the chain before the block.
    InvalidChainRoot,
    /// The declared nullifier root is not that of the nullifier tree after the block.
    InvalidNullifierRoot,
    /// The declared account root is not that of the account tree after the block.
    InvalidAccountRoot,
    /// The sender of a note is no account.
    InvalidNoteSender,
    /// The tag of a note does not go with its type.
    InvalidNoteTag,
    /// Two notes share a leaf, or a note lies beyond the last leaf.
    NotesDoNotFit,
    /// The declared note root is not that of the tree of the block's notes.
    InvalidNoteRoot,
}

/// The verdict on a block: `None` if it is accepted, else the first check that it fails.
pub open spec fn block_verdict(
    state: StateView,
    prev: Option<BlockHeader>,
    header: BlockHeader,
    nullifiers: Seq<Digest>,
    accounts: Seq<ValidAccount>,
    notes: Seq<NoteCreated>,
) -> Option<BlockRejection> {
    let after = applied(state, header, nullifiers, accounts);
    if prev is None {
        Some(BlockRejection::NoPreviousBlock)
    } else if header.block_num != prev->0.block_num + 1 {
        Some(BlockRejection::InvalidBlockNum)
    } else if header.prev_hash != block_header_hash(prev->0) {
        Some(BlockRejection::InvalidPrevHash)
    } else if !all_unspent(state.nullifiers, nullifiers) {
        Some(BlockRejection::DuplicatedNullifiers)
    } else if chain_root_of(state.chain) != header.chain_root {
        Some(BlockRejection::InvalidChainRoot)
    } else if smt_root_hash(after.nullifiers) != header.nullifier_root {
        Some(BlockRejection::InvalidNullifierRoot)
    } else if simple_smt_root(ACCOUNT_TREE_DEPTH, after.accounts) != header.account_root {
        Some(BlockRejection::InvalidAccountRoot)
    } else if !all_well_formed(notes) {
        if !valid_account_id(first_refused_note(notes).sender) {
            Some(BlockRejection::InvalidNoteSender)
        } else {
            Some(BlockRejection::InvalidNoteTag)
        }
    } else if !note_leaves_accepted(note_entries(notes)) {
        Some(BlockRejection::NotesDoNotFit)
    } else if simple_smt_root(NOTE_LEAF_DEPTH, note_leaves(notes)) != header.note_root {
        Some(BlockRejection::InvalidNoteRoot)
    } else {
        None
    }
}

/// The check that an error of [`State::apply_block`] reports; `None` for the
/// errors that are not a verdict on the block.
pub open spec fn rejection_of(error: ApplyBlockError) -> Option<BlockRejection> {
    match error {
        ApplyBlockError::DbBlockHeaderEmpty => Some(BlockRejection::NoPreviousBlock),
        ApplyBlockError::NewBlockInvalidBlockNum => Some(BlockRejection::InvalidBlockNum),
        ApplyBlockError::NewBlockInvalidPrevHash => Some(BlockRejection::InvalidPrevHash),
        ApplyBlockError::DuplicatedNullifiers(_) => Some(BlockRejection::DuplicatedNullifiers),
        ApplyBlockError::NewBlockInvalidChainRoot => Some(BlockRejection::InvalidChainRoot),
        ApplyBlockError::NewBlockInvalidNullifierRoot => Some(BlockRejection::InvalidNullifierRoot),
        ApplyBlockError::NewBlockInvalidAccountRoot => Some(BlockRejection::InvalidAccountRoot),
        ApplyBlockError::AccountError(_) => Some(BlockRejection::InvalidNoteSender),
        ApplyBlockError::NoteError(_) => Some(BlockRejection::InvalidNoteTag),
        ApplyBlockError::FailedToCreateNotesTree(_) => Some(BlockRejection::NotesDoNotFit),
        ApplyBlockError::NewBlockInvalidNoteRoot => Some(BlockRejection::InvalidNoteRoot),
        ApplyBlockError::ConcurrentWrite => None,
        ApplyBlockError::FailedToGetMmrPeaksForForest { .. } => None,
        ApplyBlockError::BlockApplyingBrokenBecauseOfClosedChannel => None,
        ApplyBlockError::ChainMmrFull => None,
        ApplyBlockError::DurableCommitFailed => None,
        ApplyBlockError::BlockNotApplied => None,
    }
}

/// Nothing is duplicated exactly when every incoming nullifier is unspent.
pub proof fn lemma_duplicated_empty(entries: Map<Digest, Digest>, incoming: Seq<Digest>)
    ensures
        duplicated(entries, incoming).len() == 0 <==> all_unspent(entries, incoming),
    decreases incoming.len(),
{
    if incoming.len() > 0 {
        let front = incoming.drop_last();
        lemma_duplicated_empty(entries, front);
        if all_unspent(entries, incoming) {
            assert forall|i: int| 0 <= i < front.len() implies !entries.contains_key(
                #[trigger] front[i],
            ) by {
                assert(front[i] == incoming[i]);
            }
            assert(incoming.last() == incoming[incoming.len() - 1]);
        }
        if duplicated(entries, incoming).len() == 0 {
            assert forall|i: int| 0 <= i < incoming.len() implies !entries.contains_key(
                #[trigger] incoming[i],
            ) by {
                if i < front.len() {
                    assert(front[i] == incoming[i]);
                }
            }
        }
    }
}

/// Only one note can be the first that is not well formed.
pub proof fn lemma_first_refused_unique(notes: Seq<NoteCreated>, i: int)
    requires
        first_refused(notes, i),
    ensures
        first_refused_note(notes) == notes[i],
        !all_well_formed(notes),
{
    let j = choose|j: int| first_refused(notes, j);
    if j < i {
        assert(note_well_formed(notes[j]));
    } else if i < j {
        assert(note_well_formed(notes[i]));
    }
}

// ---------------------------------------------------------------------------
// Applying a block: the code
// ---------------------------------------------------------------------------

/// A block that has passed every check, with the accumulators as they will be
/// once it is committed. Until then the state is untouched.
pub struct BlockUpdate {
    nullifier_tree: NullifierTree,
    chain_mmr: ChainMmr,
    account_tree: AccountTree,
    block_header: BlockHeader,
    notes: Vec<Note>,
}

impl BlockUpdate {
    /// The header of the block.
    pub closed spec fn header(&self) -> BlockHeader {
        self.block_header
    }

    /// The notes of the block, each with its opening against the note root.
    pub closed spec fn opened_notes(&self) -> Seq<Note> {
        self.notes@
    }

    /// The header of the block.
    pub fn block_header(&self) -> (header: BlockHeader)
        ensures
            header == self.header(),
    {
        self.block_header
    }

    /// The notes of the block, each with its opening against the note root.
    pub fn notes(&self) -> (notes: &Vec<Note>)
        ensures
            notes@ == self.opened_notes(),
    {
        &self.notes
    }
}

impl View for BlockUpdate {
    type V = StateView;

    closed spec fn view(&self) -> StateView {
        StateView {
            nullifiers: self.nullifier_tree@,
            chain: self.chain_mmr@,
            accounts: self.account_tree@,
        }
    }
}

/// Those of the incoming nullifiers that the tree already records.
fn find_duplicates(tree: &NullifierTree, nullifiers: &Vec<Digest>) -> (found: Vec<Digest>)
    ensures
        found@ == duplicated(tree@, nullifiers@),
{
    let mut found: Vec<Digest> = Vec::new();
    let mut i: usize = 0;
    while i < nullifiers.len()
        invariant
            i <= nullifiers.len(),
            found@ == duplicated(tree@, nullifiers@.take(i as int)),
        decreases nullifiers.len() - i,
    {
        let nullifier = nullifiers[i];
        let spent = tree.get_block_num(&nullifier) != 0;
        proof {
            assert(nullifiers@.take(i + 1).drop_last() =~= nullifiers@.take(i as int));
            assert(nullifiers@.take(i + 1).last() == nullifier);
        }
        if spent {
            found.push(nullifier);
        }
        i += 1;
    }
    proof {
        assert(nullifiers@.take(i as int) =~= nullifiers@);
    }
    found
}

/// Records every nullifier of the list as consumed in block `block_num`.
fn insert_nullifiers(tree: &mut NullifierTree, nullifiers: &Vec<Digest>, block_num: u32)
    ensures
        final(tree)@ == tree_write_all(old(tree)@, consumed_in(nullifiers@, block_num)),
{
    let ghost before = tree@;
    let mut i: usize = 0;
    while i < nullifiers.len()
        invariant
            i <= nullifiers.len(),
            tree@ == tree_write_all(before, consumed_in(nullifiers@.take(i as int), block_num)),
        decreases nullifiers.len() - i,
    {
        tree.insert(&nullifiers[i], block_num);
        proof {
            let done = consumed_in(nullifiers@.take(i as int), block_num);
            let next = consumed_in(nullifiers@.take(i + 1), block_num);
            assert(next.drop_last() =~= done);
            assert(next.last() == (nullifiers@[i as int], nullifier_value(block_num)));
        }
        i += 1;
    }
    proof {
        assert(nullifiers@.take(i as int) =~= nullifiers@);
    }
}

/// Writes the new state hash of every updated account.
fn insert_accounts(tree: &mut AccountTree, accounts: &Vec<ValidAccount>)
    ensures
        final(tree)@ == tree_write_all(old(tree)@, account_pairs(accounts@)),
{
    let ghost before = tree@;
    let mut i: usize = 0;
    while i < accounts.len()
        invariant
            i <= accounts.len(),
            tree@ == tree_write_all(before, account_pairs(accounts@.take(i as int))),
        decreases accounts.len() - i,
    {
        let account = &accounts[i];
        let _ = tree.insert(account.id, &account.hash);
        proof {
            let done = account_pairs(accounts@.take(i as int));
            let next = account_pairs(accounts@.take(i + 1));
            assert(next.drop_last() =~= done);
            assert(next.last() == (accounts@[i as int].id, accounts@[i as int].hash));
        }
        i += 1;
    }
    proof {
        assert(accounts@.take(i as int) =~= accounts@);
    }
}

/// Gives every note of the block its opening against the note tree.
fn open_notes(tree: &NoteTree, notes: Vec<NoteCreated>, block_num: u32) -> (opened: Vec<Note>)
    requires
        note_leaves_accepted(note_entries(notes@)),
    ensures
        opened@.len() == notes@.len(),
        forall|i: int|
            0 <= i < notes@.len() ==> {
                &&& (#[trigger] opened@[i]).block_num == block_num
                &&& opened@[i].note_created == notes@[i]
                &&& opened@[i].merkle_path@ == simple_smt_path(
                    NOTE_LEAF_DEPTH,
                    tree@,
                    note_leaf_index(notes@[i]) as u64,
                )
            },
{
    let ghost given = notes@;
    let ghost n = given.len() as int;
    let mut stack = notes;
    let mut reversed: Vec<NoteCreated> = Vec::new();
    while stack.len() > 0
        invariant
            n == given.len(),
            stack@.len() + reversed@.len() == n,
            forall|j: int| 0 <= j < stack@.len() ==> stack@[j] == given[j],
            forall|j: int| 0 <= j < reversed@.len() ==> reversed@[j] == given[n - 1 - j],
        decreases stack@.len(),
    {
        let note = stack.pop().unwrap();
        reversed.push(note);
    }
    let mut opened: Vec<Note> = Vec::new();
    while reversed.len() > 0
        invariant
            n == given.len(),
            opened@.len() + reversed@.len() == n,
            note_leaves_accepted(note_entries(given)),
            forall|j: int| 0 <= j < reversed@.len() ==> reversed@[j] == given[n - 1 - j],
            forall|i: int|
                0 <= i < opened@.len() ==> {
                    &&& (#[trigger] opened@[i]).block_num == block_num
                    &&& opened@[i].note_created == given[i]
                    &&& opened@[i].merkle_path@ == simple_smt_path(
                        NOTE_LEAF_DEPTH,
                        tree@,
                        note_leaf_index(given[i]) as u64,
                    )
                },
        decreases reversed@.len(),
    {
        let ghost i = opened@.len() as int;
        let note = reversed.pop().unwrap();
        assert(note == given[i]);
        proof {
            lemma_note_entries(given, i);
            assert(note_entries(given)[2 * i].0 < crate::note_tree::NOTE_TREE_LEAVES);
        }
        let index = note.absolute_note_index() * 2;
        let merkle_path = tree.open(index);
        opened.push(Note { block_num, note_created: note, merkle_path });
    }
    opened
}

impl State {
    /// Checks a new block against the state and computes the accumulators as
    /// they will be after it. The state itself is not changed: the caller
    /// commits the update once the durable store is ready to commit too.
    ///
    /// `prev_block` is the latest header of the durable store. The block is
    /// accepted exactly when [`block_verdict`] finds nothing (and the chain
    /// accumulator can count one more hash); otherwise the error names the
    /// first check that failed.
    pub fn apply_block(
        &self,
        prev_block: Option<BlockHeader>,
        block_header: BlockHeader,
        nullifiers: &Vec<Digest>,
        accounts: &Vec<ValidAccount>,
        notes: Vec<NoteCreated>,
    ) -> (r: Result<BlockUpdate, ApplyBlockError>)
        ensures
            r is Ok <==> block_verdict(
                self@,
                prev_block,
                block_header,
                nullifiers@,
                accounts@,
                notes@,
            ) is None && self@.chain.len() < usize::MAX,
            r matches Ok(update) ==> {
                &&& update@ == applied(self@, block_header, nullifiers@, accounts@)
                &&& update.header() == block_header
                &&& update.opened_notes().len() == notes@.len()
                &&& forall|i: int|
                    0 <= i < notes@.len() ==> {
                        &&& (#[trigger] update.opened_notes()[i]).block_num == block_header.block_num
                        &&& update.opened_notes()[i].note_created == notes@[i]
                        &&& update.opened_notes()[i].merkle_path@ == simple_smt_path(
                            NOTE_LEAF_DEPTH,
                            note_leaves(notes@),
                            note_leaf_index(notes@[i]) as u64,
                        )
                    }
            },
            r matches Err(e) ==> {
                &&& rejection_of(e) == block_verdict(
                    self@,
                    prev_block,
                    block_header,
                    nullifiers@,
                    accounts@,
                    notes@,
                )
                &&& (e matches ApplyBlockError::DuplicatedNullifiers(found) ==> found@ == duplicated(
                    self@.nullifiers,
                    nullifiers@,
                ))
                &&& (rejection_of(e) is None ==> e is ChainMmrFull)
            },
    {
        // ensures the right block header is being processed
        let prev_block = match prev_block {
            Some(header) => header,
            None => { return Err(ApplyBlockError::DbBlockHeaderEmpty); },
        };
        if prev_block.block_num == u32::MAX || block_header.block_num != prev_block.block_num + 1 {
            return Err(ApplyBlockError::NewBlockInvalidBlockNum);
        }
        if block_header.prev_hash != prev_block.hash() {
            return Err(ApplyBlockError::NewBlockInvalidPrevHash);
        }

        // nullifiers can be produced only once
        let duplicate_nullifiers = find_duplicates(&self.nullifier_tree, nullifiers);
        proof {
            lemma_duplicated_empty(self@.nullifiers, nullifiers@);
        }
        if duplicate_nullifiers.len() != 0 {
            return Err(ApplyBlockError::DuplicatedNullifiers(duplicate_nullifiers));
        }

        // the chain root of the header is that of the chain before the block
        let mut chain_mmr = self.chain_mmr.clone();
        let forest = chain_mmr.forest();
        let peaks = match chain_mmr.peaks(forest) {
            Ok(peaks) => peaks,
            Err(error) => {
                return Err(ApplyBlockError::FailedToGetMmrPeaksForForest { forest, error });
            },
        };
        proof {
            assert(self@.chain.take(forest as int) =~= self@.chain);
        }
        if peaks_hash(&peaks) != block_header.chain_root {
            return Err(ApplyBlockError::NewBlockInvalidChainRoot);
        }

        // update nullifier tree
        let mut nullifier_tree = self.nullifier_tree.clone();
        insert_nullifiers(&mut nullifier_tree, nullifiers, block_header.block_num);
        if nullifier_tree.root() != block_header.nullifier_root {
            return Err(ApplyBlockError::NewBlockInvalidNullifierRoot);
        }

        // update account tree
        let mut account_tree = self.account_tree.clone();
        insert_accounts(&mut account_tree, accounts);
        if account_tree.root() != block_header.account_root {
            return Err(ApplyBlockError::NewBlockInvalidAccountRoot);
        }

        // build notes tree
        let note_tree = match build_notes_tree(&notes) {
            Ok(tree) => tree,
            Err(e) => {
                proof {
                    if e is AccountError {
                        let k = choose|k: int|
                            first_refused(notes@, k) && !valid_account_id(notes@[k].sender);
                        lemma_first_refused_unique(notes@, k);
                    }
                    if e is NoteError {
                        let k = choose|k: int|
                            first_refused(notes@, k) && valid_account_id(notes@[k].sender);
                        lemma_first_refused_unique(notes@, k);
                    }
                }
                return Err(e);
            },
        };
        if note_tree.root() != block_header.note_root {
            return Err(ApplyBlockError::NewBlockInvalidNoteRoot);
        }
        let notes = open_notes(&note_tree, notes, block_header.block_num);

        // the block is accepted: its hash joins the chain
        if forest == usize::MAX {
            return Err(ApplyBlockError::ChainMmrFull);
        }
        chain_mmr.add(&block_header.hash());

        Ok(BlockUpdate { nullifier_tree, chain_mmr, account_tree, block_header, notes })
    }

    /// Puts the accumulators of an accepted block in place of the current
    /// ones, all three at once, and hands out the notes of the block.
    pub fn commit_block(&mut self, update: BlockUpdate) -> (notes: Vec<Note>)
        ensures
            final(self)@ == update@,
            notes@ == update.opened_notes(),
    {
        self.chain_mmr = update.chain_mmr;
        self.nullifier_tree = update.nullifier_tree;
        self.account_tree = update.account_tree;
        update.notes
    }
}

// ---------------------------------------------------------------------------
// Synchronising a client, and the inputs of the next block
// ---------------------------------------------------------------------------

/// Whether the chain accumulator can take a client that knows block
/// `block_num` to block `target`: the client's next block is not after the
/// target, and the accumulator reaches the target.
pub open spec fn delta_available(chain: Seq<Digest>, block_num: u32, target: u32) -> bool {
    block_num + 1 <= target <= chain.len()
}

/// The record that answers for account `id`: its state hash and its opening.
pub open spec fn account_record(accounts: Map<u64, Digest>, id: u64, record: AccountInputRecord) -> bool {
    &&& record.account_id == id
    &&& record.account_hash == tree_value(accounts, id)
    &&& record.proof@ == simple_smt_path(ACCOUNT_TREE_DEPTH, accounts, id)
}

/// Whether every identifier of the list is a valid account identifier.
pub open spec fn all_valid_accounts(ids: Seq<u64>) -> bool {
    forall|i: int| 0 <= i < ids.len() ==> valid_account_id(#[trigger] ids[i])
}

impl State {
    /// Loads data to synchronize a client.
    ///
    /// `block_num` is the last block known by the client, and `state_sync` is
    /// what was put together for the request; its header is the block that
    /// the client advances to. The update is handed back together with the
    /// delta for the client's view of the chain accumulator.
    ///
    /// A client that is at the target gets an empty delta that reports the
    /// size `block_num`. Otherwise the delta leads from the size
    /// `block_num + 1` to the size that is the target's number: the chain root
    /// in a header covers the blocks before it, and the client can add the
    /// block it knows by itself.
    pub fn sync_state(&self, block_num: u32, state_sync: StateSyncUpdate) -> (r: Result<
        (StateSyncUpdate, MmrDelta),
        StateSyncError,
    >)
        ensures
            r is Ok <==> block_num == state_sync.block_header.block_num || delta_available(
                self@.chain,
                block_num,
                state_sync.block_header.block_num,
            ),
            r matches Ok(pair) ==> {
                &&& pair.0 == state_sync
                &&& pair.1.forest == state_sync.block_header.block_num
                &&& block_num == state_sync.block_header.block_num ==> pair.1.data@.len() == 0
                &&& block_num != state_sync.block_header.block_num ==> pair.1.data@
                    == mmr_delta_data(
                    self@.chain,
                    (block_num + 1) as usize,
                    state_sync.block_header.block_num as usize,
                )
            },
            r matches Err(e) ==> e is FailedToBuildMmrDelta,
    {
        let target = state_sync.block_header.block_num;
        let delta = if block_num == target {
            // The client is in sync with the chain tip.
            MmrDelta { forest: block_num as usize, data: Vec::new() }
        } else {
            // the delta starts behind the client's block; where the machine cannot
            // count that far, the start lies beyond every target all the same
            let from_forest = if block_num as usize == usize::MAX {
                usize::MAX
            } else {
                block_num as usize + 1
            };
            let to_forest = target as usize;
            match self.chain_mmr.get_delta(from_forest, to_forest) {
                Ok(delta) => delta,
                Err(e) => { return Err(StateSyncError::FailedToBuildMmrDelta(e)); },
            }
        };
        Ok((state_sync, delta))
    }

    /// Returns data needed by the block producer to construct and prove the next block.
    ///
    /// `latest` is the latest header of the durable store. The peaks are
    /// those of the chain as of that header's number, one leaf behind the
    /// accumulator in memory: they are what the chain root of `latest`
    /// commits to. The accumulator must hold exactly one leaf more than the
    /// header's number; if it does not, memory and durable store disagree.
    pub fn get_block_inputs(
        &self,
        latest: Option<BlockHeader>,
        account_ids: &Vec<u64>,
        nullifiers: &Vec<Digest>,
    ) -> (r: Result<
        (BlockHeader, MmrPeaks, Vec<AccountInputRecord>, Vec<NullifierWitness>),
        GetBlockInputsError,
    >)
        ensures
            r is Ok <==> latest is Some && self@.chain.len() == latest->0.block_num + 1
                && all_valid_accounts(account_ids@),
            r matches Ok(inputs) ==> {
                &&& Some(inputs.0) == latest
                &&& inputs.1 == mmr_peaks_of(self@.chain.take(inputs.0.block_num as int))
                &&& inputs.2@.len() == account_ids@.len()
                &&& forall|i: int|
                    0 <= i < account_ids@.len() ==> account_record(
                        self@.accounts,
                        account_ids@[i],
                        #[trigger] inputs.2@[i],
                    )
                &&& inputs.3@.len() == nullifiers@.len()
                &&& forall|i: int|
                    0 <= i < nullifiers@.len() ==> (#[trigger] inputs.3@[i]).nullifier
                        == nullifiers@[i] && inputs.3@[i].proof == smt_opening(
                        self@.nullifiers,
                        nullifiers@[i],
                    )
            },
            r matches Err(e) ==> match e {
                GetBlockInputsError::DbBlockHeaderEmpty => latest is None,
                GetBlockInputsError::IncorrectChainMmrForestNumber { forest, block_num } => {
                    &&& latest is Some
                    &&& self@.chain.len() != latest->0.block_num + 1
                    &&& forest == self@.chain.len()
                    &&& block_num == latest->0.block_num
                },
                GetBlockInputsError::FailedToGetMmrPeaksForForest { .. } => false,
                GetBlockInputsError::AccountError(_) => {
                    &&& latest is Some
                    &&& self@.chain.len() == latest->0.block_num + 1
                    &&& !all_valid_accounts(account_ids@)
                },
            },
    {
        let header = match latest {
            Some(header) => header,
            None => { return Err(GetBlockInputsError::DbBlockHeaderEmpty); },
        };

        // sanity check
        let forest = self.chain_mmr.forest();
        if forest as u64 != header.block_num as u64 + 1 {
            return Err(
                GetBlockInputsError::IncorrectChainMmrForestNumber {
                    forest,
                    block_num: header.block_num,
                },
            );
        }
        // using current block number gets us the peaks of the chain MMR as of one block ago;
        // this is done so that latest.chain_root matches the returned peaks
        let peaks = match self.chain_mmr.peaks(header.block_num as usize) {
            Ok(peaks) => peaks,
            Err(error) => {
                return Err(
                    GetBlockInputsError::FailedToGetMmrPeaksForForest {
                        forest: header.block_num as usize,
                        error,
                    },
                );
            },
        };

        let mut account_states: Vec<AccountInputRecord> = Vec::new();
        let mut i: usize = 0;
        while i < account_ids.len()
            invariant
                i <= account_ids.len(),
                account_states@.len() == i,
                latest == Some(header),
                self@.chain.len() == header.block_num + 1,
                forall|j: int| 0 <= j < i ==> valid_account_id(#[trigger] account_ids@[j]),
                forall|j: int|
                    0 <= j < i ==> account_record(
                        self@.accounts,
                        account_ids@[j],
                        #[trigger] account_states@[j],
                    ),
            decreases account_ids.len() - i,
        {
            let account_id = account_ids[i];
            let witness = self.account_tree.open(account_id);
            match check_account_id(account_id) {
                Ok(()) => {},
                Err(e) => {
                    assert(!valid_account_id(account_ids@[i as int]));
                    return Err(GetBlockInputsError::AccountError(e));
                },
            }
            account_states.push(
                AccountInputRecord { account_id, account_hash: witness.hash, proof: witness.proof },
            );
            i += 1;
        }

        let mut nullifier_input_records: Vec<NullifierWitness> = Vec::new();
        let mut k: usize = 0;
        while k < nullifiers.len()
            invariant
                k <= nullifiers.len(),
                nullifier_input_records@.len() == k,
                forall|j: int|
                    0 <= j < k ==> (#[trigger] nullifier_input_records@[j]).nullifier
                        == nullifiers@[j] && nullifier_input_records@[j].proof == smt_opening(
                        self@.nullifiers,
                        nullifiers@[j],
                    ),
            decreases nullifiers.len() - k,
        {
            let nullifier = nullifiers[k];
            let proof = self.nullifier_tree.open(&nullifier);
            nullifier_input_records.push(NullifierWitness { nullifier, proof });
            k += 1;
        }

        Ok((header, peaks, account_states, nullifier_input_records))
    }
}

// ---------------------------------------------------------------------------
// Loading
// ---------------------------------------------------------------------------

/// Builds the nullifier tree from the recorded nullifiers.
pub fn load_nullifier_tree(nullifiers: &Vec<(Digest, u32)>) -> (r: Result<
    NullifierTree,
    StateInitializationError,
>)
    ensures
        r is Ok <==> distinct_keys(nullifiers@),
        r matches Ok(tree) ==> tree@ == tree_write_all(empty_tree::<Digest>(), recorded(nullifiers@)),
        r matches Err(e) ==> e is FailedToCreateNullifiersTree,
{
    match NullifierTree::with_entries(nullifiers) {
        Ok(tree) => Ok(tree),
        Err(e) => Err(StateInitializationError::FailedToCreateNullifiersTree(e)),
    }
}

/// Builds the chain accumulator from the hashes of all block headers, oldest first.
pub fn load_mmr(block_hashes: &Vec<Digest>) -> (chain: ChainMmr)
    ensures
        chain@ == block_hashes@,
{
    ChainMmr::from_hashes(block_hashes)
}

/// Builds the account tree from the latest state hash of every account.
pub fn load_accounts(accounts: &Vec<(u64, Digest)>) -> (r: Result<
    AccountTree,
    StateInitializationError,
>)
    ensures
        r is Ok <==> crate::account_tree::account_leaves_accepted(accounts@),
        r matches Ok(tree) ==> tree@ == tree_write_all(empty_tree::<u64>(), accounts@),
        r matches Err(e) ==> e is FailedToCreateAccountsTree,
{
    match AccountTree::with_leaves(accounts) {
        Ok(tree) => Ok(tree),
        Err(e) => Err(StateInitializationError::FailedToCreateAccountsTree(e)),
    }
}

} // verus!
