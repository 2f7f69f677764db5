//! The ways in which the operations of the store fail.
use miden_objects::crypto::merkle::{MerkleError, MmrError};
use miden_objects::{AccountError, NoteError};
use vstd::prelude::*;

use crate::digest::Digest;

verus! {

/// Why the state could not be built from what the durable store holds.
#[derive(Debug)]
pub enum StateInitializationError {
    /// A nullifier is recorded twice.
    FailedToCreateNullifiersTree(MerkleError),
    /// An account is recorded twice.
    FailedToCreateAccountsTree(MerkleError),
}

/// Why a block was not applied. Nothing has been changed when one of these is returned.
#[derive(Debug)]
pub enum ApplyBlockError {
    /// Another block is being applied.
    ConcurrentWrite,
    /// The durable store holds no block header.
    DbBlockHeaderEmpty,
    /// The block's number is not the number of the latest block plus one.
    NewBlockInvalidBlockNum,
    /// The block does not name the hash of the latest block as its predecessor.
    NewBlockInvalidPrevHash,
    /// The block consumes nullifiers that are already recorded: these.
    DuplicatedNullifiers(Vec<Digest>),
    /// The peaks of the chain accumulator could not be had.
    FailedToGetMmrPeaksForForest { forest: usize, error: MmrError },
    /// The chain root of the header is not that of the chain accumulator.
    NewBlockInvalidChainRoot,
    /// The nullifier root of the header is not that of the updated nullifier tree.
    NewBlockInvalidNullifierRoot,
    /// The account root of the header is not that of the updated account tree.
    NewBlockInvalidAccountRoot,
    /// The note root of the header is not that of the tree of the block's notes.
    NewBlockInvalidNoteRoot,
    /// The sender of a note is not a valid account identifier.
    AccountError(AccountError),
    /// The tag of a note does not go with its type.
    NoteError(NoteError),
    /// The notes of the block do not fit one tree: two of them share a place,
    /// or one lies beyond the last leaf.
    FailedToCreateNotesTree(MerkleError),
    /// The task that writes the block to the durable store went away before it was ready.
    BlockApplyingBrokenBecauseOfClosedChannel,
    /// The chain accumulator holds as many block hashes as the machine can
    /// count: it takes no further block.
    ChainMmrFull,
    /// The durable store failed to commit, or never reported back, after the
    /// state in memory was swapped: memory and durable store may disagree, and
    /// the node has to be restarted.
    DurableCommitFailed,
    /// The application has not applied the block, and its course does not say
    /// why: it is still under way, or the verdict on the block says why.
    BlockNotApplied,
}

/// Why the inputs for the next block could not be given.
#[derive(Debug)]
pub enum GetBlockInputsError {
    /// The durable store holds no block header.
    DbBlockHeaderEmpty,
    /// The chain accumulator in memory does not hold one leaf per block up to
    /// the latest: memory and durable store disagree.
    IncorrectChainMmrForestNumber { forest: usize, block_num: u32 },
    /// The peaks of the chain accumulator could not be had.
    FailedToGetMmrPeaksForForest { forest: usize, error: MmrError },
    /// A requested account identifier is not valid.
    AccountError(AccountError),
}

/// Why a client could not be brought up to date.
#[derive(Debug)]
pub enum StateSyncError {
    /// The chain accumulator cannot give the delta that was asked for.
    FailedToBuildMmrDelta(MmrError),
}

} // verus!
