//! Block headers and their hash.
use miden_objects::crypto::hash::rpo::RpoDigest;
use miden_objects::Felt;
use vstd::prelude::*;

use crate::digest::{Digest, FIELD_MODULUS};

verus! {

/// The header of a block: the commitments to the state of the chain after the
/// block, and the link to the block before it.
#[derive(Clone, Copy, Debug, PartialEq, Eq, Structural)]
pub struct BlockHeader {
    /// Hash of the previous block's header.
    pub prev_hash: Digest,
    /// Number of the block; each block has the number of the one before it plus one.
    pub block_num: u32,
    /// Commitment to the chain accumulator over all earlier blocks.
    pub chain_root: Digest,
    /// Root of the account tree after the block.
    pub account_root: Digest,
    /// Root of the nullifier tree after the block.
    pub nullifier_root: Digest,
    /// Root of the tree of the notes created in the block.
    pub note_root: Digest,
    /// Commitment to the transaction batches of the block.
    pub batch_root: Digest,
    /// Hash of the proof of the state transition.
    pub proof_hash: Digest,
    /// Protocol version: a field element, given as its integer below the
    /// field modulus.
    pub version: u64,
    /// Time at which the block was created: a field element, given as its
    /// integer below the field modulus.
    pub timestamp: u64,
}

/// The hash of a block header: a sequential hash of all fields but the note
/// root, merged with the note root. Version and timestamp go into it as
/// field elements: an integer that is not below the field modulus counts as
/// its remainder, so only canonical headers are told apart by their fields.
pub uninterp spec fn block_header_hash(header: BlockHeader) -> Digest;

/// `BlockHeader::new` followed by `BlockHeader::hash` of the outside crate:
/// the hash that it computes from the ten fields.
#[verifier::external_body]
fn header_hash(header: &BlockHeader) -> (hash: Digest)
    ensures
        hash == block_header_hash(*header),
{
    let (h, d) = (header, |d: &Digest| RpoDigest::new([d.e0, d.e1, d.e2, d.e3].map(Felt::new)));
    let r = miden_objects::BlockHeader::new(
        d(&h.prev_hash), h.block_num, d(&h.chain_root), d(&h.account_root), d(&h.nullifier_root),
        d(&h.note_root), d(&h.batch_root), d(&h.proof_hash), Felt::new(h.version), Felt::new(h.timestamp),
    ).hash();
    Digest { e0: r[0].as_int(), e1: r[1].as_int(), e2: r[2].as_int(), e3: r[3].as_int() }
}

impl BlockHeader {
    /// Whether version and timestamp are given as integers below the field
    /// modulus, as a header that comes in over the wire has to give them.
    pub open spec fn is_canonical(self) -> bool {
        self.version < FIELD_MODULUS && self.timestamp < FIELD_MODULUS
    }

    /// Whether version and timestamp are given as integers below the field modulus.
    pub fn check_canonical(&self) -> (r: bool)
        ensures
            r == self.is_canonical(),
    {
        self.version < FIELD_MODULUS && self.timestamp < FIELD_MODULUS
    }

    /// Creates a new block header.
    pub fn new(
        prev_hash: Digest,
        block_num: u32,
        chain_root: Digest,
        account_root: Digest,
        nullifier_root: Digest,
        note_root: Digest,
        batch_root: Digest,
        proof_hash: Digest,
        version: u64,
        timestamp: u64,
    ) -> (header: BlockHeader)
        ensures
            header == (BlockHeader {
                prev_hash,
                block_num,
                chain_root,
                account_root,
                nullifier_root,
                note_root,
                batch_root,
                proof_hash,
                version,
                timestamp,
            }),
    {
        BlockHeader {
            prev_hash,
            block_num,
            chain_root,
            account_root,
            nullifier_root,
            note_root,
            batch_root,
            proof_hash,
            version,
            timestamp,
        }
    }

    /// Returns the hash of the block header.
    pub fn hash(&self) -> (hash: Digest)
        ensures
            hash == block_header_hash(*self),
    {
        header_hash(self)
    }

    /// Returns the hash of the previous block header.
    pub fn prev_hash(&self) -> (r: Digest)
        ensures
            r == self.prev_hash,
    {
        self.prev_hash
    }

    /// Returns the block number.
    pub fn block_num(&self) -> (r: u32)
        ensures
            r == self.block_num,
    {
        self.block_num
    }

    /// Returns the chain root.
    pub fn chain_root(&self) -> (r: Digest)
        ensures
            r == self.chain_root,
    {
        self.chain_root
    }

    /// Returns the account tree root.
    pub fn account_root(&self) -> (r: Digest)
        ensures
            r == self.account_root,
    {
        self.account_root
    }

    /// Returns the nullifier tree root.
    pub fn nullifier_root(&self) -> (r: Digest)
        ensures
            r == self.nullifier_root,
    {
        self.nullifier_root
    }

    /// Returns the note root.
    pub fn note_root(&self) -> (r: Digest)
        ensures
            r == self.note_root,
    {
        self.note_root
    }
}

} // verus!
