//! The requests that the store answers, as they arrive: nothing in them has
//! been checked yet.
use vstd::prelude::*;

verus! {

/// Four integers that claim to be a digest. Each has to be below the field
/// modulus before the store accepts it.
#[derive(Clone, Copy, Debug, Default, PartialEq, Eq, PartialOrd, Ord, Hash)]
pub struct WireDigest {
    pub d0: u64,
    pub d1: u64,
    pub d2: u64,
    pub d3: u64,
}

/// An integer that claims to be an account identifier.
#[derive(Clone, Copy, Debug, Default, PartialEq, Eq, PartialOrd, Ord, Hash)]
pub struct WireAccountId {
    pub id: u64,
}

/// A block header as it arrives; a digest that is missing makes it invalid.
#[derive(Clone, Debug, Default, PartialEq, Eq, PartialOrd, Ord, Hash)]
pub struct WireBlockHeader {
    pub prev_hash: Option<WireDigest>,
    pub block_num: u32,
    pub chain_root: Option<WireDigest>,
    pub account_root: Option<WireDigest>,
    pub nullifier_root: Option<WireDigest>,
    pub note_root: Option<WireDigest>,
    pub batch_root: Option<WireDigest>,
    pub proof_hash: Option<WireDigest>,
    pub version: u32,
    pub timestamp: u64,
}

/// A note created in a block, as it arrives.
#[derive(Clone, Debug, Default, PartialEq, Eq, PartialOrd, Ord, Hash)]
pub struct WireNoteCreated {
    pub batch_index: u32,
    pub note_index: u32,
    pub note_id: Option<WireDigest>,
    pub note_type: u32,
    pub sender: Option<WireAccountId>,
    pub tag: u32,
    pub details: Option<Vec<u8>>,
}

/// The details that come with the update of a public account, as far as the
/// store reads them.
#[derive(Clone, Copy, Debug, PartialEq, Eq, PartialOrd, Ord, Hash)]
pub enum WireAccountDetails {
    /// The whole account: its identifier and the hash of its state.
    Full { account_id: WireAccountId, account_hash: WireDigest },
    /// Only what changed.
    Delta,
}

#[derive(Clone, Copy, Debug, Default, PartialEq, Eq, PartialOrd, Ord, Hash)]
pub struct AccountUpdate {
    pub account_id: Option<WireAccountId>,
    pub account_hash: Option<WireDigest>,
    /// Details for public account.
    pub details: Option<WireAccountDetails>,
}

#[derive(Clone, Debug, Default, PartialEq, Eq, PartialOrd, Ord, Hash)]
pub struct ApplyBlockRequest {
    pub block: Option<WireBlockHeader>,
    pub accounts: Vec<AccountUpdate>,
    pub nullifiers: Vec<WireDigest>,
    pub notes: Vec<WireNoteCreated>,
}

#[derive(Clone, Debug, Default, PartialEq, Eq, PartialOrd, Ord, Hash)]
pub struct CheckNullifiersRequest {
    pub nullifiers: Vec<WireDigest>,
}

#[derive(Clone, Debug, Default, PartialEq, Eq, PartialOrd, Ord, Hash)]
pub struct GetBlockHeaderByNumberRequest {
    /// The block number of the target block.
    ///
    /// If not provided, means latest know block.
    pub block_num: Option<u32>,
}

/// State synchronization request.
///
/// Specifies state updates the client is intersted in. The server will return the first block
/// which
/// contains a note matching `note_tags` or the chain tip. And the corresponding updates to
/// `nullifiers` and `account_ids` for that block range.
#[derive(Clone, Debug, Default, PartialEq, Eq, PartialOrd, Ord, Hash)]
pub struct SyncStateRequest {
    /// Last block known by the client. The response will contain data starting from the next
    /// block,
    /// until the first block which contains a note of matching the requested tag, or the chain
    /// tip
    /// if there are no notes.
    pub block_num: u32,
    /// Accounts' hash to include in the response.
    ///
    /// An account hash will be included if-and-only-if it is the latest update. Meaning it is
    /// possible there was an update to the account for the given range, but if it is not the
    /// latest,
    /// it won't be included in the response.
    pub account_ids: Vec<WireAccountId>,
    /// Determines the tags which the client is interested in. These are only the 16high bits of
    /// the
    /// note's complete tag.
    pub note_tags: Vec<u32>,
    /// Determines the nullifiers the client is interested in.
    ///
    /// Similarly to the note_tags, this determins only the 16high bits of the target nullifier.
    pub nullifiers: Vec<u32>,
}

#[derive(Clone, Debug, Default, PartialEq, Eq, PartialOrd, Ord, Hash)]
pub struct GetBlockInputsRequest {
    /// ID of the account against which a transaction is executed.
    pub account_ids: Vec<WireAccountId>,
    /// Array of nullifiers for all notes consumed by a transaction.
    pub nullifiers: Vec<WireDigest>,
}

#[derive(Clone, Debug, Default, PartialEq, Eq, PartialOrd, Ord, Hash)]
pub struct GetTransactionInputsRequest {
    pub account_id: Option<WireAccountId>,
    pub nullifiers: Vec<WireDigest>,
}

#[derive(Clone, Debug, Default, PartialEq, Eq, PartialOrd, Ord, Hash)]
pub struct SubmitProvenTransactionRequest {
    /// Transaction encoded using miden's native format
    pub transaction: Vec<u8>,
}

#[derive(Clone, Debug, Default, PartialEq, Eq, PartialOrd, Ord, Hash)]
pub struct GetNotesByIdRequest {
    /// List of the identifiers of the notes to be returned.
    pub note_ids: Vec<WireDigest>,
}

#[derive(Clone, Debug, Default, PartialEq, Eq, PartialOrd, Ord, Hash)]
pub struct ListNullifiersRequest {}

#[derive(Clone, Debug, Default, PartialEq, Eq, PartialOrd, Ord, Hash)]
pub struct ListAccountsRequest {}

#[derive(Clone, Debug, Default, PartialEq, Eq, PartialOrd, Ord, Hash)]
pub struct ListNotesRequest {}

} // verus!
