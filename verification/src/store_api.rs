//! The checks that a request has to pass before the store acts on it. A
//! request that fails one is refused as an invalid argument, and nothing of
//! the state is read or changed on its account.
use vstd::prelude::*;

use crate::account::{digest_of, update_verdict, ConversionError, ValidAccount};
use crate::block_header::BlockHeader;
use crate::digest::{Digest, FIELD_MODULUS};
use crate::merkle::tree_value;
use crate::errors::ApplyBlockError;
use crate::notes::{Note, NoteCreated, NoteType};
use crate::requests::{
    AccountUpdate, ApplyBlockRequest, WireAccountId, WireBlockHeader, WireDigest, WireNoteCreated,
};
use crate::state::{rejection_of, BlockRejection, State};

verus! {

/// Why a request was refused before the store acted on it.
#[derive(Clone, Copy, Debug, PartialEq, Eq, Structural)]
pub enum InvalidArgument {
    /// A digest holds an integer that is not below the field modulus.
    DigestNotInField,
    /// The request carries no block header.
    MissingBlockHeader,
    /// The block header lacks one of its digests.
    MissingHeaderField,
    /// An account update was refused: this is why.
    AccountUpdate(ConversionError),
    /// A note carries no identifier.
    NoteMissingId,
    /// The number of a note's type stands for no type.
    InvalidNoteType,
    /// A note names no sender.
    NoteMissingSender,
    /// The request names no account.
    MissingAccountId,
    /// The timestamp of the block header is not below the field modulus.
    TimestampNotInField,
    /// The request asks for a note that the store does not hold.
    UnknownNoteId,
}

/// The block that a request asks to apply, once every part of it has been checked.
pub struct BlockData {
    pub block_header: BlockHeader,
    pub nullifiers: Vec<Digest>,
    pub accounts: Vec<ValidAccount>,
    pub notes: Vec<NoteCreated>,
}

// ---------------------------------------------------------------------------
// Digests
// ---------------------------------------------------------------------------

/// Whether every one of the digests is made of field elements.
pub open spec fn all_digests_valid(wire: Seq<WireDigest>) -> bool {
    forall|i: int| 0 <= i < wire.len() ==> digest_of(#[trigger] wire[i]) is Some
}

/// Whether `digests` are the digests that `wire` stands for, one by one.
pub open spec fn digests_match(wire: Seq<WireDigest>, digests: Seq<Digest>) -> bool {
    &&& digests.len() == wire.len()
    &&& forall|i: int| 0 <= i < wire.len() ==> digest_of(#[trigger] wire[i]) == Some(digests[i])
}

/// Turns the digests of a request into digests, stopping at the first that is
/// not made of field elements.
pub fn validate_digests(wire: &Vec<WireDigest>) -> (r: Result<Vec<Digest>, InvalidArgument>)
    ensures
        r is Ok <==> all_digests_valid(wire@),
        r matches Ok(digests) ==> digests_match(wire@, digests@),
        r matches Err(e) ==> e == InvalidArgument::DigestNotInField,
{
    let mut digests: Vec<Digest> = Vec::new();
    let mut i: usize = 0;
    while i < wire.len()
        invariant
            i <= wire.len(),
            digests@.len() == i,
            forall|j: int| 0 <= j < i ==> digest_of(#[trigger] wire@[j]) == Some(digests@[j]),
        decreases wire.len() - i,
    {
        let w = &wire[i];
        match Digest::new(w.d0, w.d1, w.d2, w.d3) {
            Some(d) => digests.push(d),
            None => {
                assert(digest_of(wire@[i as int]) is None);
                return Err(InvalidArgument::DigestNotInField);
            },
        }
        i += 1;
    }
    Ok(digests)
}

/// Validates the nullifiers of a request and converts them to digests. Stops on first error.
pub fn validate_nullifiers(nullifiers: &Vec<WireDigest>) -> (r: Result<Vec<Digest>, InvalidArgument>)
    ensures
        r is Ok <==> all_digests_valid(nullifiers@),
        r matches Ok(digests) ==> digests_match(nullifiers@, digests@),
        r matches Err(e) ==> e == InvalidArgument::DigestNotInField,
{
    validate_digests(nullifiers)
}

/// The account identifiers of a request, as the integers they are.
pub fn account_ids(ids: &Vec<WireAccountId>) -> (r: Vec<u64>)
    ensures
        r@.len() == ids@.len(),
        forall|i: int| 0 <= i < ids@.len() ==> #[trigger] r@[i] == ids@[i].id,
{
    let mut r: Vec<u64> = Vec::new();
    let mut i: usize = 0;
    while i < ids.len()
        invariant
            i <= ids.len(),
            r@.len() == i,
            forall|j: int| 0 <= j < i ==> #[trigger] r@[j] == ids@[j].id,
        decreases ids.len() - i,
    {
        r.push(ids[i].id);
        i += 1;
    }
    r
}

/// Whether the store holds a note with the identifier `note_id` among `found`.
pub open spec fn note_known(found: Seq<Note>, note_id: Digest) -> bool {
    exists|j: int| 0 <= j < found.len() && found[j].note_created.note_id == note_id
}

/// Checks what the store found against what was asked for: every identifier
/// of the request has to be that of a note that was found. A request that
/// asks for a note that the store does not hold is refused.
pub fn check_notes_known(note_ids: &Vec<Digest>, found: &Vec<Note>) -> (r: Result<
    (),
    InvalidArgument,
>)
    ensures
        r is Ok <==> forall|i: int|
            0 <= i < note_ids@.len() ==> note_known(found@, #[trigger] note_ids@[i]),
        r matches Err(e) ==> e == InvalidArgument::UnknownNoteId,
{
    let mut i: usize = 0;
    while i < note_ids.len()
        invariant
            i <= note_ids.len(),
            forall|k: int| 0 <= k < i ==> note_known(found@, #[trigger] note_ids@[k]),
        decreases note_ids.len() - i,
    {
        let note_id = note_ids[i];
        let mut known = false;
        let mut j: usize = 0;
        while j < found.len() && !known
            invariant
                j <= found.len(),
                known ==> note_known(found@, note_id),
                !known ==> forall|m: int| 0 <= m < j ==> found@[m].note_created.note_id != note_id,
            decreases found.len() - j + (if known { 0int } else { 1int }),
        {
            if found[j].note_created.note_id == note_id {
                known = true;
            } else {
                j += 1;
            }
        }
        if !known {
            assert(!note_known(found@, note_ids@[i as int]));
            return Err(InvalidArgument::UnknownNoteId);
        }
        i += 1;
    }
    Ok(())
}

/// The account of a request for the inputs of a transaction; it has to be there.
pub fn required_account_id(id: &Option<WireAccountId>) -> (r: Result<u64, InvalidArgument>)
    ensures
        r matches Ok(account) ==> *id == Some(WireAccountId { id: account }),
        r matches Err(e) ==> *id is None && e == InvalidArgument::MissingAccountId,
{
    match id {
        Some(account) => Ok(account.id),
        None => Err(InvalidArgument::MissingAccountId),
    }
}

// ---------------------------------------------------------------------------
// Block headers
// ---------------------------------------------------------------------------

/// The digest in a field of a block header: it has to be there and to be made
/// of field elements.
pub open spec fn header_field(field: Option<WireDigest>) -> Result<Digest, InvalidArgument> {
    match field {
        None => Err(InvalidArgument::MissingHeaderField),
        Some(wire) => match digest_of(wire) {
            Some(d) => Ok(d),
            None => Err(InvalidArgument::DigestNotInField),
        },
    }
}

/// The block header that a request carries, or the error of its first field
/// that is missing or no digest. The fields are read in the order in which
/// the header lists them, the digests first. The timestamp has to be a field
/// element, given as its integer below the field modulus; the version always
/// is one. So the header that is read is canonical, and no two requests with
/// different fields give headers with the same hash input.
pub open spec fn header_verdict(wire: WireBlockHeader) -> Result<BlockHeader, InvalidArgument> {
    if header_field(wire.prev_hash) is Err {
        Err(header_field(wire.prev_hash)->Err_0)
    } else if header_field(wire.chain_root) is Err {
        Err(header_field(wire.chain_root)->Err_0)
    } else if header_field(wire.account_root) is Err {
        Err(header_field(wire.account_root)->Err_0)
    } else if header_field(wire.nullifier_root) is Err {
        Err(header_field(wire.nullifier_root)->Err_0)
    } else if header_field(wire.note_root) is Err {
        Err(header_field(wire.note_root)->Err_0)
    } else if header_field(wire.batch_root) is Err {
        Err(header_field(wire.batch_root)->Err_0)
    } else if header_field(wire.proof_hash) is Err {
        Err(header_field(wire.proof_hash)->Err_0)
    } else if wire.timestamp >= FIELD_MODULUS {
        Err(InvalidArgument::TimestampNotInField)
    } else {
        Ok(
            BlockHeader {
                prev_hash: header_field(wire.prev_hash)->Ok_0,
                block_num: wire.block_num,
                chain_root: header_field(wire.chain_root)->Ok_0,
                account_root: header_field(wire.account_root)->Ok_0,
                nullifier_root: header_field(wire.nullifier_root)->Ok_0,
                note_root: header_field(wire.note_root)->Ok_0,
                batch_root: header_field(wire.batch_root)->Ok_0,
                proof_hash: header_field(wire.proof_hash)->Ok_0,
                version: wire.version as u64,
                timestamp: wire.timestamp,
            },
        )
    }
}

fn convert_header_field(field: &Option<WireDigest>) -> (r: Result<Digest, InvalidArgument>)
    ensures
        r == header_field(*field),
{
    match field {
        None => Err(InvalidArgument::MissingHeaderField),
        Some(w) => match Digest::new(w.d0, w.d1, w.d2, w.d3) {
            Some(d) => Ok(d),
            None => Err(InvalidArgument::DigestNotInField),
        },
    }
}

/// Reads the block header of a request.
pub fn convert_block_header(wire: &WireBlockHeader) -> (r: Result<BlockHeader, InvalidArgument>)
    ensures
        r == header_verdict(*wire),
        r matches Ok(header) ==> header.is_canonical(),
{
    let prev_hash = match convert_header_field(&wire.prev_hash) {
        Ok(d) => d,
        Err(e) => { return Err(e); },
    };
    let chain_root = match convert_header_field(&wire.chain_root) {
        Ok(d) => d,
        Err(e) => { return Err(e); },
    };
    let account_root = match convert_header_field(&wire.account_root) {
        Ok(d) => d,
        Err(e) => { return Err(e); },
    };
    let nullifier_root = match convert_header_field(&wire.nullifier_root) {
        Ok(d) => d,
        Err(e) => { return Err(e); },
    };
    let note_root = match convert_header_field(&wire.note_root) {
        Ok(d) => d,
        Err(e) => { return Err(e); },
    };
    let batch_root = match convert_header_field(&wire.batch_root) {
        Ok(d) => d,
        Err(e) => { return Err(e); },
    };
    let proof_hash = match convert_header_field(&wire.proof_hash) {
        Ok(d) => d,
        Err(e) => { return Err(e); },
    };
    if wire.timestamp >= FIELD_MODULUS {
        return Err(InvalidArgument::TimestampNotInField);
    }
    Ok(
        BlockHeader::new(
            prev_hash,
            wire.block_num,
            chain_root,
            account_root,
            nullifier_root,
            note_root,
            batch_root,
            proof_hash,
            wire.version as u64,
            wire.timestamp,
        ),
    )
}

// ---------------------------------------------------------------------------
// Notes
// ---------------------------------------------------------------------------

/// The type that the number in a request stands for.
pub open spec fn note_type_of(value: u32) -> Option<NoteType> {
    if value == 1 {
        Some(NoteType::Public)
    } else if value == 2 {
        Some(NoteType::OffChain)
    } else if value == 3 {
        Some(NoteType::Encrypted)
    } else {
        None
    }
}

/// The note that a request carries, or why it is refused: its identifier has
/// to be there and be a digest, its type has to be one, and its sender has to
/// be named.
pub open spec fn note_verdict(wire: WireNoteCreated) -> Result<NoteCreated, InvalidArgument> {
    if wire.note_id is None {
        Err(InvalidArgument::NoteMissingId)
    } else if digest_of(wire.note_id->0) is None {
        Err(InvalidArgument::DigestNotInField)
    } else if note_type_of(wire.note_type) is None {
        Err(InvalidArgument::InvalidNoteType)
    } else if wire.sender is None {
        Err(InvalidArgument::NoteMissingSender)
    } else {
        Ok(
            NoteCreated {
                batch_index: wire.batch_index,
                note_index: wire.note_index,
                note_id: digest_of(wire.note_id->0)->0,
                note_type: note_type_of(wire.note_type)->0,
                sender: wire.sender->0.id,
                tag: wire.tag,
                details: wire.details,
            },
        )
    }
}

/// Reads one note of a request.
pub fn convert_note(wire: WireNoteCreated) -> (r: Result<NoteCreated, InvalidArgument>)
    ensures
        r == note_verdict(wire),
{
    let note_id = match wire.note_id {
        None => { return Err(InvalidArgument::NoteMissingId); },
        Some(w) => match Digest::new(w.d0, w.d1, w.d2, w.d3) {
            Some(d) => d,
            None => { return Err(InvalidArgument::DigestNotInField); },
        },
    };
    let note_type = match NoteType::try_from(wire.note_type as u64) {
        Some(t) => t,
        None => { return Err(InvalidArgument::InvalidNoteType); },
    };
    let sender = match wire.sender {
        Some(s) => s.id,
        None => { return Err(InvalidArgument::NoteMissingSender); },
    };
    Ok(
        NoteCreated {
            batch_index: wire.batch_index,
            note_index: wire.note_index,
            note_id,
            note_type,
            sender,
            tag: wire.tag,
            details: wire.details,
        },
    )
}

/// Whether `i` is the first note of the request that is refused.
pub open spec fn first_bad_note(wire: Seq<WireNoteCreated>, i: int) -> bool {
    &&& 0 <= i < wire.len()
    &&& note_verdict(wire[i]) is Err
    &&& forall|j: int| 0 <= j < i ==> note_verdict(#[trigger] wire[j]) is Ok
}

/// Whether every note of the request is accepted.
pub open spec fn all_notes_ok(wire: Seq<WireNoteCreated>) -> bool {
    forall|j: int| 0 <= j < wire.len() ==> note_verdict(#[trigger] wire[j]) is Ok
}

/// Reads the notes of a request, in order, stopping at the first that is refused.
pub fn convert_notes(wire: Vec<WireNoteCreated>) -> (r: Result<Vec<NoteCreated>, InvalidArgument>)
    ensures
        r is Ok <==> all_notes_ok(wire@),
        r matches Ok(notes) ==> notes@.len() == wire@.len() && forall|i: int|
            0 <= i < wire@.len() ==> note_verdict(wire@[i]) == Ok::<NoteCreated, InvalidArgument>(
                #[trigger] notes@[i],
            ),
        r matches Err(e) ==> exists|i: int|
            first_bad_note(wire@, i) && note_verdict(wire@[i]) == Err::<NoteCreated, InvalidArgument>(e),
{
    let ghost given = wire@;
    let ghost n = given.len() as int;
    let mut stack = wire;
    let mut reversed: Vec<WireNoteCreated> = Vec::new();
    while stack.len() > 0
        invariant
            n == given.len(),
            stack@.len() + reversed@.len() == n,
            forall|j: int| 0 <= j < stack@.len() ==> stack@[j] == given[j],
            forall|j: int| 0 <= j < reversed@.len() ==> reversed@[j] == given[n - 1 - j],
        decreases stack@.len(),
    {
        let note = stack.pop().unwrap();
        reversed.push(note);
    }
    let mut notes: Vec<NoteCreated> = Vec::new();
    while reversed.len() > 0
        invariant
            n == given.len(),
            given == wire@,
            notes@.len() + reversed@.len() == n,
            forall|j: int| 0 <= j < reversed@.len() ==> reversed@[j] == given[n - 1 - j],
            forall|i: int| 0 <= i < notes@.len() ==> note_verdict(#[trigger] given[i]) is Ok,
            forall|i: int|
                0 <= i < notes@.len() ==> note_verdict(given[i]) == Ok::<
                    NoteCreated,
                    InvalidArgument,
                >(#[trigger] notes@[i]),
        decreases reversed@.len(),
    {
        let ghost i = notes@.len() as int;
        let note = reversed.pop().unwrap();
        assert(note == given[i]);
        match convert_note(note) {
            Ok(created) => notes.push(created),
            Err(e) => {
                assert(first_bad_note(given, i));
                return Err(e);
            },
        }
    }
    Ok(notes)
}

// ---------------------------------------------------------------------------
// Account updates
// ---------------------------------------------------------------------------

/// The state hash that the store records for the account of an update before
/// the update: all zero where the update names no account or the store does
/// not know it.
pub open spec fn prior_hash(accounts: Map<u64, Digest>, update: AccountUpdate) -> Digest {
    match update.account_id {
        Some(account) => tree_value(accounts, account.id),
        None => Digest::empty(),
    }
}

/// Whether `i` is the first account update of the request that is refused.
pub open spec fn first_bad_update(accounts: Map<u64, Digest>, updates: Seq<AccountUpdate>, i: int) -> bool {
    &&& 0 <= i < updates.len()
    &&& update_verdict(updates[i], prior_hash(accounts, updates[i])) is Err
    &&& forall|j: int|
        0 <= j < i ==> update_verdict(#[trigger] updates[j], prior_hash(accounts, updates[j])) is Ok
}

/// Whether every account update of the request is accepted.
pub open spec fn all_updates_ok(accounts: Map<u64, Digest>, updates: Seq<AccountUpdate>) -> bool {
    forall|j: int|
        0 <= j < updates.len() ==> update_verdict(
            #[trigger] updates[j],
            prior_hash(accounts, updates[j]),
        ) is Ok
}

/// Checks the account updates of a request against the rules for accounts,
/// each against the state that the store records for its account. Stops at
/// the first update that is refused.
pub fn validate_account_updates(state: &State, updates: &Vec<AccountUpdate>) -> (r: Result<
    Vec<ValidAccount>,
    InvalidArgument,
>)
    ensures
        r is Ok <==> all_updates_ok(state@.accounts, updates@),
        r matches Ok(accounts) ==> accounts@.len() == updates@.len() && forall|i: int|
            0 <= i < updates@.len() ==> update_verdict(
                updates@[i],
                prior_hash(state@.accounts, updates@[i]),
            ) == Ok::<ValidAccount, ConversionError>(#[trigger] accounts@[i]),
        r matches Err(e) ==> exists|i: int|
            first_bad_update(state@.accounts, updates@, i) && update_verdict(
                updates@[i],
                prior_hash(state@.accounts, updates@[i]),
            ) == Err::<ValidAccount, ConversionError>(e->AccountUpdate_0) && e is AccountUpdate,
{
    let mut accounts: Vec<ValidAccount> = Vec::new();
    let mut i: usize = 0;
    while i < updates.len()
        invariant
            i <= updates.len(),
            accounts@.len() == i,
            forall|j: int|
                0 <= j < i ==> update_verdict(
                    #[trigger] updates@[j],
                    prior_hash(state@.accounts, updates@[j]),
                ) is Ok,
            forall|j: int|
                0 <= j < i ==> update_verdict(
                    updates@[j],
                    prior_hash(state@.accounts, updates@[j]),
                ) == Ok::<ValidAccount, ConversionError>(#[trigger] accounts@[j]),
        decreases updates.len() - i,
    {
        let update = &updates[i];
        let initial = match update.account_id {
            Some(account) => state.get_account_hash(account.id),
            None => Digest::zero(),
        };
        match ValidAccount::try_from(update, &initial) {
            Ok(account) => accounts.push(account),
            Err(e) => {
                assert(first_bad_update(state@.accounts, updates@, i as int));
                return Err(InvalidArgument::AccountUpdate(e));
            },
        }
        i += 1;
    }
    Ok(accounts)
}

// ---------------------------------------------------------------------------
// The request to apply a block
// ---------------------------------------------------------------------------

/// Reads a request to apply a block. The parts are checked in this order:
/// the header, the nullifiers, the account updates, the notes; the error is
/// that of the first part that is refused.
pub fn parse_apply_block_request(state: &State, request: ApplyBlockRequest) -> (r: Result<
    BlockData,
    InvalidArgument,
>)
    ensures
        r is Ok <==> {
            &&& request.block is Some
            &&& header_verdict(request.block->0) is Ok
            &&& all_digests_valid(request.nullifiers@)
            &&& all_updates_ok(state@.accounts, request.accounts@)
            &&& all_notes_ok(request.notes@)
        },
        r matches Ok(data) ==> {
            &&& header_verdict(request.block->0) == Ok::<BlockHeader, InvalidArgument>(
                data.block_header,
            )
            &&& digests_match(request.nullifiers@, data.nullifiers@)
            &&& data.accounts@.len() == request.accounts@.len()
            &&& forall|i: int|
                0 <= i < request.accounts@.len() ==> update_verdict(
                    request.accounts@[i],
                    prior_hash(state@.accounts, request.accounts@[i]),
                ) == Ok::<ValidAccount, ConversionError>(#[trigger] data.accounts@[i])
            &&& data.notes@.len() == request.notes@.len()
            &&& forall|i: int|
                0 <= i < request.notes@.len() ==> note_verdict(request.notes@[i]) == Ok::<
                    NoteCreated,
                    InvalidArgument,
                >(#[trigger] data.notes@[i])
        },
        r matches Err(e) ==> {
            ||| request.block is None && e == InvalidArgument::MissingBlockHeader
            ||| request.block is Some && header_verdict(request.block->0) == Err::<
                BlockHeader,
                InvalidArgument,
            >(e)
            ||| request.block is Some && header_verdict(request.block->0) is Ok
                && !all_digests_valid(request.nullifiers@) && e
                == InvalidArgument::DigestNotInField
            ||| request.block is Some && header_verdict(request.block->0) is Ok
                && all_digests_valid(request.nullifiers@) && e is AccountUpdate && exists|i: int|
                first_bad_update(state@.accounts, request.accounts@, i) && update_verdict(
                    request.accounts@[i],
                    prior_hash(state@.accounts, request.accounts@[i]),
                ) == Err::<ValidAccount, ConversionError>(e->AccountUpdate_0)
            ||| request.block is Some && header_verdict(request.block->0) is Ok
                && all_digests_valid(request.nullifiers@) && all_updates_ok(
                state@.accounts,
                request.accounts@,
            ) && exists|i: int|
                first_bad_note(request.notes@, i) && note_verdict(request.notes@[i]) == Err::<
                    NoteCreated,
                    InvalidArgument,
                >(e)
        },
{
    let block_header = match &request.block {
        None => { return Err(InvalidArgument::MissingBlockHeader); },
        Some(wire) => match convert_block_header(wire) {
            Ok(header) => header,
            Err(e) => { return Err(e); },
        },
    };
    let nullifiers = match validate_nullifiers(&request.nullifiers) {
        Ok(nullifiers) => nullifiers,
        Err(e) => { return Err(e); },
    };
    let accounts = match validate_account_updates(state, &request.accounts) {
        Ok(accounts) => accounts,
        Err(e) => { return Err(e); },
    };
    let notes = match convert_notes(request.notes) {
        Ok(notes) => notes,
        Err(e) => { return Err(e); },
    };
    Ok(BlockData { block_header, nullifiers, accounts, notes })
}

// ---------------------------------------------------------------------------
// The answer to a request to apply a block
// ---------------------------------------------------------------------------

/// Why a block was not applied, as the one who sent it is told.
#[derive(Clone, Copy, Debug, PartialEq, Eq, Structural)]
pub enum Refusal {
    /// The block failed this check. Nothing was changed; a corrected block
    /// may be sent.
    InvalidBlock(BlockRejection),
    /// Another block was being applied. Nothing was changed; the same block
    /// may be sent again later.
    Contention,
    /// The store failed inside: the handoff with the durable store broke, the
    /// commit failed after the swap, or an accumulator could not answer. The
    /// block is not to be sent again before the node was looked after.
    Internal,
}

/// The class of an error of a block application.
pub open spec fn refusal_of(error: ApplyBlockError) -> Refusal {
    match rejection_of(error) {
        Some(rejection) => Refusal::InvalidBlock(rejection),
        None => if error is ConcurrentWrite {
            Refusal::Contention
        } else {
            Refusal::Internal
        },
    }
}

/// The answer to a request to apply a block, from what became of the
/// application: success exactly when the block was applied, else the class of
/// the error.
pub fn answer_of(outcome: &Result<(), ApplyBlockError>) -> (r: Result<(), Refusal>)
    ensures
        r is Ok <==> *outcome is Ok,
        r matches Err(refusal) ==> *outcome matches Err(error) && refusal == refusal_of(error),
{
    match outcome {
        Ok(()) => Ok(()),
        Err(error) => Err(
            match error {
                ApplyBlockError::DbBlockHeaderEmpty => Refusal::InvalidBlock(
                    BlockRejection::NoPreviousBlock,
                ),
                ApplyBlockError::NewBlockInvalidBlockNum => Refusal::InvalidBlock(
                    BlockRejection::InvalidBlockNum,
                ),
                ApplyBlockError::NewBlockInvalidPrevHash => Refusal::InvalidBlock(
                    BlockRejection::InvalidPrevHash,
                ),
                ApplyBlockError::DuplicatedNullifiers(_) => Refusal::InvalidBlock(
                    BlockRejection::DuplicatedNullifiers,
                ),
                ApplyBlockError::NewBlockInvalidChainRoot => Refusal::InvalidBlock(
                    BlockRejection::InvalidChainRoot,
                ),
                ApplyBlockError::NewBlockInvalidNullifierRoot => Refusal::InvalidBlock(
                    BlockRejection::InvalidNullifierRoot,
                ),
                ApplyBlockError::NewBlockInvalidAccountRoot => Refusal::InvalidBlock(
                    BlockRejection::InvalidAccountRoot,
                ),
                ApplyBlockError::AccountError(_) => Refusal::InvalidBlock(
                    BlockRejection::InvalidNoteSender,
                ),
                ApplyBlockError::NoteError(_) => Refusal::InvalidBlock(
                    BlockRejection::InvalidNoteTag,
                ),
                ApplyBlockError::FailedToCreateNotesTree(_) => Refusal::InvalidBlock(
                    BlockRejection::NotesDoNotFit,
                ),
                ApplyBlockError::NewBlockInvalidNoteRoot => Refusal::InvalidBlock(
                    BlockRejection::InvalidNoteRoot,
                ),
                ApplyBlockError::ConcurrentWrite => Refusal::Contention,
                ApplyBlockError::FailedToGetMmrPeaksForForest { .. } => Refusal::Internal,
                ApplyBlockError::BlockApplyingBrokenBecauseOfClosedChannel => Refusal::Internal,
                ApplyBlockError::ChainMmrFull => Refusal::Internal,
                ApplyBlockError::DurableCommitFailed => Refusal::Internal,
                ApplyBlockError::BlockNotApplied => Refusal::Internal,
            },
        ),
    }
}

} // verus!
