//! Notes as the store records them.
use miden_objects::accounts::AccountId;
use miden_objects::notes::{NoteMetadata, NoteTag};
use miden_objects::{Felt, NoteError, ZERO};
use vstd::prelude::*;

use crate::account::valid_account_id;
use crate::digest::Digest;

verus! {

/// The most notes that one batch can create.
pub const MAX_NOTES_PER_BATCH: usize = 4096;

/// `NoteError` of the outside crate: why the metadata of a note could not be
/// built. Nothing is known of its contents.
#[verifier::external_type_specification]
#[verifier::external_body]
pub struct ExNoteError(NoteError);

/// How a note is shared with the network.
#[derive(Clone, Copy, Debug, PartialEq, Eq, Structural)]
pub enum NoteType {
    /// Notes with this type have only their hash published to the network.
    OffChain,
    /// Notes with type are shared with the network encrypted.
    Encrypted,
    /// Notes with this type are fully shared with the network.
    Public,
}

/// The number that stands for a note type: 1 public, 2 off chain, 3 encrypted.
pub open spec fn note_type_code(note_type: NoteType) -> u64 {
    match note_type {
        NoteType::Public => 1,
        NoteType::OffChain => 2,
        NoteType::Encrypted => 3,
    }
}

/// Whether a tag may go with a note type: the two highest bits of the tag
/// share no bit with the type's number.
pub open spec fn tag_fits_type(tag: u32, note_type: NoteType) -> bool {
    (tag >> 30) & (note_type_code(note_type) as u32) == 0
}

/// The word that stands for a note's metadata in a note tree: tag, sender,
/// type, and a zero.
pub open spec fn metadata_word(sender: u64, note_type: NoteType, tag: u32) -> Digest {
    Digest::from_elements(tag as u64, sender, note_type_code(note_type), 0)
}

/// `NoteMetadata::new` followed by the conversion of the metadata to a word.
/// Fails exactly when the tag does not go with the type. The sender has to be
/// a valid account identifier: the call does not check it again.
#[verifier::external_body]
pub(crate) fn note_metadata_word(sender: u64, note_type: NoteType, tag: u32) -> (r: Result<Digest, NoteError>)
    requires
        valid_account_id(sender),
    ensures
        r is Ok <==> tag_fits_type(tag, note_type),
        r matches Ok(word) ==> word == metadata_word(sender, note_type, tag),
{
    let note_type = match note_type {
        NoteType::OffChain => miden_objects::notes::NoteType::OffChain,
        NoteType::Encrypted => miden_objects::notes::NoteType::Encrypted,
        NoteType::Public => miden_objects::notes::NoteType::Public,
    };
    let sender = AccountId::new_unchecked(Felt::new(sender));
    let w: [Felt; 4] = NoteMetadata::new(sender, note_type, NoteTag::from(tag), ZERO)?.into();
    Ok(Digest { e0: w[0].as_int(), e1: w[1].as_int(), e2: w[2].as_int(), e3: w[3].as_int() })
}

impl NoteType {
    /// The number that stands for the type.
    pub fn code(&self) -> (code: u64)
        ensures
            code == note_type_code(*self),
    {
        match self {
            NoteType::Public => 1,
            NoteType::OffChain => 2,
            NoteType::Encrypted => 3,
        }
    }

    /// The type that a number stands for, if it stands for one.
    pub fn try_from(value: u64) -> (r: Option<NoteType>)
        ensures
            r matches Some(t) ==> note_type_code(t) == value,
            r is None ==> value < 1 || value > 3,
    {
        if value == 1 {
            Some(NoteType::Public)
        } else if value == 2 {
            Some(NoteType::OffChain)
        } else if value == 3 {
            Some(NoteType::Encrypted)
        } else {
            None
        }
    }
}

/// A note created in a block: its identifier, who sent it, its routing tag and
/// where it stands in the block.
#[derive(Clone, Debug, PartialEq, Eq)]
pub struct NoteCreated {
    /// The batch of the block that created the note.
    pub batch_index: u32,
    /// The place of the note within its batch.
    pub note_index: u32,
    pub note_id: Digest,
    pub note_type: NoteType,
    pub sender: u64,
    pub tag: u32,
    /// Opaque details of a public note.
    pub details: Option<Vec<u8>>,
}

/// The place of a note among all notes of its block.
pub open spec fn absolute_index(batch_index: u32, note_index: u32) -> int {
    batch_index * MAX_NOTES_PER_BATCH + note_index
}

impl NoteCreated {
    /// Returns the absolute note index in the note tree of the block.
    pub fn absolute_note_index(&self) -> (index: u64)
        ensures
            index == absolute_index(self.batch_index, self.note_index),
    {
        self.batch_index as u64 * 4096 + self.note_index as u64
    }
}

/// A note as the store keeps it: the note, the block that created it, and its
/// opening against the block's note root.
#[derive(Clone, Debug, PartialEq, Eq)]
pub struct Note {
    pub block_num: u32,
    pub note_created: NoteCreated,
    pub merkle_path: Vec<Digest>,
}

} // verus!
