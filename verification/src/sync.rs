//! What a client is told when it asks to be brought up to date: the block to
//! advance to, and what changed for it up to that block.
use vstd::prelude::*;

use crate::block_header::BlockHeader;
use crate::digest::Digest;
use crate::notes::Note;
use crate::state::{AccountInfo, NullifierInfo, StateSyncUpdate};

verus! {

/// The 16 high bits of a note's tag: the family of notes that a client asks for.
pub open spec fn tag_prefix(tag: u32) -> u32 {
    tag >> 16
}

/// The 16 high bits of a nullifier: those of its last element.
pub open spec fn nullifier_prefix(nullifier: Digest) -> u32 {
    (nullifier@[3] >> 48) as u32
}

/// Whether the note is of a family that the client asks for.
pub open spec fn note_wanted(note: Note, tag_prefixes: Seq<u32>) -> bool {
    tag_prefixes.contains(tag_prefix(note.note_created.tag))
}

/// Whether the note is of a wanted family and was created after block
/// `block_num`, not after block `chain_tip`.
pub open spec fn note_in_reach(note: Note, tag_prefixes: Seq<u32>, block_num: u32, chain_tip: u32) -> bool {
    note_wanted(note, tag_prefixes) && block_num < note.block_num <= chain_tip
}

/// Whether `target` is the block that a client at `block_num` advances to:
/// the first block after `block_num` with a note of a wanted family, or the
/// chain tip if there is none up to it.
pub open spec fn is_sync_target(
    notes: Seq<Note>,
    tag_prefixes: Seq<u32>,
    block_num: u32,
    chain_tip: u32,
    target: u32,
) -> bool {
    if exists|i: int| 0 <= i < notes.len() && note_in_reach(#[trigger] notes[i], tag_prefixes, block_num, chain_tip) {
        &&& exists|i: int|
            0 <= i < notes.len() && note_in_reach(#[trigger] notes[i], tag_prefixes, block_num, chain_tip)
                && notes[i].block_num == target
        &&& forall|i: int|
            0 <= i < notes.len() && note_in_reach(#[trigger] notes[i], tag_prefixes, block_num, chain_tip)
                ==> target <= notes[i].block_num
    } else {
        target == chain_tip
    }
}

/// The items of a list that are to be kept, in their order.
pub open spec fn kept<T>(items: Seq<T>, keep: spec_fn(T) -> bool) -> Seq<T>
    decreases items.len(),
{
    if items.len() == 0 {
        Seq::empty()
    } else {
        let front = kept(items.drop_last(), keep);
        if keep(items.last()) {
            front.push(items.last())
        } else {
            front
        }
    }
}

/// Whether the note is reported to the client: it is of a wanted family and
/// was created in the target block.
pub open spec fn note_reported(note: Note, tag_prefixes: Seq<u32>, target: u32) -> bool {
    note.block_num == target && note_wanted(note, tag_prefixes)
}

/// Whether the account is reported to the client: the client asks for it,
/// and its latest update is after the client's block and not after the target.
pub open spec fn account_reported(info: AccountInfo, account_ids: Seq<u64>, block_num: u32, target: u32) -> bool {
    account_ids.contains(info.account_id) && block_num < info.block_num <= target
}

/// Whether the nullifier is reported to the client: the client asks for its
/// prefix, and it was consumed after the client's block and not after the target.
pub open spec fn nullifier_reported(
    info: NullifierInfo,
    nullifier_prefixes: Seq<u32>,
    block_num: u32,
    target: u32,
) -> bool {
    nullifier_prefixes.contains(nullifier_prefix(info.nullifier)) && block_num < info.block_num
        <= target
}

/// Whether `value` is in the list.
fn contains_u32(list: &Vec<u32>, value: u32) -> (found: bool)
    ensures
        found == list@.contains(value),
{
    let mut i: usize = 0;
    while i < list.len()
        invariant
            i <= list.len(),
            forall|j: int| 0 <= j < i ==> list@[j] != value,
        decreases list.len() - i,
    {
        if list[i] == value {
            return true;
        }
        i += 1;
    }
    false
}

/// Whether `value` is in the list.
fn contains_u64(list: &Vec<u64>, value: u64) -> (found: bool)
    ensures
        found == list@.contains(value),
{
    let mut i: usize = 0;
    while i < list.len()
        invariant
            i <= list.len(),
            forall|j: int| 0 <= j < i ==> list@[j] != value,
        decreases list.len() - i,
    {
        if list[i] == value {
            return true;
        }
        i += 1;
    }
    false
}

/// The 16 high bits of a nullifier.
pub fn nullifier_prefix_of(nullifier: &Digest) -> (prefix: u32)
    ensures
        prefix == nullifier_prefix(*nullifier),
        prefix < 0x1_0000,
{
    let last = nullifier.elements()[3];
    assert(last >> 48 < 0x1_0000) by (bit_vector);
    (last >> 48) as u32
}

/// The block that a client at `block_num` advances to, given the notes that
/// the store keeps and the number of the latest block.
pub fn sync_target(notes: &Vec<Note>, note_tag_prefixes: &Vec<u32>, block_num: u32, chain_tip: u32) -> (target:
    u32)
    ensures
        is_sync_target(notes@, note_tag_prefixes@, block_num, chain_tip, target),
{
    let mut found = false;
    let mut target = chain_tip;
    let mut i: usize = 0;
    while i < notes.len()
        invariant
            i <= notes.len(),
            !found ==> target == chain_tip,
            !found ==> forall|j: int|
                0 <= j < i ==> !note_in_reach(#[trigger] notes@[j], note_tag_prefixes@, block_num, chain_tip),
            found ==> exists|j: int|
                0 <= j < i && note_in_reach(#[trigger] notes@[j], note_tag_prefixes@, block_num, chain_tip)
                    && notes@[j].block_num == target,
            found ==> forall|j: int|
                0 <= j < i && note_in_reach(#[trigger] notes@[j], note_tag_prefixes@, block_num, chain_tip)
                    ==> target <= notes@[j].block_num,
        decreases notes.len() - i,
    {
        let note = &notes[i];
        if block_num < note.block_num && note.block_num <= chain_tip && contains_u32(
            note_tag_prefixes,
            note.note_created.tag >> 16,
        ) {
            if !found || note.block_num < target {
                target = note.block_num;
                found = true;
            }
        }
        i += 1;
    }
    target
}

/// Those of the accounts that are reported to a client at `block_num` that
/// advances to `target`.
pub fn reported_accounts(accounts: &Vec<AccountInfo>, account_ids: &Vec<u64>, block_num: u32, target: u32) -> (reported:
    Vec<AccountInfo>)
    ensures
        reported@ == kept(
            accounts@,
            |info: AccountInfo| account_reported(info, account_ids@, block_num, target),
        ),
{
    let ghost keep = |info: AccountInfo| account_reported(info, account_ids@, block_num, target);
    let mut reported: Vec<AccountInfo> = Vec::new();
    let mut i: usize = 0;
    while i < accounts.len()
        invariant
            i <= accounts.len(),
            keep == (|info: AccountInfo| account_reported(info, account_ids@, block_num, target)),
            reported@ == kept(accounts@.take(i as int), keep),
        decreases accounts.len() - i,
    {
        let info = accounts[i];
        proof {
            assert(accounts@.take(i + 1).drop_last() =~= accounts@.take(i as int));
            assert(accounts@.take(i + 1).last() == info);
        }
        if block_num < info.block_num && info.block_num <= target && contains_u64(
            account_ids,
            info.account_id,
        ) {
            reported.push(info);
        }
        i += 1;
    }
    proof {
        assert(accounts@.take(i as int) =~= accounts@);
    }
    reported
}

/// Those of the nullifiers that are reported to a client at `block_num` that
/// advances to `target`.
pub fn reported_nullifiers(
    nullifiers: &Vec<NullifierInfo>,
    nullifier_prefixes: &Vec<u32>,
    block_num: u32,
    target: u32,
) -> (reported: Vec<NullifierInfo>)
    ensures
        reported@ == kept(
            nullifiers@,
            |info: NullifierInfo| nullifier_reported(info, nullifier_prefixes@, block_num, target),
        ),
{
    let ghost keep = |info: NullifierInfo|
        nullifier_reported(info, nullifier_prefixes@, block_num, target);
    let mut reported: Vec<NullifierInfo> = Vec::new();
    let mut i: usize = 0;
    while i < nullifiers.len()
        invariant
            i <= nullifiers.len(),
            keep == (|info: NullifierInfo|
                nullifier_reported(info, nullifier_prefixes@, block_num, target)),
            reported@ == kept(nullifiers@.take(i as int), keep),
        decreases nullifiers.len() - i,
    {
        let info = nullifiers[i];
        proof {
            assert(nullifiers@.take(i + 1).drop_last() =~= nullifiers@.take(i as int));
            assert(nullifiers@.take(i + 1).last() == info);
        }
        if block_num < info.block_num && info.block_num <= target && contains_u32(
            nullifier_prefixes,
            nullifier_prefix_of(&info.nullifier),
        ) {
            reported.push(info);
        }
        i += 1;
    }
    proof {
        assert(nullifiers@.take(i as int) =~= nullifiers@);
    }
    reported
}

/// Those of the notes that are reported to a client that advances to `target`.
pub fn reported_notes(notes: Vec<Note>, note_tag_prefixes: &Vec<u32>, target: u32) -> (reported: Vec<Note>)
    ensures
        reported@ == kept(notes@, |note: Note| note_reported(note, note_tag_prefixes@, target)),
{
    let ghost given = notes@;
    let ghost n = given.len() as int;
    let ghost keep = |note: Note| note_reported(note, note_tag_prefixes@, target);
    let mut stack = notes;
    let mut reversed: Vec<Note> = Vec::new();
    while stack.len() > 0
        invariant
            n == given.len(),
            stack@.len() + reversed@.len() == n,
            forall|j: int| 0 <= j < stack@.len() ==> stack@[j] == given[j],
            forall|j: int| 0 <= j < reversed@.len() ==> reversed@[j] == given[n - 1 - j],
        decreases stack@.len(),
    {
        let note = stack.pop().unwrap();
        reversed.push(note);
    }
    let mut reported: Vec<Note> = Vec::new();
    let ghost mut done: int = 0;
    while reversed.len() > 0
        invariant
            n == given.len(),
            0 <= done <= n,
            done + reversed@.len() == n,
            keep == (|note: Note| note_reported(note, note_tag_prefixes@, target)),
            forall|j: int| 0 <= j < reversed@.len() ==> reversed@[j] == given[n - 1 - j],
            reported@ == kept(given.take(done), keep),
        decreases reversed@.len(),
    {
        let note = reversed.pop().unwrap();
        proof {
            assert(note == given[done]);
            assert(given.take(done + 1).drop_last() =~= given.take(done));
            assert(given.take(done + 1).last() == note);
            done = done + 1;
        }
        if note.block_num == target && contains_u32(note_tag_prefixes, note.note_created.tag >> 16) {
            reported.push(note);
        }
    }
    proof {
        assert(given.take(done) =~= given);
    }
    reported
}

/// Puts together what a client at `block_num` is told: the header of the
/// block it advances to, the notes of wanted families created in that block,
/// and the accounts and nullifiers it asks for that changed on the way there.
///
/// `target_header` is the header of the block that [`sync_target`] chose.
pub fn get_state_sync(
    block_num: u32,
    target_header: BlockHeader,
    chain_tip: u32,
    notes: Vec<Note>,
    accounts: &Vec<AccountInfo>,
    nullifiers: &Vec<NullifierInfo>,
    account_ids: &Vec<u64>,
    note_tag_prefixes: &Vec<u32>,
    nullifier_prefixes: &Vec<u32>,
) -> (update: StateSyncUpdate)
    ensures
        update.block_header == target_header,
        update.chain_tip == chain_tip,
        update.notes@ == kept(
            notes@,
            |note: Note| note_reported(note, note_tag_prefixes@, target_header.block_num),
        ),
        update.account_updates@ == kept(
            accounts@,
            |info: AccountInfo|
                account_reported(info, account_ids@, block_num, target_header.block_num),
        ),
        update.nullifiers@ == kept(
            nullifiers@,
            |info: NullifierInfo|
                nullifier_reported(info, nullifier_prefixes@, block_num, target_header.block_num),
        ),
{
    let target = target_header.block_num;
    StateSyncUpdate {
        notes: reported_notes(notes, note_tag_prefixes, target),
        block_header: target_header,
        chain_tip,
        account_updates: reported_accounts(accounts, account_ids, block_num, target),
        nullifiers: reported_nullifiers(nullifiers, nullifier_prefixes, block_num, target),
    }
}

} // verus!
