use miden_node::account::ValidAccount;
use miden_node::block_header::BlockHeader;
use miden_node::digest::Digest;
use miden_node::errors::{
    ApplyBlockError, GetBlockInputsError, StateInitializationError, StateSyncError,
};
use miden_node::note_tree::build_notes_tree;
use miden_node::notes::{NoteCreated, NoteType};
use miden_node::state::{State, StateSyncUpdate};
use miden_objects::accounts::AccountId;
use miden_objects::crypto::hash::rpo::RpoDigest;
use miden_objects::crypto::merkle::{
    LeafIndex, MerklePath, Mmr, MmrDelta, PartialMmr, SimpleSmt, Smt,
};
use miden_objects::notes::{NoteMetadata, NoteTag};
use miden_objects::{Felt, ZERO};

const ACCOUNT_A: u64 = 0x0000_0000_0000_001f;
const SENDER: u64 = 0x8000_0000_0000_00ff;

fn rpo(d: &Digest) -> RpoDigest {
    RpoDigest::new(d.elements().map(Felt::new))
}

fn word(d: &Digest) -> [Felt; 4] {
    d.elements().map(Felt::new)
}

fn dig(r: RpoDigest) -> Digest {
    Digest::new(r[0].as_int(), r[1].as_int(), r[2].as_int(), r[3].as_int()).unwrap()
}

fn d(a: u64, b: u64, c: u64, e: u64) -> Digest {
    Digest::new(a, b, c, e).unwrap()
}

fn genesis() -> BlockHeader {
    let z = Digest::zero();
    BlockHeader::new(z, 0, z, z, z, z, z, z, 0, 1)
}

fn note(batch_index: u32, note_index: u32, id: Digest) -> NoteCreated {
    NoteCreated {
        batch_index,
        note_index,
        note_id: id,
        note_type: NoteType::OffChain,
        sender: SENDER,
        tag: 7,
        details: None,
    }
}

fn metadata_word(n: &NoteCreated) -> [Felt; 4] {
    NoteMetadata::new(
        AccountId::try_from(n.sender).unwrap(),
        miden_objects::notes::NoteType::OffChain,
        NoteTag::from(n.tag),
        ZERO,
    )
    .unwrap()
    .into()
}

fn note_root(notes: &[NoteCreated]) -> Digest {
    let mut leaves = Vec::new();
    for n in notes {
        let index = (u64::from(n.batch_index) * 4096 + u64::from(n.note_index)) * 2;
        leaves.push((index, word(&n.note_id)));
        leaves.push((index + 1, metadata_word(n)));
    }
    dig(SimpleSmt::<21>::with_leaves(leaves).unwrap().root())
}

/// The state of the scenario and a block 1 that fits it: account A goes from
/// h0 to h1, nullifier n1 is consumed, one note is created.
struct Scenario {
    state: State,
    prev: BlockHeader,
    header: BlockHeader,
    nullifiers: Vec<Digest>,
    accounts: Vec<ValidAccount>,
    notes: Vec<NoteCreated>,
}

fn scenario() -> Scenario {
    scenario_on(Vec::new())
}

/// The scenario on a state whose chain already holds the genesis block, as a
/// state that was loaded from the durable store does.
fn scenario_after_genesis() -> Scenario {
    scenario_on(vec![genesis().hash()])
}

fn scenario_on(chain: Vec<Digest>) -> Scenario {
    let h0 = d(1, 1, 1, 1);
    let h1 = d(2, 2, 2, 2);
    let n1 = d(3, 3, 3, 3);
    let prev = genesis();
    let state = State::load(&Vec::new(), &chain, &vec![(ACCOUNT_A, h0)]).unwrap();
    let notes = vec![note(0, 0, d(4, 4, 4, 4))];

    let outside = Mmr::from(chain.iter().map(rpo));
    let chain_root = dig(outside.peaks(outside.forest()).unwrap().hash_peaks());
    let account_root =
        dig(SimpleSmt::<64>::with_leaves(vec![(ACCOUNT_A, word(&h1))]).unwrap().root());
    let nullifier_root =
        dig(Smt::with_entries(vec![(rpo(&n1), word(&d(1, 0, 0, 0)))]).unwrap().root());
    let header = BlockHeader::new(
        prev.hash(),
        1,
        chain_root,
        account_root,
        nullifier_root,
        note_root(&notes),
        Digest::zero(),
        Digest::zero(),
        0,
        2,
    );
    Scenario {
        state,
        prev,
        header,
        nullifiers: vec![n1],
        accounts: vec![ValidAccount { id: ACCOUNT_A, hash: h1, details: None }],
        notes,
    }
}

fn apply(s: &Scenario) -> Result<miden_node::state::BlockUpdate, ApplyBlockError> {
    s.state.apply_block(Some(s.prev), s.header, &s.nullifiers, &s.accounts, s.notes.clone())
}

#[test]
fn scenario_block_one_is_applied() {
    let mut s = scenario();
    let h0 = d(1, 1, 1, 1);
    let h1 = d(2, 2, 2, 2);
    let n1 = d(3, 3, 3, 3);
    let before = s.state.get_transaction_inputs(ACCOUNT_A, &vec![n1]);
    assert_eq!(before.account_hash, h0);
    assert_eq!(before.nullifiers[0].block_num, 0);
    assert_eq!(s.state.chain_forest(), 0);

    let update = apply(&s).unwrap();
    // nothing has changed before the update is committed
    assert_eq!(s.state.get_transaction_inputs(ACCOUNT_A, &vec![n1]).account_hash, h0);
    assert_eq!(update.block_header(), s.header);
    assert_eq!(update.notes().len(), 1);
    let notes = s.state.commit_block(update);

    assert_eq!(s.state.account_root(), s.header.account_root());
    assert_eq!(s.state.nullifier_root(), s.header.nullifier_root());
    assert_eq!(s.state.chain_forest(), 1);
    let inputs = s.state.get_transaction_inputs(ACCOUNT_A, &vec![n1, d(9, 9, 9, 9)]);
    assert_eq!(inputs.account_hash, h1);
    assert_eq!(inputs.nullifiers.len(), 2);
    assert_eq!(inputs.nullifiers[0].nullifier, n1);
    assert_eq!(inputs.nullifiers[0].block_num, 1);
    assert_eq!(inputs.nullifiers[1].block_num, 0);
    assert_eq!(s.state.get_transaction_inputs(12345, &Vec::new()).account_hash, Digest::zero());

    assert_eq!(notes.len(), 1);
    assert_eq!(notes[0].block_num, 1);
    assert_eq!(notes[0].note_created, s.notes[0]);
    let path = MerklePath::new(notes[0].merkle_path.iter().map(rpo).collect());
    assert!(path.verify(0, rpo(&s.notes[0].note_id), &rpo(&s.header.note_root())));
}

#[test]
fn resubmitted_nullifier_is_rejected() {
    let mut s = scenario();
    let update = apply(&s).unwrap();
    s.state.commit_block(update);
    let account_root = s.state.account_root();
    let nullifier_root = s.state.nullifier_root();

    // block 2 consumes n1 again, next to a fresh nullifier
    let n1 = d(3, 3, 3, 3);
    let header = BlockHeader::new(
        s.header.hash(),
        2,
        Digest::zero(),
        Digest::zero(),
        Digest::zero(),
        Digest::zero(),
        Digest::zero(),
        Digest::zero(),
        0,
        3,
    );
    let r = s.state.apply_block(
        Some(s.header),
        header,
        &vec![d(8, 8, 8, 8), n1],
        &Vec::new(),
        Vec::new(),
    );
    match r {
        Err(ApplyBlockError::DuplicatedNullifiers(found)) => assert_eq!(found, vec![n1]),
        _ => panic!("the block must be rejected for its nullifier"),
    }
    assert_eq!(s.state.account_root(), account_root);
    assert_eq!(s.state.nullifier_root(), nullifier_root);
    assert_eq!(s.state.chain_forest(), 1);
    assert_eq!(s.state.get_transaction_inputs(ACCOUNT_A, &vec![n1]).nullifiers[0].block_num, 1);
}

#[test]
fn block_number_must_follow() {
    let mut s = scenario();
    s.header.block_num = 2;
    assert!(matches!(apply(&s), Err(ApplyBlockError::NewBlockInvalidBlockNum)));
    s.header.block_num = 0;
    assert!(matches!(apply(&s), Err(ApplyBlockError::NewBlockInvalidBlockNum)));
    s.header.block_num = 1;
    s.prev.block_num = u32::MAX;
    assert!(matches!(apply(&s), Err(ApplyBlockError::NewBlockInvalidBlockNum)));
}

#[test]
fn previous_hash_must_match() {
    let mut s = scenario();
    s.header.prev_hash = Digest::zero();
    assert!(matches!(apply(&s), Err(ApplyBlockError::NewBlockInvalidPrevHash)));
    s.header.prev_hash = d(1, 2, 3, 4);
    assert!(matches!(apply(&s), Err(ApplyBlockError::NewBlockInvalidPrevHash)));
}

#[test]
fn missing_previous_block_is_reported() {
    let s = scenario();
    let r = s.state.apply_block(None, s.header, &s.nullifiers, &s.accounts, s.notes.clone());
    assert!(matches!(r, Err(ApplyBlockError::DbBlockHeaderEmpty)));
}

#[test]
fn each_declared_root_is_checked() {
    let wrong = d(42, 42, 42, 42);
    let mut s = scenario();
    s.header.chain_root = wrong;
    assert!(matches!(apply(&s), Err(ApplyBlockError::NewBlockInvalidChainRoot)));
    let mut s = scenario();
    s.header.nullifier_root = wrong;
    assert!(matches!(apply(&s), Err(ApplyBlockError::NewBlockInvalidNullifierRoot)));
    let mut s = scenario();
    s.header.account_root = wrong;
    assert!(matches!(apply(&s), Err(ApplyBlockError::NewBlockInvalidAccountRoot)));
    let mut s = scenario();
    s.header.note_root = wrong;
    assert!(matches!(apply(&s), Err(ApplyBlockError::NewBlockInvalidNoteRoot)));
    // the fields that are no root of the state are not checked
    let mut s = scenario();
    s.header.batch_root = wrong;
    s.header.proof_hash = wrong;
    assert!(apply(&s).is_ok());
}

#[test]
fn notes_of_a_block_must_be_well_formed() {
    let mut s = scenario();
    s.notes[0].sender = 1;
    assert!(matches!(apply(&s), Err(ApplyBlockError::AccountError(_))));
    let mut s = scenario();
    s.notes[0].tag = 0x8000_0000;
    assert!(matches!(apply(&s), Err(ApplyBlockError::NoteError(_))));
    let mut s = scenario();
    s.notes.push(note(0, 0, d(5, 5, 5, 5)));
    assert!(matches!(apply(&s), Err(ApplyBlockError::FailedToCreateNotesTree(_))));
    let mut s = scenario();
    s.notes[0].batch_index = 256;
    assert!(matches!(apply(&s), Err(ApplyBlockError::FailedToCreateNotesTree(_))));
}

#[test]
fn notes_tree_places_notes_by_batch_and_index() {
    let notes = vec![note(0, 0, d(1, 0, 0, 0)), note(0, 1, d(2, 0, 0, 0)), note(3, 5, d(3, 0, 0, 0))];
    assert_eq!(notes[2].absolute_note_index(), 3 * 4096 + 5);
    let tree = build_notes_tree(&notes).unwrap();
    assert_eq!(tree.root(), note_root(&notes));
    let outside_index = LeafIndex::<21>::new((3 * 4096 + 5) * 2).unwrap();
    assert_eq!(tree.open(outside_index.value()).len(), 21);
    assert_eq!(build_notes_tree(&Vec::new()).unwrap().root(), note_root(&[]));
}

#[test]
fn reloaded_state_has_the_roots_of_the_live_state() {
    let mut s = scenario_after_genesis();
    let update = apply(&s).unwrap();
    s.state.commit_block(update);

    // what the durable store holds after block 1
    let reloaded = State::load(
        &vec![(d(3, 3, 3, 3), 1)],
        &vec![s.prev.hash(), s.header.hash()],
        &vec![(ACCOUNT_A, d(2, 2, 2, 2))],
    )
    .unwrap();
    assert_eq!(reloaded.account_root(), s.state.account_root());
    assert_eq!(reloaded.nullifier_root(), s.state.nullifier_root());
    assert_eq!(reloaded.chain_forest(), s.state.chain_forest());
    let live = s.state.get_block_inputs(Some(s.header), &Vec::new(), &Vec::new()).unwrap();
    let again = reloaded.get_block_inputs(Some(s.header), &Vec::new(), &Vec::new()).unwrap();
    assert_eq!(live.1, again.1);
}

#[test]
fn load_refuses_records_listed_twice() {
    let n = d(1, 2, 3, 4);
    let r = State::load(&vec![(n, 1), (n, 2)], &Vec::new(), &Vec::new());
    assert!(matches!(r, Err(StateInitializationError::FailedToCreateNullifiersTree(_))));
    let r = State::load(&Vec::new(), &Vec::new(), &vec![(5, n), (5, n)]);
    assert!(matches!(r, Err(StateInitializationError::FailedToCreateAccountsTree(_))));
}

#[test]
fn block_inputs_are_one_leaf_behind() {
    let mut s = scenario_after_genesis();
    let update = apply(&s).unwrap();
    s.state.commit_block(update);
    let n1 = d(3, 3, 3, 3);

    let (latest, peaks, accounts, nullifiers) =
        s.state.get_block_inputs(Some(s.header), &vec![SENDER, ACCOUNT_A], &vec![n1]).unwrap();
    assert_eq!(latest, s.header);
    // the peaks are those that the chain root of the latest header commits to
    assert_eq!(dig(peaks.hash_peaks()), s.header.chain_root());
    assert_eq!(peaks.num_leaves(), 1);
    assert_eq!(s.state.chain_forest(), 2);
    assert_eq!(accounts.len(), 2);
    assert_eq!(accounts[0].account_id, SENDER);
    assert_eq!(accounts[0].account_hash, Digest::zero());
    assert_eq!(accounts[1].account_id, ACCOUNT_A);
    assert_eq!(accounts[1].account_hash, d(2, 2, 2, 2));
    let path = MerklePath::new(accounts[1].proof.iter().map(rpo).collect());
    assert!(path.verify(ACCOUNT_A, rpo(&d(2, 2, 2, 2)), &rpo(&s.state.account_root())));
    assert_eq!(nullifiers.len(), 1);
    assert_eq!(nullifiers[0].nullifier, n1);
    assert!(nullifiers[0].proof.verify_membership(
        &rpo(&n1),
        &word(&d(1, 0, 0, 0)),
        &rpo(&s.state.nullifier_root())
    ));
}

#[test]
fn block_inputs_errors() {
    let s = scenario();
    let r = s.state.get_block_inputs(None, &Vec::new(), &Vec::new());
    assert!(matches!(r, Err(GetBlockInputsError::DbBlockHeaderEmpty)));
    // the chain in memory is empty, the durable store is at block 1
    let r = s.state.get_block_inputs(Some(s.header), &Vec::new(), &Vec::new());
    match r {
        Err(GetBlockInputsError::IncorrectChainMmrForestNumber { forest, block_num }) => {
            assert_eq!(forest, 0);
            assert_eq!(block_num, 1);
        },
        _ => panic!("the forest number must be reported"),
    }
    let mut s = scenario_after_genesis();
    let update = apply(&s).unwrap();
    s.state.commit_block(update);
    let r = s.state.get_block_inputs(Some(s.header), &vec![ACCOUNT_A, 3], &Vec::new());
    assert!(matches!(r, Err(GetBlockInputsError::AccountError(_))));
}

#[test]
fn check_nullifiers_gives_one_opening_each() {
    let mut s = scenario();
    let update = apply(&s).unwrap();
    s.state.commit_block(update);
    let n1 = d(3, 3, 3, 3);
    let other = d(7, 7, 7, 7);
    let proofs = s.state.check_nullifiers(&vec![n1, other]);
    assert_eq!(proofs.len(), 2);
    let root = rpo(&s.state.nullifier_root());
    assert!(proofs[0].verify_membership(&rpo(&n1), &word(&d(1, 0, 0, 0)), &root));
    assert!(proofs[1].verify_membership(&rpo(&other), &word(&Digest::zero()), &root));
    assert!(s.state.check_nullifiers(&Vec::new()).is_empty());
}

fn sync_update(header: BlockHeader) -> StateSyncUpdate {
    StateSyncUpdate {
        notes: Vec::new(),
        block_header: header,
        chain_tip: header.block_num(),
        account_updates: Vec::new(),
        nullifiers: Vec::new(),
    }
}

fn header_at(block_num: u32) -> BlockHeader {
    let z = Digest::zero();
    BlockHeader::new(z, block_num, z, z, z, z, z, z, 0, 1)
}

#[test]
fn sync_at_the_tip_gives_an_empty_delta() {
    let hashes: Vec<Digest> = (1..=6u64).map(|i| d(i, 0, 0, 0)).collect();
    let state = State::load(&Vec::new(), &hashes, &Vec::new()).unwrap();
    let (update, delta) = state.sync_state(5, sync_update(header_at(5))).unwrap();
    assert_eq!(update, sync_update(header_at(5)));
    assert_eq!(delta.forest, 5);
    assert!(delta.data.is_empty());
    // even beyond what the chain holds, as long as client and target agree
    let (_, delta) = state.sync_state(u32::MAX, sync_update(header_at(u32::MAX))).unwrap();
    assert_eq!(delta.forest, u32::MAX as usize);
    assert!(delta.data.is_empty());
}

#[test]
fn sync_delta_leads_to_the_peaks_of_the_target() {
    // blocks 0..=8 are in the chain; the header of block t commits to the first t of them
    let hashes: Vec<Digest> = (1..=9u64).map(|i| d(i, i, 0, 0)).collect();
    let state = State::load(&Vec::new(), &hashes, &Vec::new()).unwrap();
    let outside = Mmr::from(hashes.iter().map(rpo));
    for k in 0..8u32 {
        for t in (k + 1)..=8u32 {
            let (_, delta) = state.sync_state(k, sync_update(header_at(t))).unwrap();
            assert_eq!(delta.forest, t as usize);
            // the client holds the chain up to and with block k
            let mut client = PartialMmr::from_peaks(outside.peaks(k as usize + 1).unwrap());
            client
                .apply(MmrDelta {
                    forest: delta.forest,
                    data: delta.data.iter().map(rpo).collect(),
                })
                .unwrap();
            assert_eq!(client.peaks(), outside.peaks(t as usize).unwrap());
        }
    }
}

#[test]
fn sync_fails_where_the_chain_cannot_answer() {
    let hashes: Vec<Digest> = (1..=3u64).map(|i| d(i, 0, 0, 0)).collect();
    let state = State::load(&Vec::new(), &hashes, &Vec::new()).unwrap();
    // the target lies beyond the chain
    let r = state.sync_state(1, sync_update(header_at(4)));
    assert!(matches!(r, Err(StateSyncError::FailedToBuildMmrDelta(_))));
    // the client claims to be ahead of the target
    let r = state.sync_state(2, sync_update(header_at(1)));
    assert!(matches!(r, Err(StateSyncError::FailedToBuildMmrDelta(_))));
    // the client claims the last block that can be counted
    let r = state.sync_state(u32::MAX, sync_update(header_at(2)));
    assert!(matches!(r, Err(StateSyncError::FailedToBuildMmrDelta(_))));
    // the next block of the client is the target: nothing to send
    let (_, delta) = state.sync_state(2, sync_update(header_at(3))).unwrap();
    assert_eq!(delta.forest, 3);
    assert!(delta.data.is_empty());
}
