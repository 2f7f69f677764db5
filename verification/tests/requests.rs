use miden_node::account::{
    check_account_details, is_on_chain, AccountDetails, ConversionError, ProvenTransactionError,
    ValidAccount,
};
use miden_node::block_header::BlockHeader;
use miden_node::digest::{Digest, FIELD_MODULUS};
use miden_node::errors::ApplyBlockError;
use miden_node::notes::{Note, NoteCreated, NoteType};
use miden_node::state::BlockRejection;
use miden_node::requests::{
    AccountUpdate, ApplyBlockRequest, CheckNullifiersRequest, GetBlockHeaderByNumberRequest,
    GetBlockInputsRequest, GetNotesByIdRequest, GetTransactionInputsRequest, ListAccountsRequest,
    ListNotesRequest, ListNullifiersRequest, SubmitProvenTransactionRequest, SyncStateRequest,
    WireAccountDetails, WireAccountId, WireBlockHeader, WireDigest, WireNoteCreated,
};
use miden_node::state::State;
use miden_node::store_api::{
    account_ids, answer_of, check_notes_known, convert_block_header, convert_note, convert_notes,
    parse_apply_block_request, required_account_id, validate_account_updates, validate_digests,
    validate_nullifiers, InvalidArgument, Refusal,
};
use miden_objects::accounts::AccountId;

const ON_CHAIN: u64 = 0x0000_0000_0000_001f;
const OFF_CHAIN: u64 = 0x8000_0000_0000_001f;

fn d(a: u64, b: u64, c: u64, e: u64) -> Digest {
    Digest::new(a, b, c, e).unwrap()
}

fn w(a: u64, b: u64, c: u64, e: u64) -> WireDigest {
    WireDigest { d0: a, d1: b, d2: c, d3: e }
}

fn bad() -> WireDigest {
    w(0, 0, FIELD_MODULUS, 0)
}

#[test]
fn account_identifiers_are_checked_as_the_outside_crate_checks_them() {
    let samples = [
        0u64,
        0x1f,
        0x0f,
        ON_CHAIN,
        OFF_CHAIN,
        0x4000_0000_0000_001f,
        0xc000_0000_0000_001f,
        0x8000_0000_0000_0007,
        0x8000_0000_0000_000f,
        FIELD_MODULUS - 1,
        FIELD_MODULUS,
        u64::MAX,
        0xbfff_ffff_ffff_ffff,
        0x3fff_ffff_ffff_ffff,
    ];
    let accepted = |id: u64| {
        let mut u = update(id, None);
        u.account_hash = None;
        ValidAccount::try_from(&u, &Digest::zero()) != Err(ConversionError::InvalidAccountId)
    };
    for id in samples {
        assert_eq!(accepted(id), AccountId::try_from(id).is_ok(), "{id:#x}");
        if let Ok(outside) = AccountId::try_from(id) {
            assert_eq!(is_on_chain(id), outside.is_on_chain(), "{id:#x}");
        }
    }
    assert!(accepted(OFF_CHAIN));
    assert!(!accepted(0x8000_0000_0000_0007));
    assert!(!accepted(0x4000_0000_0000_001f));
    assert!(!accepted(u64::MAX));
    assert!(is_on_chain(ON_CHAIN));
    assert!(!is_on_chain(OFF_CHAIN));
}

#[test]
fn details_must_fit_the_account() {
    let zero = Digest::zero();
    let h0 = d(1, 1, 1, 1);
    let h1 = d(2, 2, 2, 2);
    let full = Some(AccountDetails::Full { id: ON_CHAIN, hash: h1 });
    let delta = Some(AccountDetails::Delta);

    assert_eq!(check_account_details(OFF_CHAIN, &h0, &h1, &None), Ok(()));
    assert_eq!(
        check_account_details(OFF_CHAIN, &h0, &h1, &delta),
        Err(ProvenTransactionError::OffChainAccountWithDetails(OFF_CHAIN))
    );
    assert_eq!(
        check_account_details(ON_CHAIN, &h0, &h1, &None),
        Err(ProvenTransactionError::OnChainAccountMissingDetails(ON_CHAIN))
    );
    assert_eq!(check_account_details(ON_CHAIN, &zero, &h1, &full), Ok(()));
    assert_eq!(check_account_details(ON_CHAIN, &h0, &h1, &delta), Ok(()));
    assert_eq!(
        check_account_details(ON_CHAIN, &zero, &h1, &delta),
        Err(ProvenTransactionError::NewOnChainAccountRequiresFullDetails(ON_CHAIN))
    );
    assert_eq!(
        check_account_details(ON_CHAIN, &h0, &h1, &full),
        Err(ProvenTransactionError::ExistingOnChainAccountRequiresDeltaDetails(ON_CHAIN))
    );
    assert_eq!(
        check_account_details(
            ON_CHAIN,
            &zero,
            &h1,
            &Some(AccountDetails::Full { id: 0x2f, hash: h1 })
        ),
        Err(ProvenTransactionError::AccountIdMismatch(ON_CHAIN, 0x2f))
    );
    assert_eq!(
        check_account_details(
            ON_CHAIN,
            &zero,
            &h1,
            &Some(AccountDetails::Full { id: ON_CHAIN, hash: h0 })
        ),
        Err(ProvenTransactionError::AccountFinalHashMismatch(h1, h0))
    );
}

fn update(id: u64, details: Option<WireAccountDetails>) -> AccountUpdate {
    AccountUpdate {
        account_id: Some(WireAccountId { id }),
        account_hash: Some(w(2, 2, 2, 2)),
        details,
    }
}

#[test]
fn account_update_is_checked_in_order() {
    let zero = Digest::zero();
    let h1 = d(2, 2, 2, 2);
    let ok = ValidAccount::try_from(&update(OFF_CHAIN, None), &zero);
    assert_eq!(ok, Ok(ValidAccount { id: OFF_CHAIN, hash: h1, details: None }));

    let mut u = update(OFF_CHAIN, None);
    u.account_id = None;
    u.account_hash = Some(bad());
    assert_eq!(ValidAccount::try_from(&u, &zero), Err(ConversionError::MissingAccountId));

    let mut u = update(7, None);
    u.account_hash = Some(bad());
    assert_eq!(ValidAccount::try_from(&u, &zero), Err(ConversionError::InvalidAccountId));

    let mut u = update(OFF_CHAIN, None);
    u.account_hash = Some(bad());
    assert_eq!(ValidAccount::try_from(&u, &zero), Err(ConversionError::NotAValidFelt));

    let mut u = update(
        ON_CHAIN,
        Some(WireAccountDetails::Full {
            account_id: WireAccountId { id: ON_CHAIN },
            account_hash: bad(),
        }),
    );
    u.account_hash = None;
    assert_eq!(ValidAccount::try_from(&u, &zero), Err(ConversionError::NotAValidFelt));

    let mut u = update(OFF_CHAIN, None);
    u.account_hash = None;
    assert_eq!(ValidAccount::try_from(&u, &zero), Err(ConversionError::MissingAccountHash));

    // wrong in both ways: the details are judged before the new hash is asked for
    let mut u = update(OFF_CHAIN, Some(WireAccountDetails::Delta));
    u.account_hash = None;
    assert_eq!(
        ValidAccount::try_from(&u, &zero),
        Err(ConversionError::InvalidDetails(ProvenTransactionError::OffChainAccountWithDetails(
            OFF_CHAIN
        )))
    );
    // a whole account that fits in all but its hash: the missing new hash comes first
    let mut u = update(
        ON_CHAIN,
        Some(WireAccountDetails::Full {
            account_id: WireAccountId { id: ON_CHAIN },
            account_hash: w(9, 9, 9, 9),
        }),
    );
    u.account_hash = None;
    assert_eq!(ValidAccount::try_from(&u, &zero), Err(ConversionError::MissingAccountHash));
    u.account_hash = Some(w(2, 2, 2, 2));
    assert_eq!(
        ValidAccount::try_from(&u, &zero),
        Err(ConversionError::InvalidDetails(ProvenTransactionError::AccountFinalHashMismatch(
            h1,
            d(9, 9, 9, 9)
        )))
    );

    let u = update(OFF_CHAIN, Some(WireAccountDetails::Delta));
    assert_eq!(
        ValidAccount::try_from(&u, &zero),
        Err(ConversionError::InvalidDetails(ProvenTransactionError::OffChainAccountWithDetails(
            OFF_CHAIN
        )))
    );

    let full = WireAccountDetails::Full {
        account_id: WireAccountId { id: ON_CHAIN },
        account_hash: w(2, 2, 2, 2),
    };
    assert_eq!(
        ValidAccount::try_from(&update(ON_CHAIN, Some(full)), &zero),
        Ok(ValidAccount {
            id: ON_CHAIN,
            hash: h1,
            details: Some(AccountDetails::Full { id: ON_CHAIN, hash: h1 })
        })
    );
    assert_eq!(
        ValidAccount::try_from(&update(ON_CHAIN, Some(full)), &d(1, 1, 1, 1)),
        Err(ConversionError::InvalidDetails(
            ProvenTransactionError::ExistingOnChainAccountRequiresDeltaDetails(ON_CHAIN)
        ))
    );
}

#[test]
fn account_updates_are_checked_against_the_recorded_state() {
    let state = State::load(&Vec::new(), &Vec::new(), &vec![(ON_CHAIN, d(1, 1, 1, 1))]).unwrap();
    let full = WireAccountDetails::Full {
        account_id: WireAccountId { id: 0x2f },
        account_hash: w(2, 2, 2, 2),
    };
    // the recorded account takes a delta, the unknown one the whole account
    let updates = vec![update(ON_CHAIN, Some(WireAccountDetails::Delta)), update(0x2f, Some(full))];
    let accounts = validate_account_updates(&state, &updates).unwrap();
    assert_eq!(accounts.len(), 2);
    assert_eq!(accounts[0].id, ON_CHAIN);
    assert_eq!(accounts[1].details, Some(AccountDetails::Full { id: 0x2f, hash: d(2, 2, 2, 2) }));

    let updates = vec![update(OFF_CHAIN, None), update(0x2f, Some(WireAccountDetails::Delta))];
    assert_eq!(
        validate_account_updates(&state, &updates),
        Err(InvalidArgument::AccountUpdate(ConversionError::InvalidDetails(
            ProvenTransactionError::NewOnChainAccountRequiresFullDetails(0x2f)
        )))
    );
    assert_eq!(validate_account_updates(&state, &Vec::new()), Ok(Vec::new()));
}

#[test]
fn digests_of_a_request_are_validated() {
    let good = vec![w(1, 2, 3, 4), w(FIELD_MODULUS - 1, 0, 0, 0)];
    assert_eq!(validate_nullifiers(&good), Ok(vec![d(1, 2, 3, 4), d(FIELD_MODULUS - 1, 0, 0, 0)]));
    assert_eq!(validate_digests(&good), validate_nullifiers(&good));
    let mixed = vec![w(1, 2, 3, 4), bad()];
    assert_eq!(validate_nullifiers(&mixed), Err(InvalidArgument::DigestNotInField));
    assert_eq!(validate_nullifiers(&Vec::new()), Ok(Vec::new()));
}

#[test]
fn account_ids_of_a_request() {
    let ids = vec![WireAccountId { id: 3 }, WireAccountId { id: u64::MAX }];
    assert_eq!(account_ids(&ids), vec![3, u64::MAX]);
    assert_eq!(required_account_id(&Some(WireAccountId { id: 9 })), Ok(9));
    assert_eq!(required_account_id(&None), Err(InvalidArgument::MissingAccountId));
}

fn wire_header() -> WireBlockHeader {
    WireBlockHeader {
        prev_hash: Some(w(1, 0, 0, 0)),
        block_num: 5,
        chain_root: Some(w(2, 0, 0, 0)),
        account_root: Some(w(3, 0, 0, 0)),
        nullifier_root: Some(w(4, 0, 0, 0)),
        note_root: Some(w(5, 0, 0, 0)),
        batch_root: Some(w(6, 0, 0, 0)),
        proof_hash: Some(w(7, 0, 0, 0)),
        version: 1,
        timestamp: 99,
    }
}

#[test]
fn block_header_of_a_request_is_read() {
    let header = convert_block_header(&wire_header()).unwrap();
    assert_eq!(
        header,
        BlockHeader::new(
            d(1, 0, 0, 0),
            5,
            d(2, 0, 0, 0),
            d(3, 0, 0, 0),
            d(4, 0, 0, 0),
            d(5, 0, 0, 0),
            d(6, 0, 0, 0),
            d(7, 0, 0, 0),
            1,
            99
        )
    );
    let mut h = wire_header();
    h.note_root = None;
    h.proof_hash = Some(bad());
    assert_eq!(convert_block_header(&h), Err(InvalidArgument::MissingHeaderField));
    let mut h = wire_header();
    h.chain_root = Some(bad());
    h.note_root = None;
    assert_eq!(convert_block_header(&h), Err(InvalidArgument::DigestNotInField));
}

#[test]
fn timestamp_of_a_header_has_to_be_a_field_element() {
    let mut h = wire_header();
    h.timestamp = FIELD_MODULUS - 1;
    assert_eq!(convert_block_header(&h).unwrap().timestamp, FIELD_MODULUS - 1);
    assert!(convert_block_header(&h).unwrap().check_canonical());
    h.timestamp = FIELD_MODULUS;
    assert_eq!(convert_block_header(&h), Err(InvalidArgument::TimestampNotInField));
    h.timestamp = u64::MAX;
    assert_eq!(convert_block_header(&h), Err(InvalidArgument::TimestampNotInField));
    // a missing digest is reported first
    h.proof_hash = None;
    assert_eq!(convert_block_header(&h), Err(InvalidArgument::MissingHeaderField));
    let z = Digest::zero();
    assert!(!BlockHeader::new(z, 0, z, z, z, z, z, z, u64::MAX, 1).check_canonical());
}

fn stored_note(id: Digest) -> Note {
    Note {
        block_num: 1,
        note_created: NoteCreated {
            batch_index: 0,
            note_index: 0,
            note_id: id,
            note_type: NoteType::OffChain,
            sender: OFF_CHAIN,
            tag: 0,
            details: None,
        },
        merkle_path: Vec::new(),
    }
}

#[test]
fn unknown_note_ids_are_refused() {
    let found = vec![stored_note(d(1, 1, 1, 1)), stored_note(d(2, 2, 2, 2))];
    assert_eq!(check_notes_known(&vec![d(2, 2, 2, 2), d(1, 1, 1, 1)], &found), Ok(()));
    assert_eq!(check_notes_known(&vec![d(1, 1, 1, 1), d(1, 1, 1, 1)], &found), Ok(()));
    assert_eq!(check_notes_known(&Vec::new(), &found), Ok(()));
    assert_eq!(check_notes_known(&Vec::new(), &Vec::new()), Ok(()));
    assert_eq!(
        check_notes_known(&vec![d(1, 1, 1, 1), d(3, 3, 3, 3)], &found),
        Err(InvalidArgument::UnknownNoteId)
    );
    assert_eq!(
        check_notes_known(&vec![d(1, 1, 1, 1)], &Vec::new()),
        Err(InvalidArgument::UnknownNoteId)
    );
}

#[test]
fn a_block_that_was_not_applied_is_not_answered_as_success() {
    assert_eq!(answer_of(&Ok(())), Ok(()));
    assert_eq!(
        answer_of(&Err(ApplyBlockError::NewBlockInvalidBlockNum)),
        Err(Refusal::InvalidBlock(BlockRejection::InvalidBlockNum))
    );
    assert_eq!(
        answer_of(&Err(ApplyBlockError::DuplicatedNullifiers(vec![d(1, 1, 1, 1)]))),
        Err(Refusal::InvalidBlock(BlockRejection::DuplicatedNullifiers))
    );
    assert_eq!(
        answer_of(&Err(ApplyBlockError::NewBlockInvalidNoteRoot)),
        Err(Refusal::InvalidBlock(BlockRejection::InvalidNoteRoot))
    );
    assert_eq!(
        answer_of(&Err(ApplyBlockError::DbBlockHeaderEmpty)),
        Err(Refusal::InvalidBlock(BlockRejection::NoPreviousBlock))
    );
    assert_eq!(answer_of(&Err(ApplyBlockError::ConcurrentWrite)), Err(Refusal::Contention));
    for error in [
        ApplyBlockError::BlockApplyingBrokenBecauseOfClosedChannel,
        ApplyBlockError::DurableCommitFailed,
        ApplyBlockError::ChainMmrFull,
        ApplyBlockError::BlockNotApplied,
    ] {
        assert_eq!(answer_of(&Err(error)), Err(Refusal::Internal));
    }
}

fn wire_note(index: u32) -> WireNoteCreated {
    WireNoteCreated {
        batch_index: 1,
        note_index: index,
        note_id: Some(w(8, 8, 8, 8)),
        note_type: 2,
        sender: Some(WireAccountId { id: OFF_CHAIN }),
        tag: 11,
        details: Some(vec![1, 2, 3]),
    }
}

#[test]
fn notes_of_a_request_are_read() {
    let note = convert_note(wire_note(4)).unwrap();
    assert_eq!(note.batch_index, 1);
    assert_eq!(note.note_index, 4);
    assert_eq!(note.note_id, d(8, 8, 8, 8));
    assert_eq!(note.note_type, NoteType::OffChain);
    assert_eq!(note.sender, OFF_CHAIN);
    assert_eq!(note.tag, 11);
    assert_eq!(note.details, Some(vec![1, 2, 3]));

    let mut n = wire_note(0);
    n.note_id = None;
    n.note_type = 9;
    assert_eq!(convert_note(n), Err(InvalidArgument::NoteMissingId));
    let mut n = wire_note(0);
    n.note_id = Some(bad());
    assert_eq!(convert_note(n), Err(InvalidArgument::DigestNotInField));
    let mut n = wire_note(0);
    n.note_type = 0;
    n.sender = None;
    assert_eq!(convert_note(n), Err(InvalidArgument::InvalidNoteType));
    let mut n = wire_note(0);
    n.note_type = 4;
    assert_eq!(convert_note(n), Err(InvalidArgument::InvalidNoteType));
    let mut n = wire_note(0);
    n.sender = None;
    assert_eq!(convert_note(n), Err(InvalidArgument::NoteMissingSender));

    let notes = convert_notes(vec![wire_note(0), wire_note(1), wire_note(2)]).unwrap();
    assert_eq!(notes.iter().map(|n| n.note_index).collect::<Vec<_>>(), vec![0, 1, 2]);
    let mut second = wire_note(1);
    second.sender = None;
    let mut third = wire_note(2);
    third.note_id = None;
    assert_eq!(
        convert_notes(vec![wire_note(0), second, third]),
        Err(InvalidArgument::NoteMissingSender)
    );
    assert_eq!(convert_notes(Vec::new()), Ok(Vec::new()));
}

#[test]
fn note_types_by_number() {
    assert_eq!(NoteType::try_from(1), Some(NoteType::Public));
    assert_eq!(NoteType::try_from(2), Some(NoteType::OffChain));
    assert_eq!(NoteType::try_from(3), Some(NoteType::Encrypted));
    assert_eq!(NoteType::try_from(0), None);
    assert_eq!(NoteType::try_from(4), None);
    assert_eq!(NoteType::try_from(1 << 32), None);
    assert_eq!(NoteType::Public.code(), 1);
    assert_eq!(NoteType::OffChain.code(), 2);
    assert_eq!(NoteType::Encrypted.code(), 3);
}

fn request() -> ApplyBlockRequest {
    ApplyBlockRequest {
        block: Some(wire_header()),
        accounts: vec![update(OFF_CHAIN, None)],
        nullifiers: vec![w(1, 1, 1, 1)],
        notes: vec![wire_note(0)],
    }
}

#[test]
fn apply_block_request_is_read_part_by_part() {
    let state = State::load(&Vec::new(), &Vec::new(), &Vec::new()).unwrap();
    let data = parse_apply_block_request(&state, request()).ok().unwrap();
    assert_eq!(data.block_header.block_num(), 5);
    assert_eq!(data.nullifiers, vec![d(1, 1, 1, 1)]);
    assert_eq!(data.accounts, vec![ValidAccount { id: OFF_CHAIN, hash: d(2, 2, 2, 2), details: None }]);
    assert_eq!(data.notes.len(), 1);

    let mut r = request();
    r.block = None;
    r.nullifiers = vec![bad()];
    assert_eq!(parse_apply_block_request(&state, r).err(), Some(InvalidArgument::MissingBlockHeader));
    let mut r = request();
    r.block.as_mut().unwrap().prev_hash = None;
    assert_eq!(parse_apply_block_request(&state, r).err(), Some(InvalidArgument::MissingHeaderField));
    let mut r = request();
    r.nullifiers = vec![bad()];
    r.accounts[0].account_id = None;
    assert_eq!(parse_apply_block_request(&state, r).err(), Some(InvalidArgument::DigestNotInField));
    let mut r = request();
    r.accounts[0].account_id = None;
    r.notes[0].sender = None;
    assert_eq!(
        parse_apply_block_request(&state, r).err(),
        Some(InvalidArgument::AccountUpdate(ConversionError::MissingAccountId))
    );
    let mut r = request();
    r.notes[0].sender = None;
    assert_eq!(parse_apply_block_request(&state, r).err(), Some(InvalidArgument::NoteMissingSender));
}

#[test]
fn requests_start_out_empty() {
    assert_eq!(ApplyBlockRequest::default().block, None);
    assert!(CheckNullifiersRequest::default().nullifiers.is_empty());
    assert_eq!(GetBlockHeaderByNumberRequest::default().block_num, None);
    assert_eq!(SyncStateRequest::default().block_num, 0);
    assert!(GetBlockInputsRequest::default().account_ids.is_empty());
    assert_eq!(GetTransactionInputsRequest::default().account_id, None);
    assert!(SubmitProvenTransactionRequest::default().transaction.is_empty());
    assert!(GetNotesByIdRequest::default().note_ids.is_empty());
    assert_eq!(ListNullifiersRequest::default(), ListNullifiersRequest {});
    assert_eq!(ListAccountsRequest::default(), ListAccountsRequest {});
    assert_eq!(ListNotesRequest::default(), ListNotesRequest {});
    assert_eq!(AccountUpdate::default().details, None);
}
