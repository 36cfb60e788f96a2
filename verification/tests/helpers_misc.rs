//! The small shared pieces: byte comparison, decimal rendering, the
//! record store, and invite validation.

use battleships::game_invite::{
    validate_create_game_invite, validate_delete_game_invite, validate_update_game_invite,
    GameInvite,
};
use battleships::helpers::{
    bytes_eq, copy_bytes, get_entry_for_record, must_get_valid_app_entry_and_author, to_decimal,
    EntryCreationAction, RecordStore, StoredRecord,
};
use battleships::validation::{ErrorKind, Rejection, ValidateCallbackResult, ValidationError};
use battleships::EntryTypes;

#[test]
fn bytes_eq_compares_exactly() {
    assert!(bytes_eq(&vec![], &vec![]));
    assert!(bytes_eq(&b"abc".to_vec(), &b"abc".to_vec()));
    assert!(!bytes_eq(&b"abc".to_vec(), &b"abd".to_vec()));
    assert!(!bytes_eq(&b"abc".to_vec(), &b"ab".to_vec()));
}

#[test]
fn copy_bytes_copies() {
    let v = b"hello".to_vec();
    assert_eq!(copy_bytes(&v), v);
}

#[test]
fn decimal_rendering_is_exact() {
    assert_eq!(to_decimal(0), b"0".to_vec());
    assert_eq!(to_decimal(7), b"7".to_vec());
    assert_eq!(to_decimal(10), b"10".to_vec());
    assert_eq!(to_decimal(9876543), b"9876543".to_vec());
}

fn invite_record() -> StoredRecord {
    StoredRecord {
        address: b"invite".to_vec(),
        author: b"alice".to_vec(),
        entry: EntryTypes::GameInvite(GameInvite {
            home_player: b"alice".to_vec(),
            away_player: b"bob".to_vec(),
        }),
    }
}

#[test]
fn store_resolves_first_match() {
    let mut second = invite_record();
    second.author = b"someone-else".to_vec();
    let store = RecordStore { records: vec![invite_record(), second] };
    let rec = must_get_valid_app_entry_and_author(&store, &b"invite".to_vec()).unwrap();
    assert_eq!(rec.author, b"alice".to_vec());
    match get_entry_for_record(rec) {
        EntryTypes::GameInvite(inv) => assert_eq!(inv.away_player, b"bob".to_vec()),
        other => panic!("wrong entry: {:?}", other),
    }
}

#[test]
fn store_misses_fail_hard() {
    let store = RecordStore { records: vec![invite_record()] };
    assert!(matches!(
        must_get_valid_app_entry_and_author(&store, &b"absent".to_vec()),
        Err(ValidationError::MissingRecord)
    ));
    assert_eq!(ValidationError::MissingRecord.kind(), ErrorKind::ReferenceError);
}

#[test]
fn invite_author_must_be_home_player() {
    let inv = GameInvite { home_player: b"alice".to_vec(), away_player: b"bob".to_vec() };
    let by_home = EntryCreationAction::Create { author: b"alice".to_vec() };
    assert_eq!(validate_create_game_invite(&by_home, &inv), ValidateCallbackResult::Valid);
    let by_away = EntryCreationAction::Create { author: b"bob".to_vec() };
    assert_eq!(
        validate_create_game_invite(&by_away, &inv),
        ValidateCallbackResult::Invalid(Rejection::HomePlayerMustBeAuthor)
    );
}

#[test]
fn self_invite_is_rejected() {
    let inv = GameInvite { home_player: b"alice".to_vec(), away_player: b"alice".to_vec() };
    let act = EntryCreationAction::Create { author: b"alice".to_vec() };
    assert_eq!(
        validate_create_game_invite(&act, &inv),
        ValidateCallbackResult::Invalid(Rejection::AwayPlayerCannotBeAuthor)
    );
}

#[test]
fn invites_are_immutable_and_permanent() {
    let inv = GameInvite { home_player: b"alice".to_vec(), away_player: b"bob".to_vec() };
    let act = EntryCreationAction::Create { author: b"alice".to_vec() };
    assert_eq!(
        validate_update_game_invite(&b"alice".to_vec(), &inv, &act, &inv),
        ValidateCallbackResult::Invalid(Rejection::GameInvitesCannotBeUpdated)
    );
    assert_eq!(
        validate_delete_game_invite(&b"alice".to_vec(), &act, &inv),
        ValidateCallbackResult::Invalid(Rejection::GameInvitesCannotBeDeleted)
    );
}
