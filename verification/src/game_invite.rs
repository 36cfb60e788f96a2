//! Game invites: the record that names the two participants.

use vstd::prelude::*;

use crate::helpers::bytes_eq;
use crate::helpers::must_get_valid_app_entry_and_author;
use crate::helpers::store_lookup;
use crate::helpers::EntryCreationAction;
use crate::helpers::RecordStore;
use crate::helpers::StoredRecordView;
use crate::validation::Rejection;
use crate::validation::ValidateCallbackResult;
use crate::validation::ValidationError;
use crate::EntryTypes;
use crate::EntryView;

verus! {

/// The two participants of one game. Immutable once created; created by
/// the home player.
#[derive(Clone, Debug, PartialEq, Eq)]
pub struct GameInvite {
    pub home_player: Vec<u8>,
    pub away_player: Vec<u8>,
}

pub ghost struct GameInviteView {
    pub home_player: Seq<u8>,
    pub away_player: Seq<u8>,
}

impl View for GameInvite {
    type V = GameInviteView;

    open spec fn view(&self) -> GameInviteView {
        GameInviteView { home_player: self.home_player@, away_player: self.away_player@ }
    }
}

/// A new invite is accepted exactly when its author is the home player
/// and not the away player.
pub open spec fn create_invite_verdict(inv: GameInviteView, author: Seq<u8>) -> ValidateCallbackResult {
    if inv.home_player != author {
        ValidateCallbackResult::Invalid(Rejection::HomePlayerMustBeAuthor)
    } else if inv.away_player == author {
        ValidateCallbackResult::Invalid(Rejection::AwayPlayerCannotBeAuthor)
    } else {
        ValidateCallbackResult::Valid
    }
}

/// Accept a new invite exactly when its author is the home player and
/// not the away player.
pub fn validate_create_game_invite(action: &EntryCreationAction, game_invite: &GameInvite) -> (r:
    ValidateCallbackResult)
    ensures
        r == create_invite_verdict(game_invite@, action.author_spec()),
{
    if !bytes_eq(&game_invite.home_player, action.author()) {
        return ValidateCallbackResult::Invalid(Rejection::HomePlayerMustBeAuthor);
    }
    if bytes_eq(&game_invite.away_player, action.author()) {
        return ValidateCallbackResult::Invalid(Rejection::AwayPlayerCannotBeAuthor);
    }
    ValidateCallbackResult::Valid
}

/// Invites can never be updated.
pub fn validate_update_game_invite(
    author: &Vec<u8>,
    game_invite: &GameInvite,
    original_action: &EntryCreationAction,
    original_game_invite: &GameInvite,
) -> (r: ValidateCallbackResult)
    ensures
        r == ValidateCallbackResult::Invalid(Rejection::GameInvitesCannotBeUpdated),
{
    ValidateCallbackResult::Invalid(Rejection::GameInvitesCannotBeUpdated)
}

/// Invites can never be deleted.
pub fn validate_delete_game_invite(
    author: &Vec<u8>,
    original_action: &EntryCreationAction,
    original_game_invite: &GameInvite,
) -> (r: ValidateCallbackResult)
    ensures
        r == ValidateCallbackResult::Invalid(Rejection::GameInvitesCannotBeDeleted),
{
    ValidateCallbackResult::Invalid(Rejection::GameInvitesCannotBeDeleted)
}

/// A link target must resolve to a game invite; any other resolution
/// is a hard reference failure.
pub open spec fn link_to_invite_verdict(
    store: Seq<StoredRecordView>,
    target: Seq<u8>,
) -> Result<ValidateCallbackResult, ValidationError> {
    match store_lookup(store, target) {
        Option::None => Err(ValidationError::MissingRecord),
        Option::Some(rec) => match rec.entry {
            EntryView::GameInvite(_) => Ok(ValidateCallbackResult::Valid),
            _ => Err(ValidationError::WrongEntryType),
        },
    }
}

fn require_invite_target(store: &RecordStore, target_address: &Vec<u8>) -> (r: Result<
    ValidateCallbackResult,
    ValidationError,
>)
    ensures
        r == link_to_invite_verdict(store@, target_address@),
{
    let rec = match must_get_valid_app_entry_and_author(store, target_address) {
        Ok(rec) => rec,
        Err(e) => {
            return Err(e);
        },
    };
    match &rec.entry {
        EntryTypes::GameInvite(_) => Ok(ValidateCallbackResult::Valid),
        _ => Err(ValidationError::WrongEntryType),
    }
}

/// A participant-to-invite link is valid when its target is an invite.
pub fn validate_create_link_invites(
    author: &Vec<u8>,
    base_address: &Vec<u8>,
    target_address: &Vec<u8>,
    store: &RecordStore,
) -> (r: Result<ValidateCallbackResult, ValidationError>)
    ensures
        r == link_to_invite_verdict(store@, target_address@),
{
    require_invite_target(store, target_address)
}

/// A game link's target must resolve to the game's transcript.
pub open spec fn link_to_transcript_verdict(
    store: Seq<StoredRecordView>,
    target: Seq<u8>,
) -> Result<ValidateCallbackResult, ValidationError> {
    match store_lookup(store, target) {
        Option::None => Err(ValidationError::MissingRecord),
        Option::Some(rec) => match rec.entry {
            EntryView::GameTranscript(_) => Ok(ValidateCallbackResult::Valid),
            _ => Err(ValidationError::WrongEntryType),
        },
    }
}

/// An invite-to-game link is valid when its target is the game's
/// transcript.
pub fn validate_create_link_game(
    author: &Vec<u8>,
    base_address: &Vec<u8>,
    target_address: &Vec<u8>,
    store: &RecordStore,
) -> (r: Result<ValidateCallbackResult, ValidationError>)
    ensures
        r == link_to_transcript_verdict(store@, target_address@),
{
    let rec = match must_get_valid_app_entry_and_author(store, target_address) {
        Ok(rec) => rec,
        Err(e) => {
            return Err(e);
        },
    };
    match &rec.entry {
        EntryTypes::GameTranscript(_) => Ok(ValidateCallbackResult::Valid),
        _ => Err(ValidationError::WrongEntryType),
    }
}

/// The verdict on a link to a private placement: the target record
/// must exist, but peers cannot see into a private entry, so nothing
/// more is judged.
pub open spec fn link_to_deployment_verdict(
    store: Seq<StoredRecordView>,
    target: Seq<u8>,
) -> Result<ValidateCallbackResult, ValidationError> {
    match store_lookup(store, target) {
        Option::None => Err(ValidationError::MissingRecord),
        Option::Some(_) => Ok(ValidateCallbackResult::Valid),
    }
}

/// An invite-to-placement link is valid when its target exists; the
/// placement itself is private and cannot be validated by peers.
pub fn validate_create_link_deployment(
    author: &Vec<u8>,
    base_address: &Vec<u8>,
    target_address: &Vec<u8>,
    store: &RecordStore,
) -> (r: Result<ValidateCallbackResult, ValidationError>)
    ensures
        r == link_to_deployment_verdict(store@, target_address@),
{
    match must_get_valid_app_entry_and_author(store, target_address) {
        Ok(_) => Ok(ValidateCallbackResult::Valid),
        Err(e) => Err(e),
    }
}

/// A link target must resolve to a deployment proof.
pub open spec fn link_to_deployment_proof_verdict(
    store: Seq<StoredRecordView>,
    target: Seq<u8>,
) -> Result<ValidateCallbackResult, ValidationError> {
    match store_lookup(store, target) {
        Option::None => Err(ValidationError::MissingRecord),
        Option::Some(rec) => match rec.entry {
            EntryView::ShipDeploymentProof(_) => Ok(ValidateCallbackResult::Valid),
            _ => Err(ValidationError::WrongEntryType),
        },
    }
}

/// An invite-to-deployment-proof link is valid when its target is a
/// deployment proof.
pub fn validate_create_link_deployment_proof(
    author: &Vec<u8>,
    base_address: &Vec<u8>,
    target_address: &Vec<u8>,
    store: &RecordStore,
) -> (r: Result<ValidateCallbackResult, ValidationError>)
    ensures
        r == link_to_deployment_proof_verdict(store@, target_address@),
{
    let rec = match must_get_valid_app_entry_and_author(store, target_address) {
        Ok(rec) => rec,
        Err(e) => {
            return Err(e);
        },
    };
    match &rec.entry {
        EntryTypes::ShipDeploymentProof(_) => Ok(ValidateCallbackResult::Valid),
        _ => Err(ValidationError::WrongEntryType),
    }
}

} // verus!
