//! The validation dispatcher: every operation kind routed to its rule.

use battleships::game_invite::GameInvite;
use battleships::game_transcript::{GameTranscript, Shot};
use battleships::groth16::{prepare, G1Coords, G2Coords, VkDocument};
use battleships::helpers::{EntryCreationAction, RecordStore, StoredRecord};
use battleships::ship_deployment::{GameRules, Ship, ShipDeployment};
use battleships::ship_deployment_proof::ShipDeploymentProof;
use battleships::validation::{Rejection, ValidateCallbackResult, ValidationError};
use battleships::{genesis_self_check, validate, validate_agent_joining, EntryTypes, LinkTypes, Op,
    VerifierKeys};

/// A structurally well-formed key document; its points are arbitrary,
/// which only matters to operations that verify proofs.
fn dummy_doc(seed: u8) -> VkDocument {
    let c = |v: u8| format!("{}", 100 + v as u32).into_bytes();
    let g1 = |v: u8| G1Coords { x: c(v), y: c(v + 1) };
    let g2 = |v: u8| G2Coords { x0: c(v), x1: c(v + 1), y0: c(v + 2), y1: c(v + 3) };
    VkDocument {
        protocol: b"groth16".to_vec(),
        curve: b"bn128".to_vec(),
        n_public: 1,
        alpha: g1(seed),
        beta: g2(seed + 2),
        gamma: g2(seed + 6),
        delta: g2(seed + 10),
        ic: vec![g1(seed + 14), g1(seed + 16)],
    }
}

fn keys() -> VerifierKeys {
    VerifierKeys {
        fleet_legality: prepare(&dummy_doc(1)).unwrap(),
        shot_consistency: prepare(&dummy_doc(40)).unwrap(),
    }
}

fn invite() -> GameInvite {
    GameInvite { home_player: b"alice".to_vec(), away_player: b"bob".to_vec() }
}

fn store() -> RecordStore {
    RecordStore {
        records: vec![
            StoredRecord {
                address: b"invite".to_vec(),
                author: b"alice".to_vec(),
                entry: EntryTypes::GameInvite(invite()),
            },
            StoredRecord {
                address: b"sdp-alice".to_vec(),
                author: b"alice".to_vec(),
                entry: EntryTypes::ShipDeploymentProof(ShipDeploymentProof {
                    invite: b"invite".to_vec(),
                    private_entry: b"placement".to_vec(),
                    commitment: b"11".to_vec(),
                    proof: b"proof".to_vec(),
                }),
            },
            StoredRecord {
                address: b"game-1".to_vec(),
                author: b"bob".to_vec(),
                entry: EntryTypes::GameTranscript(GameTranscript {
                    invite: b"invite".to_vec(),
                    home_player_deployment_proof: b"sdp-alice".to_vec(),
                    away_player_deployment_proof: b"sdp-bob".to_vec(),
                    home_player_shots: vec![],
                    away_player_shots: vec![Shot { x: 3, y: 3 }],
                    home_player_hit_or_miss_proofs: vec![],
                    away_player_hit_or_miss_proofs: vec![],
                }),
            },
        ],
    }
}

fn run(op: Op) -> Result<ValidateCallbackResult, ValidationError> {
    validate(&op, &store(), &GameRules::default(), &keys())
}

#[test]
fn dispatcher_accepts_a_valid_invite() {
    let op = Op::StoreEntry {
        action: EntryCreationAction::Create { author: b"alice".to_vec() },
        entry: EntryTypes::GameInvite(invite()),
    };
    assert_eq!(run(op), Ok(ValidateCallbackResult::Valid));
}

#[test]
fn dispatcher_rejects_an_invite_by_the_wrong_author() {
    let op = Op::StoreEntry {
        action: EntryCreationAction::Create { author: b"bob".to_vec() },
        entry: EntryTypes::GameInvite(invite()),
    };
    assert_eq!(run(op), Ok(ValidateCallbackResult::Invalid(Rejection::HomePlayerMustBeAuthor)));
}

#[test]
fn dispatcher_judges_deployments_by_the_fleet_rule() {
    let good = ShipDeployment {
        ships: vec![
            Ship { x: 0, y: 0, horizontal: true },
            Ship { x: 0, y: 1, horizontal: true },
            Ship { x: 0, y: 2, horizontal: true },
            Ship { x: 0, y: 3, horizontal: true },
            Ship { x: 0, y: 4, horizontal: true },
        ],
    };
    let op = Op::StoreEntry {
        action: EntryCreationAction::Create { author: b"alice".to_vec() },
        entry: EntryTypes::ShipDeployment(good),
    };
    assert_eq!(run(op), Ok(ValidateCallbackResult::Valid));
}

#[test]
fn dispatcher_rejects_every_deletion() {
    let op = Op::RegisterDelete {
        author: b"alice".to_vec(),
        original_action: EntryCreationAction::Create { author: b"alice".to_vec() },
        original_entry: EntryTypes::GameInvite(invite()),
    };
    assert_eq!(
        run(op),
        Ok(ValidateCallbackResult::Invalid(Rejection::GameInvitesCannotBeDeleted))
    );
}

#[test]
fn dispatcher_rejects_cross_type_updates() {
    let op = Op::RegisterUpdate {
        author: b"alice".to_vec(),
        entry: EntryTypes::GameInvite(invite()),
        original_action: EntryCreationAction::Create { author: b"alice".to_vec() },
        original_entry: EntryTypes::ShipDeploymentProof(ShipDeploymentProof {
            invite: b"invite".to_vec(),
            private_entry: b"placement".to_vec(),
            commitment: b"11".to_vec(),
            proof: b"proof".to_vec(),
        }),
    };
    assert_eq!(run(op), Ok(ValidateCallbackResult::Invalid(Rejection::EntryTypeMismatch)));
}

#[test]
fn dispatcher_validates_link_targets() {
    let op = Op::RegisterCreateLink {
        link_type: LinkTypes::Invites,
        author: b"alice".to_vec(),
        base_address: b"alice".to_vec(),
        target_address: b"invite".to_vec(),
    };
    assert_eq!(run(op), Ok(ValidateCallbackResult::Valid));

    let op = Op::RegisterCreateLink {
        link_type: LinkTypes::Invites,
        author: b"alice".to_vec(),
        base_address: b"alice".to_vec(),
        target_address: b"sdp-alice".to_vec(),
    };
    assert_eq!(run(op), Err(ValidationError::WrongEntryType));

    let op = Op::RegisterCreateLink {
        link_type: LinkTypes::DeploymentProofs,
        author: b"alice".to_vec(),
        base_address: b"invite".to_vec(),
        target_address: b"sdp-alice".to_vec(),
    };
    assert_eq!(run(op), Ok(ValidateCallbackResult::Valid));
}

#[test]
fn game_links_point_at_the_transcript() {
    let ok = Op::RegisterCreateLink {
        link_type: LinkTypes::Game,
        author: b"bob".to_vec(),
        base_address: b"invite".to_vec(),
        target_address: b"game-1".to_vec(),
    };
    assert_eq!(run(ok), Ok(ValidateCallbackResult::Valid));

    let bad = Op::RegisterCreateLink {
        link_type: LinkTypes::Game,
        author: b"bob".to_vec(),
        base_address: b"invite".to_vec(),
        target_address: b"invite".to_vec(),
    };
    assert_eq!(run(bad), Err(ValidationError::WrongEntryType));
}

#[test]
fn transcript_update_links_need_transcript_endpoints() {
    let ok = Op::RegisterCreateLink {
        link_type: LinkTypes::GameTranscriptUpdates,
        author: b"bob".to_vec(),
        base_address: b"game-1".to_vec(),
        target_address: b"game-1".to_vec(),
    };
    assert_eq!(run(ok), Ok(ValidateCallbackResult::Valid));

    let bad = Op::RegisterCreateLink {
        link_type: LinkTypes::GameTranscriptUpdates,
        author: b"bob".to_vec(),
        base_address: b"invite".to_vec(),
        target_address: b"game-1".to_vec(),
    };
    assert_eq!(run(bad), Err(ValidationError::WrongEntryType));
}

#[test]
fn link_deletions_are_rejected() {
    assert_eq!(
        run(Op::RegisterDeleteLink),
        Ok(ValidateCallbackResult::Invalid(Rejection::LinksCannotBeDeleted))
    );
}

#[test]
fn agent_activity_and_genesis_pass() {
    assert_eq!(run(Op::RegisterAgentActivity), Ok(ValidateCallbackResult::Valid));
    assert_eq!(genesis_self_check(), ValidateCallbackResult::Valid);
    assert_eq!(
        validate_agent_joining(&b"alice".to_vec(), &None),
        ValidateCallbackResult::Valid
    );
}
