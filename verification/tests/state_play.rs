//! Reading a game's state and building the records a player submits.

use battleships::game_invite::GameInvite;
use battleships::game_play::{
    fire_first_shot, fire_next_shot, get_latest_game_transcript_revision,
    get_original_game_transcript_hash_for_game_invite, get_your_ship_deployment_for_invite,
    PlayError, UpdateLink,
};
use battleships::game_state::{get_game_state, GameState, GameStateError};
use battleships::game_transcript::{GameTranscript, GameTurn, Shot, ShotOutcome};
use battleships::helpers::{StoredRecord};
use battleships::ship_deployment_proof::ShipDeploymentProof;
use battleships::EntryTypes;

fn invite() -> GameInvite {
    GameInvite { home_player: b"alice".to_vec(), away_player: b"bob".to_vec() }
}

fn sdp_record(address: &[u8], author: &[u8]) -> StoredRecord {
    StoredRecord {
        address: address.to_vec(),
        author: author.to_vec(),
        entry: EntryTypes::ShipDeploymentProof(ShipDeploymentProof {
            invite: b"invite".to_vec(),
            private_entry: b"placement".to_vec(),
            commitment: b"11".to_vec(),
            proof: b"proof".to_vec(),
        }),
    }
}

fn transcript() -> GameTranscript {
    GameTranscript {
        invite: b"invite".to_vec(),
        home_player_deployment_proof: b"sdp-alice".to_vec(),
        away_player_deployment_proof: b"sdp-bob".to_vec(),
        home_player_shots: vec![Shot { x: 5, y: 5 }],
        away_player_shots: vec![Shot { x: 3, y: 3 }, Shot { x: 4, y: 4 }],
        home_player_hit_or_miss_proofs: vec![
            ShotOutcome { proof_hash: b"hom-1".to_vec(), hit: true },
            ShotOutcome { proof_hash: b"hom-3".to_vec(), hit: false },
        ],
        away_player_hit_or_miss_proofs: vec![ShotOutcome { proof_hash: b"hom-2".to_vec(), hit: false }],
    }
}

#[test]
fn no_deployments_means_awaiting_both() {
    assert_eq!(get_game_state(&invite(), &vec![], None), Ok(GameState::AwaitingBothDeployments));
}

#[test]
fn one_deployment_names_the_missing_side() {
    assert_eq!(
        get_game_state(&invite(), &vec![b"alice".to_vec()], None),
        Ok(GameState::AwaitingAwayDeployment)
    );
    assert_eq!(
        get_game_state(&invite(), &vec![b"bob".to_vec()], None),
        Ok(GameState::AwaitingHomeDeployment)
    );
}

#[test]
fn a_strangers_deployment_is_an_error() {
    assert_eq!(
        get_game_state(&invite(), &vec![b"mallory".to_vec()], None),
        Err(GameStateError::NonPlayerDeployed)
    );
}

#[test]
fn three_deployments_are_an_error() {
    let authors = vec![b"alice".to_vec(), b"bob".to_vec(), b"bob".to_vec()];
    assert_eq!(get_game_state(&invite(), &authors, None), Err(GameStateError::TooManyDeployments));
}

#[test]
fn both_deployed_without_transcript_awaits_away_shot() {
    let authors = vec![b"alice".to_vec(), b"bob".to_vec()];
    match get_game_state(&invite(), &authors, None) {
        Ok(GameState::GameStarted(interp)) => {
            assert_eq!(interp.turn, GameTurn::AwayShot);
            assert!(interp.shots_aimed_at_home.is_empty());
            assert!(interp.shots_aimed_at_away.is_empty());
        },
        other => panic!("unexpected state: {:?}", other),
    }
}

#[test]
fn started_game_pairs_shots_with_outcomes() {
    let authors = vec![b"alice".to_vec(), b"bob".to_vec()];
    let t = transcript();
    match get_game_state(&invite(), &authors, Some(&t)) {
        Ok(GameState::GameStarted(interp)) => {
            assert_eq!(interp.turn, GameTurn::HomeShot);
            assert_eq!(interp.shots_aimed_at_home.len(), 2);
            assert_eq!(interp.shots_aimed_at_home[0].shot, Shot { x: 3, y: 3 });
            assert!(!interp.shots_aimed_at_home[0].pending);
            assert!(interp.shots_aimed_at_home[0].hit);
            assert_eq!(interp.shots_aimed_at_home[1].shot, Shot { x: 4, y: 4 });
            assert!(!interp.shots_aimed_at_home[1].pending);
            assert!(!interp.shots_aimed_at_home[1].hit);
            assert_eq!(interp.shots_aimed_at_away.len(), 1);
            assert_eq!(interp.shots_aimed_at_away[0].shot, Shot { x: 5, y: 5 });
            assert!(!interp.shots_aimed_at_away[0].pending);
        },
        other => panic!("unexpected state: {:?}", other),
    }
}

#[test]
fn unproven_shot_shows_as_pending() {
    let authors = vec![b"alice".to_vec(), b"bob".to_vec()];
    let mut t = transcript();
    t.home_player_hit_or_miss_proofs.pop();
    match get_game_state(&invite(), &authors, Some(&t)) {
        Ok(GameState::GameStarted(interp)) => {
            assert!(!interp.shots_aimed_at_home[0].pending);
            assert!(interp.shots_aimed_at_home[1].pending);
            assert!(!interp.shots_aimed_at_home[1].hit);
        },
        other => panic!("unexpected state: {:?}", other),
    }
}

#[test]
fn first_shot_builds_the_opening_transcript() {
    let records = vec![sdp_record(b"sdp-alice", b"alice"), sdp_record(b"sdp-bob", b"bob")];
    let t = fire_first_shot(&invite(), &b"invite".to_vec(), &records, Shot { x: 3, y: 3 }).unwrap();
    assert_eq!(t.invite, b"invite".to_vec());
    assert_eq!(t.home_player_deployment_proof, b"sdp-alice".to_vec());
    assert_eq!(t.away_player_deployment_proof, b"sdp-bob".to_vec());
    assert_eq!(t.away_player_shots, vec![Shot { x: 3, y: 3 }]);
    assert!(t.home_player_shots.is_empty());
    assert!(t.home_player_hit_or_miss_proofs.is_empty());
    assert!(t.away_player_hit_or_miss_proofs.is_empty());
}

#[test]
fn first_shot_matches_proofs_to_players_in_either_order() {
    let records = vec![sdp_record(b"sdp-bob", b"bob"), sdp_record(b"sdp-alice", b"alice")];
    let t = fire_first_shot(&invite(), &b"invite".to_vec(), &records, Shot { x: 0, y: 0 }).unwrap();
    assert_eq!(t.home_player_deployment_proof, b"sdp-alice".to_vec());
    assert_eq!(t.away_player_deployment_proof, b"sdp-bob".to_vec());
}

#[test]
fn first_shot_needs_both_deployment_proofs() {
    let records = vec![sdp_record(b"sdp-alice", b"alice")];
    assert_eq!(
        fire_first_shot(&invite(), &b"invite".to_vec(), &records, Shot { x: 0, y: 0 }),
        Err(PlayError::MissingDeploymentProofs)
    );
    let records = vec![sdp_record(b"sdp-alice", b"alice"), sdp_record(b"sdp-x", b"mallory")];
    assert_eq!(
        fire_first_shot(&invite(), &b"invite".to_vec(), &records, Shot { x: 0, y: 0 }),
        Err(PlayError::DeploymentProofsDontMatchPlayers)
    );
}

#[test]
fn next_shot_goes_to_the_right_list() {
    let t = transcript();
    // The transcript above is in the home-shot phase.
    let u = fire_next_shot(&t, Shot { x: 6, y: 6 }).unwrap();
    assert_eq!(u.home_player_shots.len(), 2);
    assert_eq!(u.home_player_shots[1], Shot { x: 6, y: 6 });
    assert_eq!(u.away_player_shots, t.away_player_shots);
    assert_eq!(u.invite, t.invite);
}

#[test]
fn next_shot_out_of_phase_is_refused() {
    let mut t = transcript();
    // Complete the cycle so that it is the away player's proof phase.
    t.home_player_shots.push(Shot { x: 6, y: 6 });
    t.away_player_hit_or_miss_proofs.pop();
    assert_eq!(fire_next_shot(&t, Shot { x: 7, y: 7 }), Err(PlayError::WrongTimeToFire));
}

fn link(target: &[u8], timestamp: i64) -> UpdateLink {
    UpdateLink { target: target.to_vec(), timestamp }
}

#[test]
fn latest_revision_is_newest_by_timestamp() {
    let links = vec![link(b"rev-1", 10), link(b"rev-3", 30), link(b"rev-2", 20)];
    let best = get_latest_game_transcript_revision(&links).unwrap();
    assert_eq!(best.target, b"rev-3".to_vec());
}

#[test]
fn latest_revision_breaks_ties_by_address() {
    let links = vec![link(b"rev-a", 10), link(b"rev-c", 10), link(b"rev-b", 10)];
    let best = get_latest_game_transcript_revision(&links).unwrap();
    assert_eq!(best.target, b"rev-c".to_vec());
}

#[test]
fn no_links_means_the_original_is_latest() {
    assert!(get_latest_game_transcript_revision(&vec![]).is_none());
}

#[test]
fn original_transcript_hash_is_the_last_game_link() {
    assert!(get_original_game_transcript_hash_for_game_invite(&vec![]).is_none());
    let links = vec![link(b"game-1", 5), link(b"game-2", 9)];
    assert_eq!(
        get_original_game_transcript_hash_for_game_invite(&links).unwrap(),
        &b"game-2".to_vec()
    );
}

#[test]
fn your_deployment_is_found_among_links() {
    let records = vec![sdp_record(b"sdp-alice", b"alice"), sdp_record(b"sdp-bob", b"bob")];
    let yours = get_your_ship_deployment_for_invite(&records, &b"alice".to_vec()).unwrap().unwrap();
    assert_eq!(yours.address, b"sdp-alice".to_vec());
    assert_eq!(get_your_ship_deployment_for_invite(&records, &b"carol".to_vec()), Ok(None));
}

#[test]
fn two_own_deployments_are_an_error() {
    let records = vec![sdp_record(b"sdp-1", b"alice"), sdp_record(b"sdp-2", b"alice")];
    assert_eq!(
        get_your_ship_deployment_for_invite(&records, &b"alice".to_vec()),
        Err(PlayError::MultipleDeployments)
    );
}
