//! Peer-replicated validation rules for a two-party battleships game.
//!
//! Two players exchange append-only, content-addressed, author-signed
//! records; every peer re-validates the whole history with the pure rules
//! in this crate. The crate covers turn inference on the shared transcript,
//! acceptance of transcript updates, fleet-deployment legality, and
//! verification of the zero-knowledge proofs that tie shots to hidden
//! fleet commitments.
//!
//! The ledger itself (storage, retrieval, linking, identity) is an
//! external collaborator: callers resolve every cross-referenced record
//! by content address and hand the resolved records in as a
//! [`helpers::RecordStore`], so validation stays a pure function that
//! every peer can run identically.

use vstd::prelude::*;

pub mod game_invite;
pub mod game_play;
pub mod game_state;
pub mod game_transcript;
pub mod groth16;
pub mod helpers;
pub mod hit_or_miss_proof;
pub mod ship_deployment;
pub mod ship_deployment_proof;
pub mod validation;

use game_invite::GameInvite;
use game_invite::GameInviteView;
use game_transcript::GameTranscript;
use game_transcript::TranscriptView;
use groth16::key_repr;
use groth16::PreparedKey;
use groth16::VkView;
use helpers::EntryCreationAction;
use helpers::RecordStore;
use helpers::StoredRecordView;
use hit_or_miss_proof::HitOrMissProof;
use hit_or_miss_proof::HitOrMissProofView;
use ship_deployment::GameRules;
use ship_deployment::RulesView;
use ship_deployment::ShipDeployment;
use ship_deployment::ShipView;
use ship_deployment_proof::ShipDeploymentProof;
use ship_deployment_proof::ShipDeploymentProofView;
use validation::Rejection;
use validation::ValidateCallbackResult;
use validation::ValidationError;

verus! {

/// Every kind of record this game replicates.
#[derive(Clone, Debug, PartialEq, Eq)]
pub enum EntryTypes {
    GameInvite(GameInvite),
    ShipDeployment(ShipDeployment),
    ShipDeploymentProof(ShipDeploymentProof),
    HitOrMissProof(HitOrMissProof),
    GameTranscript(GameTranscript),
}

pub ghost enum EntryView {
    GameInvite(GameInviteView),
    ShipDeployment(Seq<ShipView>),
    ShipDeploymentProof(ShipDeploymentProofView),
    HitOrMissProof(HitOrMissProofView),
    GameTranscript(TranscriptView),
}

impl View for EntryTypes {
    type V = EntryView;

    open spec fn view(&self) -> EntryView {
        match self {
            EntryTypes::GameInvite(e) => EntryView::GameInvite(e@),
            EntryTypes::ShipDeployment(e) => EntryView::ShipDeployment(e@),
            EntryTypes::ShipDeploymentProof(e) => EntryView::ShipDeploymentProof(e@),
            EntryTypes::HitOrMissProof(e) => EntryView::HitOrMissProof(e@),
            EntryTypes::GameTranscript(e) => EntryView::GameTranscript(e@),
        }
    }
}

/// The kinds of links the game creates between records.
#[derive(Clone, Copy, Debug, PartialEq, Eq)]
pub enum LinkTypes {
    /// A participant to an invite they are part of.
    Invites,
    /// An invite to a player's private fleet placement.
    Placements,
    /// An invite to a player's deployment proof.
    DeploymentProofs,
    /// An invite to the game's transcript.
    Game,
    /// The original transcript revision to a later one.
    GameTranscriptUpdates,
}

/// The two fixed verifying keys of the game, preprocessed: one proves
/// a committed fleet legal, one proves a shot's outcome against a
/// commitment.
pub struct VerifierKeys {
    pub fleet_legality: PreparedKey,
    pub shot_consistency: PreparedKey,
}

/// One operation the host hands to validation, with every record it
/// refers to already resolved into plain values.
pub enum Op {
    /// A record is being stored, either as a first creation or as the
    /// carrier of an update.
    StoreEntry { action: EntryCreationAction, entry: EntryTypes },
    /// An update of an existing record is being registered.
    RegisterUpdate {
        author: Vec<u8>,
        entry: EntryTypes,
        original_action: EntryCreationAction,
        original_entry: EntryTypes,
    },
    /// A deletion of an existing record is being registered.
    RegisterDelete {
        author: Vec<u8>,
        original_action: EntryCreationAction,
        original_entry: EntryTypes,
    },
    /// A link between two records is being created.
    RegisterCreateLink {
        link_type: LinkTypes,
        author: Vec<u8>,
        base_address: Vec<u8>,
        target_address: Vec<u8>,
    },
    /// A link is being deleted.
    RegisterDeleteLink,
    /// A peer's own chain activity, judged elsewhere.
    RegisterAgentActivity,
}

/// Nothing constrains a fresh agent's genesis.
pub fn genesis_self_check() -> (r: ValidateCallbackResult)
    ensures
        r == ValidateCallbackResult::Valid,
{
    ValidateCallbackResult::Valid
}

/// Anyone may join; there is no membrane.
pub fn validate_agent_joining(agent_pub_key: &Vec<u8>, membrane_proof: &Option<Vec<u8>>) -> (r:
    ValidateCallbackResult)
    ensures
        r == ValidateCallbackResult::Valid,
{
    ValidateCallbackResult::Valid
}

/// The exact verdict of the dispatcher on one operation.
pub open spec fn validate_spec(
    op: Op,
    store: Seq<StoredRecordView>,
    rules: RulesView,
    fleet_key: VkView,
    shot_key: VkView,
) -> Result<ValidateCallbackResult, ValidationError> {
    match op {
        Op::StoreEntry { action, entry } => match entry {
            EntryTypes::GameInvite(inv) => Ok(
                game_invite::create_invite_verdict(inv@, action.author_spec()),
            ),
            EntryTypes::ShipDeployment(sd) => Ok(ship_deployment::deployment_verdict(rules, sd@)),
            EntryTypes::ShipDeploymentProof(p) => ship_deployment_proof::create_deployment_proof_verdict(
                p@,
                fleet_key,
            ),
            EntryTypes::HitOrMissProof(h) => hit_or_miss_proof::create_hit_or_miss_verdict(
                h@,
                store,
                shot_key,
            ),
            EntryTypes::GameTranscript(t) => game_transcript::create_transcript_verdict(
                t@,
                action.is_update(),
                action.author_spec(),
                store,
                rules.board_size,
            ),
        },
        Op::RegisterUpdate { author, entry, original_action, original_entry } => match entry {
            EntryTypes::GameInvite(_) => {
                if original_entry is GameInvite {
                    Ok(ValidateCallbackResult::Invalid(Rejection::GameInvitesCannotBeUpdated))
                } else {
                    Ok(ValidateCallbackResult::Invalid(Rejection::EntryTypeMismatch))
                }
            },
            EntryTypes::ShipDeployment(_) => {
                if original_entry is ShipDeployment {
                    Ok(ValidateCallbackResult::Invalid(Rejection::ShipDeploymentsCannotBeUpdated))
                } else {
                    Ok(ValidateCallbackResult::Invalid(Rejection::EntryTypeMismatch))
                }
            },
            EntryTypes::ShipDeploymentProof(_) => {
                if original_entry is ShipDeploymentProof {
                    Ok(ValidateCallbackResult::Invalid(Rejection::DeploymentProofsCannotBeUpdated))
                } else {
                    Ok(ValidateCallbackResult::Invalid(Rejection::EntryTypeMismatch))
                }
            },
            EntryTypes::HitOrMissProof(_) => {
                if original_entry is HitOrMissProof {
                    Ok(ValidateCallbackResult::Invalid(Rejection::HitOrMissProofsCannotBeUpdated))
                } else {
                    Ok(ValidateCallbackResult::Invalid(Rejection::EntryTypeMismatch))
                }
            },
            EntryTypes::GameTranscript(t) => match original_entry {
                EntryTypes::GameTranscript(orig) => game_transcript::update_transcript_verdict(
                    t@,
                    orig@,
                    author@,
                    store,
                    rules.board_size,
                ),
                _ => Ok(ValidateCallbackResult::Invalid(Rejection::EntryTypeMismatch)),
            },
        },
        Op::RegisterDelete { author, original_action, original_entry } => match original_entry {
            EntryTypes::GameInvite(_) => Ok(
                ValidateCallbackResult::Invalid(Rejection::GameInvitesCannotBeDeleted),
            ),
            EntryTypes::ShipDeployment(_) => Ok(
                ValidateCallbackResult::Invalid(Rejection::ShipDeploymentsCannotBeDeleted),
            ),
            EntryTypes::ShipDeploymentProof(_) => Ok(
                ValidateCallbackResult::Invalid(Rejection::DeploymentProofsCannotBeDeleted),
            ),
            EntryTypes::HitOrMissProof(_) => Ok(
                ValidateCallbackResult::Invalid(Rejection::HitOrMissProofsCannotBeDeleted),
            ),
            EntryTypes::GameTranscript(_) => Ok(
                ValidateCallbackResult::Invalid(Rejection::TranscriptsCannotBeDeleted),
            ),
        },
        Op::RegisterCreateLink { link_type, author, base_address, target_address } => match link_type {
            LinkTypes::Invites => game_invite::link_to_invite_verdict(store, target_address@),
            LinkTypes::Placements => game_invite::link_to_deployment_verdict(
                store,
                target_address@,
            ),
            LinkTypes::DeploymentProofs => game_invite::link_to_deployment_proof_verdict(
                store,
                target_address@,
            ),
            LinkTypes::Game => game_invite::link_to_transcript_verdict(store, target_address@),
            LinkTypes::GameTranscriptUpdates => game_transcript::link_transcript_updates_verdict(
                store,
                base_address@,
                target_address@,
            ),
        },
        Op::RegisterDeleteLink => Ok(
            ValidateCallbackResult::Invalid(Rejection::LinksCannotBeDeleted),
        ),
        Op::RegisterAgentActivity => Ok(ValidateCallbackResult::Valid),
    }
}

/// The validation dispatcher: judge one operation with the rules of
/// its entity type. Every peer runs this same pure function on every
/// new record, update, deletion and link, against its own copy of the
/// resolved records.
pub fn validate(
    op: &Op,
    store: &RecordStore,
    rules: &GameRules,
    keys: &VerifierKeys,
) -> (r: Result<ValidateCallbackResult, ValidationError>)
    requires
        ship_deployment::rules_wf(rules@),
    ensures
        r == validate_spec(
            *op,
            store@,
            rules@,
            key_repr(keys.fleet_legality),
            key_repr(keys.shot_consistency),
        ),
{
    match op {
        Op::StoreEntry { action, entry } => match entry {
            EntryTypes::GameInvite(inv) => Ok(game_invite::validate_create_game_invite(action, inv)),
            EntryTypes::ShipDeployment(sd) => Ok(
                ship_deployment::validate_create_ship_deployment(action, sd, rules),
            ),
            EntryTypes::ShipDeploymentProof(p) => ship_deployment_proof::validate_create_ship_deployment_proof(
                action,
                p,
                &keys.fleet_legality,
            ),
            EntryTypes::HitOrMissProof(h) => hit_or_miss_proof::validate_create_hit_or_miss_proof(
                action,
                h,
                store,
                &keys.shot_consistency,
            ),
            EntryTypes::GameTranscript(t) => game_transcript::validate_create_game_transcript(
                action,
                t,
                store,
                rules,
            ),
        },
        Op::RegisterUpdate { author, entry, original_action, original_entry } => match (
            entry,
            original_entry,
        ) {
            (EntryTypes::GameInvite(inv), EntryTypes::GameInvite(orig)) => Ok(
                game_invite::validate_update_game_invite(author, inv, original_action, orig),
            ),
            (EntryTypes::ShipDeployment(sd), EntryTypes::ShipDeployment(orig)) => Ok(
                ship_deployment::validate_update_ship_deployment(
                    author,
                    sd,
                    original_action,
                    orig,
                ),
            ),
            (EntryTypes::ShipDeploymentProof(p), EntryTypes::ShipDeploymentProof(orig)) => Ok(
                ship_deployment_proof::validate_update_ship_deployment_proof(
                    author,
                    p,
                    original_action,
                    orig,
                ),
            ),
            (EntryTypes::HitOrMissProof(h), EntryTypes::HitOrMissProof(orig)) => Ok(
                hit_or_miss_proof::validate_update_hit_or_miss_proof(
                    author,
                    h,
                    original_action,
                    orig,
                ),
            ),
            (EntryTypes::GameTranscript(t), EntryTypes::GameTranscript(orig)) => game_transcript::validate_update_game_transcript(
                author,
                t,
                orig,
                store,
                rules,
            ),
            _ => Ok(ValidateCallbackResult::Invalid(Rejection::EntryTypeMismatch)),
        },
        Op::RegisterDelete { author, original_action, original_entry } => match original_entry {
            EntryTypes::GameInvite(orig) => Ok(
                game_invite::validate_delete_game_invite(author, original_action, orig),
            ),
            EntryTypes::ShipDeployment(orig) => Ok(
                ship_deployment::validate_delete_ship_deployment(author, original_action, orig),
            ),
            EntryTypes::ShipDeploymentProof(orig) => Ok(
                ship_deployment_proof::validate_delete_ship_deployment_proof(
                    author,
                    original_action,
                    orig,
                ),
            ),
            EntryTypes::HitOrMissProof(orig) => Ok(
                hit_or_miss_proof::validate_delete_hit_or_miss_proof(
                    author,
                    original_action,
                    orig,
                ),
            ),
            EntryTypes::GameTranscript(orig) => Ok(
                game_transcript::validate_delete_game_transcript(author, original_action, orig),
            ),
        },
        Op::RegisterCreateLink { link_type, author, base_address, target_address } => match link_type {
            LinkTypes::Invites => game_invite::validate_create_link_invites(
                author,
                base_address,
                target_address,
                store,
            ),
            LinkTypes::Placements => game_invite::validate_create_link_deployment(
                author,
                base_address,
                target_address,
                store,
            ),
            LinkTypes::DeploymentProofs => game_invite::validate_create_link_deployment_proof(
                author,
                base_address,
                target_address,
                store,
            ),
            LinkTypes::Game => game_invite::validate_create_link_game(
                author,
                base_address,
                target_address,
                store,
            ),
            LinkTypes::GameTranscriptUpdates => game_transcript::validate_create_link_game_transcript_updates(
                author,
                base_address,
                target_address,
                store,
            ),
        },
        Op::RegisterDeleteLink => Ok(
            ValidateCallbackResult::Invalid(Rejection::LinksCannotBeDeleted),
        ),
        Op::RegisterAgentActivity => Ok(ValidateCallbackResult::Valid),
    }
}

} // verus!
