//! Hit-or-miss proofs: a zero-knowledge proof that a committed fleet
//! does or does not occupy one shot cell, without revealing the fleet.

use vstd::prelude::*;

use crate::game_transcript::Shot;
use crate::game_transcript::ShotView;
use crate::groth16::key_repr;
use crate::groth16::verify_prepared;
use crate::groth16::verify_prepared_spec;
use crate::groth16::PreparedKey;
use crate::groth16::VkView;
use crate::helpers::bytes_eq;
use crate::helpers::copy_bytes;
use crate::helpers::dec_of;
use crate::helpers::must_get_valid_app_entry_and_author;
use crate::helpers::store_lookup;
use crate::helpers::EntryCreationAction;
use crate::helpers::RecordStore;
use crate::helpers::to_decimal;
use crate::validation::Rejection;
use crate::validation::ValidateCallbackResult;
use crate::validation::ValidationError;
use crate::EntryTypes;
use crate::EntryView;

verus! {

/// One shot's outcome, proven against a specific fleet commitment.
/// Immutable and permanent once published.
#[derive(Clone, Debug, PartialEq, Eq)]
pub struct HitOrMissProof {
    pub deployment_proof: Vec<u8>,
    pub deployment_commitment: Vec<u8>,
    pub shot: Shot,
    pub hit: bool,
    pub proof: Vec<u8>,
}

pub ghost struct HitOrMissProofView {
    pub deployment_proof: Seq<u8>,
    pub deployment_commitment: Seq<u8>,
    pub shot: ShotView,
    pub hit: bool,
    pub proof: Seq<u8>,
}

impl View for HitOrMissProof {
    type V = HitOrMissProofView;

    open spec fn view(&self) -> HitOrMissProofView {
        HitOrMissProofView {
            deployment_proof: self.deployment_proof@,
            deployment_commitment: self.deployment_commitment@,
            shot: self.shot@,
            hit: self.hit,
            proof: self.proof@,
        }
    }
}

/// The public inputs the shot-consistency circuit takes, in order: the
/// hit flag as a decimal bit, the commitment, and the shot's two
/// coordinates in decimal.
pub open spec fn hit_or_miss_inputs(h: HitOrMissProofView) -> Seq<Seq<u8>> {
    seq![
        if h.hit {
            seq![49u8]
        } else {
            seq![48u8]
        },
        h.deployment_commitment,
        dec_of(h.shot.x as nat),
        dec_of(h.shot.y as nat),
    ]
}

/// The exact verdict on a new hit-or-miss proof: its referenced
/// deployment proof must exist, be a deployment proof and carry the
/// same commitment, and the zero-knowledge proof must verify against
/// the shot-consistency key.
pub open spec fn create_hit_or_miss_verdict(
    h: HitOrMissProofView,
    store: Seq<crate::helpers::StoredRecordView>,
    key: VkView,
) -> Result<ValidateCallbackResult, ValidationError> {
    match store_lookup(store, h.deployment_proof) {
        Option::None => Err(ValidationError::MissingRecord),
        Option::Some(rec) => match rec.entry {
            EntryView::ShipDeploymentProof(dep) => {
                if dep.commitment != h.deployment_commitment {
                    Ok(ValidateCallbackResult::Invalid(Rejection::CommitmentMismatch))
                } else {
                    match verify_prepared_spec(key, h.proof, hit_or_miss_inputs(h)) {
                        Ok(true) => Ok(ValidateCallbackResult::Valid),
                        Ok(false) => Ok(
                            ValidateCallbackResult::Invalid(Rejection::InvalidHitOrMissProof),
                        ),
                        Err(e) => Err(ValidationError::ProofEncoding(e)),
                    }
                }
            },
            _ => Ok(ValidateCallbackResult::Invalid(Rejection::NotADeploymentProof)),
        },
    }
}

/// Accept a new hit-or-miss proof exactly when it is consistent with
/// the deployment proof it references and its zero-knowledge proof
/// verifies against the shot-consistency key.
pub fn validate_create_hit_or_miss_proof(
    action: &EntryCreationAction,
    hit_or_miss_proof: &HitOrMissProof,
    store: &RecordStore,
    shot_consistency_key: &PreparedKey,
) -> (r: Result<ValidateCallbackResult, ValidationError>)
    ensures
        r == create_hit_or_miss_verdict(
            hit_or_miss_proof@,
            store@,
            key_repr(*shot_consistency_key),
        ),
{
    let rec = match must_get_valid_app_entry_and_author(store, &hit_or_miss_proof.deployment_proof) {
        Ok(rec) => rec,
        Err(e) => {
            return Err(e);
        },
    };
    let dep = match &rec.entry {
        EntryTypes::ShipDeploymentProof(dep) => dep,
        _ => {
            return Ok(ValidateCallbackResult::Invalid(Rejection::NotADeploymentProof));
        },
    };
    if !bytes_eq(&dep.commitment, &hit_or_miss_proof.deployment_commitment) {
        return Ok(ValidateCallbackResult::Invalid(Rejection::CommitmentMismatch));
    }
    let mut inputs: Vec<Vec<u8>> = Vec::new();
    let mut hit_flag: Vec<u8> = Vec::new();
    if hit_or_miss_proof.hit {
        hit_flag.push(49);
    } else {
        hit_flag.push(48);
    }
    inputs.push(hit_flag);
    inputs.push(copy_bytes(&hit_or_miss_proof.deployment_commitment));
    inputs.push(to_decimal(hit_or_miss_proof.shot.x));
    inputs.push(to_decimal(hit_or_miss_proof.shot.y));
    proof {
        assert(inputs@.map_values(|v: Vec<u8>| v@) =~~= hit_or_miss_inputs(hit_or_miss_proof@));
    }
    match verify_prepared(shot_consistency_key, &hit_or_miss_proof.proof, &inputs) {
        Ok(true) => Ok(ValidateCallbackResult::Valid),
        Ok(false) => Ok(ValidateCallbackResult::Invalid(Rejection::InvalidHitOrMissProof)),
        Err(e) => Err(ValidationError::ProofEncoding(e)),
    }
}

/// Hit-or-miss proofs can never be updated.
pub fn validate_update_hit_or_miss_proof(
    author: &Vec<u8>,
    hit_or_miss_proof: &HitOrMissProof,
    original_action: &EntryCreationAction,
    original_hit_or_miss_proof: &HitOrMissProof,
) -> (r: ValidateCallbackResult)
    ensures
        r == ValidateCallbackResult::Invalid(Rejection::HitOrMissProofsCannotBeUpdated),
{
    ValidateCallbackResult::Invalid(Rejection::HitOrMissProofsCannotBeUpdated)
}

/// Hit-or-miss proofs can never be deleted.
pub fn validate_delete_hit_or_miss_proof(
    author: &Vec<u8>,
    original_action: &EntryCreationAction,
    original_hit_or_miss_proof: &HitOrMissProof,
) -> (r: ValidateCallbackResult)
    ensures
        r == ValidateCallbackResult::Invalid(Rejection::HitOrMissProofsCannotBeDeleted),
{
    ValidateCallbackResult::Invalid(Rejection::HitOrMissProofsCannotBeDeleted)
}

} // verus!
