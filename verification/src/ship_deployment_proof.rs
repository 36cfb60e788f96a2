//! Deployment proofs: a public commitment to a private fleet plus a
//! zero-knowledge proof that the committed fleet is legal.

use vstd::prelude::*;

use crate::groth16::key_repr;
use crate::groth16::verify_prepared;
use crate::groth16::verify_prepared_spec;
use crate::groth16::Groth16Error;
use crate::groth16::PreparedKey;
use crate::groth16::VkView;
use crate::helpers::copy_bytes;
use crate::helpers::EntryCreationAction;
use crate::validation::Rejection;
use crate::validation::ValidateCallbackResult;
use crate::validation::ValidationError;

verus! {

/// A player's public commitment to their fleet, with a proof of its
/// legality. Immutable and permanent once published.
#[derive(Clone, Debug, PartialEq, Eq)]
pub struct ShipDeploymentProof {
    pub invite: Vec<u8>,
    pub private_entry: Vec<u8>,
    pub commitment: Vec<u8>,
    pub proof: Vec<u8>,
}

pub ghost struct ShipDeploymentProofView {
    pub invite: Seq<u8>,
    pub private_entry: Seq<u8>,
    pub commitment: Seq<u8>,
    pub proof: Seq<u8>,
}

impl View for ShipDeploymentProof {
    type V = ShipDeploymentProofView;

    open spec fn view(&self) -> ShipDeploymentProofView {
        ShipDeploymentProofView {
            invite: self.invite@,
            private_entry: self.private_entry@,
            commitment: self.commitment@,
            proof: self.proof@,
        }
    }
}

/// The exact verdict on a new deployment proof: its proof must verify
/// against the fleet-legality key with the commitment as the only
/// public input. A proof that cannot be read is a hard failure, not a
/// rejection.
pub open spec fn create_deployment_proof_verdict(
    p: ShipDeploymentProofView,
    key: VkView,
) -> Result<ValidateCallbackResult, ValidationError> {
    match verify_prepared_spec(key, p.proof, seq![p.commitment]) {
        Ok(true) => Ok(ValidateCallbackResult::Valid),
        Ok(false) => Ok(ValidateCallbackResult::Invalid(Rejection::InvalidDeploymentProof)),
        Err(e) => Err(ValidationError::ProofEncoding(e)),
    }
}

/// Accept a new deployment proof exactly when its zero-knowledge proof
/// verifies against the fleet-legality key, with the commitment as the
/// sole public input.
pub fn validate_create_ship_deployment_proof(
    action: &EntryCreationAction,
    ship_deployment_proof: &ShipDeploymentProof,
    fleet_legality_key: &PreparedKey,
) -> (r: Result<ValidateCallbackResult, ValidationError>)
    ensures
        r == create_deployment_proof_verdict(
            ship_deployment_proof@,
            key_repr(*fleet_legality_key),
        ),
{
    let mut inputs: Vec<Vec<u8>> = Vec::new();
    inputs.push(copy_bytes(&ship_deployment_proof.commitment));
    proof {
        assert(inputs@.map_values(|v: Vec<u8>| v@) =~= seq![ship_deployment_proof@.commitment]);
    }
    match verify_prepared(fleet_legality_key, &ship_deployment_proof.proof, &inputs) {
        Ok(true) => Ok(ValidateCallbackResult::Valid),
        Ok(false) => Ok(ValidateCallbackResult::Invalid(Rejection::InvalidDeploymentProof)),
        Err(e) => Err(ValidationError::ProofEncoding(e)),
    }
}

/// Deployment proofs can never be updated.
pub fn validate_update_ship_deployment_proof(
    author: &Vec<u8>,
    ship_deployment_proof: &ShipDeploymentProof,
    original_action: &EntryCreationAction,
    original_ship_deployment_proof: &ShipDeploymentProof,
) -> (r: ValidateCallbackResult)
    ensures
        r == ValidateCallbackResult::Invalid(Rejection::DeploymentProofsCannotBeUpdated),
{
    ValidateCallbackResult::Invalid(Rejection::DeploymentProofsCannotBeUpdated)
}

/// Deployment proofs can never be deleted.
pub fn validate_delete_ship_deployment_proof(
    author: &Vec<u8>,
    original_action: &EntryCreationAction,
    original_ship_deployment_proof: &ShipDeploymentProof,
) -> (r: ValidateCallbackResult)
    ensures
        r == ValidateCallbackResult::Invalid(Rejection::DeploymentProofsCannotBeDeleted),
{
    ValidateCallbackResult::Invalid(Rejection::DeploymentProofsCannotBeDeleted)
}

} // verus!
