//! End-to-end checks of the proof verifier against real proofs made
//! with the arkworks prover, and of the validators that wrap it.

use ark_bn254::{Bn254, Fr};
use ark_groth16::Groth16;
use ark_relations::r1cs::{
    ConstraintSynthesizer, ConstraintSystemRef, LinearCombination, SynthesisError, Variable,
};
use battleships::groth16::{prepare, verify, verify_prepared, G1Coords, G2Coords, Groth16Error,
    VkDocument};
use battleships::helpers::{EntryCreationAction, RecordStore, StoredRecord};
use battleships::hit_or_miss_proof::{validate_create_hit_or_miss_proof, HitOrMissProof};
use battleships::game_transcript::Shot;
use battleships::ship_deployment_proof::{validate_create_ship_deployment_proof,
    ShipDeploymentProof};
use battleships::validation::{Rejection, ValidateCallbackResult, ValidationError};
use battleships::EntryTypes;

/// One public input `c` with witness factors: proves knowledge of
/// `a, b` with `a * b = c`.
struct MulCircuit {
    a: Option<Fr>,
    b: Option<Fr>,
}

impl ConstraintSynthesizer<Fr> for MulCircuit {
    fn generate_constraints(self, cs: ConstraintSystemRef<Fr>) -> Result<(), SynthesisError> {
        let a = cs.new_witness_variable(|| self.a.ok_or(SynthesisError::AssignmentMissing))?;
        let b = cs.new_witness_variable(|| self.b.ok_or(SynthesisError::AssignmentMissing))?;
        let c = cs.new_input_variable(|| {
            let a = self.a.ok_or(SynthesisError::AssignmentMissing)?;
            let b = self.b.ok_or(SynthesisError::AssignmentMissing)?;
            Ok(a * b)
        })?;
        cs.enforce_constraint(
            LinearCombination::from(a),
            LinearCombination::from(b),
            LinearCombination::from(c),
        )
    }
}

/// Four public inputs whose sum a witness must match; stands in for
/// the shot-consistency circuit's input wiring.
struct FourInputCircuit {
    v: Option<(Fr, Fr, Fr, Fr)>,
}

impl ConstraintSynthesizer<Fr> for FourInputCircuit {
    fn generate_constraints(self, cs: ConstraintSystemRef<Fr>) -> Result<(), SynthesisError> {
        let i1 = cs.new_input_variable(|| {
            self.v.map(|v| v.0).ok_or(SynthesisError::AssignmentMissing)
        })?;
        let i2 = cs.new_input_variable(|| {
            self.v.map(|v| v.1).ok_or(SynthesisError::AssignmentMissing)
        })?;
        let i3 = cs.new_input_variable(|| {
            self.v.map(|v| v.2).ok_or(SynthesisError::AssignmentMissing)
        })?;
        let i4 = cs.new_input_variable(|| {
            self.v.map(|v| v.3).ok_or(SynthesisError::AssignmentMissing)
        })?;
        let w = cs.new_witness_variable(|| {
            self.v.map(|v| v.0 + v.1 + v.2 + v.3).ok_or(SynthesisError::AssignmentMissing)
        })?;
        cs.enforce_constraint(
            LinearCombination::from(i1) + i2 + i3 + i4,
            LinearCombination::from(Variable::One),
            LinearCombination::from(w),
        )
    }
}

fn dec<T: std::fmt::Display>(x: T) -> Vec<u8> {
    let s = format!("{}", x);
    if s.is_empty() {
        b"0".to_vec()
    } else {
        s.into_bytes()
    }
}

fn g1(p: &ark_bn254::G1Affine) -> G1Coords {
    G1Coords { x: dec(p.x), y: dec(p.y) }
}

fn g2(p: &ark_bn254::G2Affine) -> G2Coords {
    G2Coords { x0: dec(p.x.c0), x1: dec(p.x.c1), y0: dec(p.y.c0), y1: dec(p.y.c1) }
}

fn vk_doc(vk: &ark_groth16::VerifyingKey<Bn254>) -> VkDocument {
    VkDocument {
        protocol: b"groth16".to_vec(),
        curve: b"bn128".to_vec(),
        n_public: vk.gamma_abc_g1.len() - 1,
        alpha: g1(&vk.alpha_g1),
        beta: g2(&vk.beta_g2),
        gamma: g2(&vk.gamma_g2),
        delta: g2(&vk.delta_g2),
        ic: vk.gamma_abc_g1.iter().map(g1).collect(),
    }
}

fn proof_bytes(p: &ark_groth16::Proof<Bn254>) -> Vec<u8> {
    let parts = vec![
        dec(p.a.x),
        dec(p.a.y),
        dec(p.b.x.c0),
        dec(p.b.x.c1),
        dec(p.b.y.c0),
        dec(p.b.y.c1),
        dec(p.c.x),
        dec(p.c.y),
    ];
    parts.join(&b","[..])
}

fn mul_setup() -> (VkDocument, Vec<u8>) {
    let mut rng = ark_std::test_rng();
    let pk = Groth16::<Bn254>::generate_random_parameters_with_reduction(
        MulCircuit { a: None, b: None },
        &mut rng,
    )
    .unwrap();
    let proof = Groth16::<Bn254>::create_random_proof_with_reduction(
        MulCircuit { a: Some(Fr::from(3u64)), b: Some(Fr::from(4u64)) },
        &pk,
        &mut rng,
    )
    .unwrap();
    (vk_doc(&pk.vk), proof_bytes(&proof))
}

fn four_setup(hit: u64, commitment: u64, x: u64, y: u64) -> (VkDocument, Vec<u8>) {
    let mut rng = ark_std::test_rng();
    let pk = Groth16::<Bn254>::generate_random_parameters_with_reduction(
        FourInputCircuit { v: None },
        &mut rng,
    )
    .unwrap();
    let proof = Groth16::<Bn254>::create_random_proof_with_reduction(
        FourInputCircuit {
            v: Some((Fr::from(hit), Fr::from(commitment), Fr::from(x), Fr::from(y))),
        },
        &pk,
        &mut rng,
    )
    .unwrap();
    (vk_doc(&pk.vk), proof_bytes(&proof))
}

#[test]
fn honest_proof_verifies() {
    let (doc, proof) = mul_setup();
    assert_eq!(verify(&doc, &proof, &vec![b"12".to_vec()]), Ok(true));
}

#[test]
fn flipped_input_is_rejected_not_an_error() {
    let (doc, proof) = mul_setup();
    assert_eq!(verify(&doc, &proof, &vec![b"13".to_vec()]), Ok(false));
}

#[test]
fn each_flipped_input_fails_verification() {
    let (doc, proof) = four_setup(1, 77, 3, 3);
    let good = vec![b"1".to_vec(), b"77".to_vec(), b"3".to_vec(), b"3".to_vec()];
    assert_eq!(verify(&doc, &proof, &good), Ok(true));
    for i in 0..4 {
        let mut bad = good.clone();
        bad[i] = b"9".to_vec();
        assert_eq!(verify(&doc, &proof, &bad), Ok(false), "input {} flipped", i);
    }
}

#[test]
fn prepared_key_agrees_with_direct_verify() {
    let (doc, proof) = mul_setup();
    let key = prepare(&doc).unwrap();
    assert_eq!(verify_prepared(&key, &proof, &vec![b"12".to_vec()]), Ok(true));
    assert_eq!(verify_prepared(&key, &proof, &vec![b"13".to_vec()]), Ok(false));
}

#[test]
fn undefined_key_pairing_is_a_typed_error() {
    // All-zero alpha and beta parse as field elements, but the pairing
    // of the two degenerate points is undefined; preparation must
    // report that, not panic.
    let (mut doc, proof) = mul_setup();
    doc.alpha = G1Coords { x: b"0".to_vec(), y: b"0".to_vec() };
    doc.beta = G2Coords {
        x0: b"0".to_vec(),
        x1: b"0".to_vec(),
        y0: b"0".to_vec(),
        y1: b"0".to_vec(),
    };
    assert_eq!(verify(&doc, &proof, &vec![b"12".to_vec()]), Err(Groth16Error::Degenerate));
    assert!(matches!(prepare(&doc), Err(Groth16Error::Degenerate)));
}

#[test]
fn wrong_protocol_tag_is_fatal() {
    let (mut doc, proof) = mul_setup();
    doc.protocol = b"plonk".to_vec();
    assert_eq!(verify(&doc, &proof, &vec![b"12".to_vec()]), Err(Groth16Error::Protocol));
}

#[test]
fn wrong_curve_tag_is_fatal() {
    let (mut doc, proof) = mul_setup();
    doc.curve = b"bls12-381".to_vec();
    assert_eq!(verify(&doc, &proof, &vec![b"12".to_vec()]), Err(Groth16Error::Curve));
}

#[test]
fn inconsistent_public_count_is_fatal() {
    let (mut doc, proof) = mul_setup();
    doc.n_public = 2;
    assert_eq!(verify(&doc, &proof, &vec![b"12".to_vec()]), Err(Groth16Error::PublicCount));
}

#[test]
fn non_field_coordinate_is_fatal() {
    let (mut doc, proof) = mul_setup();
    doc.alpha.x = b"not-a-number".to_vec();
    assert_eq!(verify(&doc, &proof, &vec![b"12".to_vec()]), Err(Groth16Error::Coordinate));
}

#[test]
fn empty_coordinate_is_fatal() {
    let (mut doc, proof) = mul_setup();
    doc.ic[1].y = b"".to_vec();
    assert_eq!(verify(&doc, &proof, &vec![b"12".to_vec()]), Err(Groth16Error::Coordinate));
}

#[test]
fn short_proof_string_is_fatal() {
    let (doc, _) = mul_setup();
    assert_eq!(
        verify(&doc, &b"1,2,3,4,5,6,7".to_vec(), &vec![b"12".to_vec()]),
        Err(Groth16Error::ProofShape)
    );
}

#[test]
fn bad_proof_field_is_fatal() {
    let (doc, _) = mul_setup();
    assert_eq!(
        verify(&doc, &b"1,2,x,4,5,6,7,8".to_vec(), &vec![b"12".to_vec()]),
        Err(Groth16Error::Coordinate)
    );
}

#[test]
fn bad_scalar_input_is_fatal() {
    let (doc, proof) = mul_setup();
    assert_eq!(verify(&doc, &proof, &vec![b"12a".to_vec()]), Err(Groth16Error::Scalar));
}

#[test]
fn wrong_input_count_is_fatal() {
    let (doc, proof) = mul_setup();
    assert_eq!(
        verify(&doc, &proof, &vec![b"12".to_vec(), b"1".to_vec()]),
        Err(Groth16Error::InputCount)
    );
}

#[test]
fn deployment_proof_validator_accepts_honest_proof() {
    let (doc, proof) = mul_setup();
    let key = prepare(&doc).unwrap();
    let sdp = ShipDeploymentProof {
        invite: b"invite".to_vec(),
        private_entry: b"placement".to_vec(),
        commitment: b"12".to_vec(),
        proof,
    };
    let action = EntryCreationAction::Create { author: b"alice".to_vec() };
    assert_eq!(
        validate_create_ship_deployment_proof(&action, &sdp, &key),
        Ok(ValidateCallbackResult::Valid)
    );
}

#[test]
fn deployment_proof_validator_rejects_wrong_commitment() {
    let (doc, proof) = mul_setup();
    let key = prepare(&doc).unwrap();
    let sdp = ShipDeploymentProof {
        invite: b"invite".to_vec(),
        private_entry: b"placement".to_vec(),
        commitment: b"13".to_vec(),
        proof,
    };
    let action = EntryCreationAction::Create { author: b"alice".to_vec() };
    assert_eq!(
        validate_create_ship_deployment_proof(&action, &sdp, &key),
        Ok(ValidateCallbackResult::Invalid(Rejection::InvalidDeploymentProof))
    );
}

#[test]
fn deployment_proof_validator_fails_hard_on_garbage() {
    let (doc, _) = mul_setup();
    let key = prepare(&doc).unwrap();
    let sdp = ShipDeploymentProof {
        invite: b"invite".to_vec(),
        private_entry: b"placement".to_vec(),
        commitment: b"12".to_vec(),
        proof: b"broken".to_vec(),
    };
    let action = EntryCreationAction::Create { author: b"alice".to_vec() };
    assert_eq!(
        validate_create_ship_deployment_proof(&action, &sdp, &key),
        Err(ValidationError::ProofEncoding(Groth16Error::Coordinate))
    );
}

fn hom_store(commitment: &[u8]) -> RecordStore {
    RecordStore {
        records: vec![StoredRecord {
            address: b"sdp-bob".to_vec(),
            author: b"bob".to_vec(),
            entry: EntryTypes::ShipDeploymentProof(ShipDeploymentProof {
                invite: b"invite".to_vec(),
                private_entry: b"placement".to_vec(),
                commitment: commitment.to_vec(),
                proof: b"unused".to_vec(),
            }),
        }],
    }
}

#[test]
fn hit_or_miss_validator_accepts_honest_proof() {
    let (doc, proof) = four_setup(1, 77, 3, 3);
    let key = prepare(&doc).unwrap();
    let hom = HitOrMissProof {
        deployment_proof: b"sdp-bob".to_vec(),
        deployment_commitment: b"77".to_vec(),
        shot: Shot { x: 3, y: 3 },
        hit: true,
        proof,
    };
    let action = EntryCreationAction::Create { author: b"alice".to_vec() };
    assert_eq!(
        validate_create_hit_or_miss_proof(&action, &hom, &hom_store(b"77"), &key),
        Ok(ValidateCallbackResult::Valid)
    );
}

#[test]
fn hit_or_miss_validator_rejects_flipped_hit_flag() {
    let (doc, proof) = four_setup(1, 77, 3, 3);
    let key = prepare(&doc).unwrap();
    let hom = HitOrMissProof {
        deployment_proof: b"sdp-bob".to_vec(),
        deployment_commitment: b"77".to_vec(),
        shot: Shot { x: 3, y: 3 },
        hit: false,
        proof,
    };
    let action = EntryCreationAction::Create { author: b"alice".to_vec() };
    assert_eq!(
        validate_create_hit_or_miss_proof(&action, &hom, &hom_store(b"77"), &key),
        Ok(ValidateCallbackResult::Invalid(Rejection::InvalidHitOrMissProof))
    );
}

#[test]
fn hit_or_miss_validator_rejects_commitment_mismatch() {
    let (doc, proof) = four_setup(1, 77, 3, 3);
    let key = prepare(&doc).unwrap();
    let hom = HitOrMissProof {
        deployment_proof: b"sdp-bob".to_vec(),
        deployment_commitment: b"77".to_vec(),
        shot: Shot { x: 3, y: 3 },
        hit: true,
        proof,
    };
    let action = EntryCreationAction::Create { author: b"alice".to_vec() };
    assert_eq!(
        validate_create_hit_or_miss_proof(&action, &hom, &hom_store(b"78"), &key),
        Ok(ValidateCallbackResult::Invalid(Rejection::CommitmentMismatch))
    );
}

#[test]
fn hit_or_miss_validator_fails_hard_on_missing_reference() {
    let (doc, proof) = four_setup(1, 77, 3, 3);
    let key = prepare(&doc).unwrap();
    let hom = HitOrMissProof {
        deployment_proof: b"no-such-record".to_vec(),
        deployment_commitment: b"77".to_vec(),
        shot: Shot { x: 3, y: 3 },
        hit: true,
        proof,
    };
    let action = EntryCreationAction::Create { author: b"alice".to_vec() };
    assert_eq!(
        validate_create_hit_or_miss_proof(&action, &hom, &hom_store(b"77"), &key),
        Err(ValidationError::MissingRecord)
    );
}
