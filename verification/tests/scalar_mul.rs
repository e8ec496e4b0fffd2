//! The double-and-add ladder over the Edwards point gadget, and the
//! coordinate-committing helpers.

use bulletproofs::{BulletproofGens, PedersenGens};
use bulletproofs_gadgets::cs::{CsProver, CsVerifier, Var};
use bulletproofs_gadgets::error::GadgetError;
use bulletproofs_gadgets::gadgets::edwards_point::SonnyEdwardsPointGadget;
use bulletproofs_gadgets::helpers::{commit_2_point_coords, commit_point_coords,
    commit_single_variable, n_point_coords_to_LC};
use curve25519_dalek_ng::ristretto::CompressedRistretto;
use curve25519_dalek_ng::scalar::Scalar;
use merlin::Transcript;
use zerocaf::edwards::EdwardsPoint;
use zerocaf::field::FieldElement;
use zerocaf::traits::ops::Double;

fn scalar_mul_proof(
    pc_gens: &PedersenGens,
    bp_gens: &BulletproofGens,
    point: &EdwardsPoint,
    bits: &[u8],
    expected: &EdwardsPoint,
) -> Result<(bulletproofs::r1cs::R1CSProof, Vec<CompressedRistretto>), GadgetError> {
    let transcript = Transcript::new(b"ScalarMul");
    let mut prover = CsProver::new(pc_gens, transcript);
    let mut commitments = Vec::new();
    let mut vars: Vec<Var> = Vec::new();
    for bit in bits.iter() {
        let (com, var) = prover.commit(Scalar::from(*bit), Scalar::random(&mut rand::thread_rng()));
        commitments.push(com);
        vars.push(var);
    }
    let p_gadget = SonnyEdwardsPointGadget::from_point(point);
    let q = SonnyEdwardsPointGadget::scalar_mul(&p_gadget, &vars, &mut prover);
    let expected_gadget = SonnyEdwardsPointGadget::from_point(expected);
    q.equal(&expected_gadget, &mut prover);
    let proof = prover.prove(bp_gens)?;
    Ok((proof, commitments))
}

fn scalar_mul_verify(
    pc_gens: &PedersenGens,
    bp_gens: &BulletproofGens,
    point: &EdwardsPoint,
    commitments: &[CompressedRistretto],
    expected: &EdwardsPoint,
    proof: &bulletproofs::r1cs::R1CSProof,
) -> Result<(), GadgetError> {
    let transcript = Transcript::new(b"ScalarMul");
    let mut verifier = CsVerifier::new(transcript);
    let mut vars: Vec<Var> = Vec::new();
    for com in commitments.iter() {
        vars.push(verifier.commit(*com));
    }
    let p_gadget = SonnyEdwardsPointGadget::from_point(point);
    let q = SonnyEdwardsPointGadget::scalar_mul(&p_gadget, &vars, &mut verifier);
    let expected_gadget = SonnyEdwardsPointGadget::from_point(expected);
    q.equal(&expected_gadget, &mut verifier);
    verifier.verify(proof, pc_gens, bp_gens)
}

fn scalar_mul_roundtrip_helper(
    point: &EdwardsPoint,
    bits: &[u8],
    expected: &EdwardsPoint,
) -> Result<(), GadgetError> {
    let pc_gens = PedersenGens::default();
    let bp_gens = BulletproofGens::new(256, 1);
    let (proof, commitments) = scalar_mul_proof(&pc_gens, &bp_gens, point, bits, expected)?;
    scalar_mul_verify(&pc_gens, &bp_gens, point, &commitments, expected, &proof)
}

/// `5 = 101b`, bits least-significant first: the ladder must land on
/// `5 · P = 4·P + P` and must not accept `4 · P`.
#[test]
fn scalar_mul_five_times_point() {
    let p = EdwardsPoint::new_random_point();
    let four_p = p.double().double();
    let five_p = &four_p + &p;

    assert!(scalar_mul_roundtrip_helper(&p, &[1, 0, 1], &five_p).is_ok());
    assert!(scalar_mul_roundtrip_helper(&p, &[1, 0, 1], &four_p).is_err());
    // The same scalar with a leading zero bit selects the same point:
    // the extra round changes the graph, not the result.
    assert!(scalar_mul_roundtrip_helper(&p, &[1, 0, 1, 0], &five_p).is_ok());
}

/// The committing helpers hand back as many commitments and variables as
/// coordinates were committed, and the constant-coordinate combinations
/// match the point count.
#[test]
fn committing_helpers_shapes() {
    let pc_gens = PedersenGens::default();
    let mut prover = CsProver::new(&pc_gens, Transcript::new(b"Helpers"));
    let p1 = EdwardsPoint::new_random_point();
    let p2 = EdwardsPoint::new_random_point();

    let (coms, vars) = commit_point_coords(&mut prover, &p1);
    assert_eq!(coms.len(), 4);
    assert_eq!(vars.len(), 4);

    let (coms2, vars2) = commit_2_point_coords(&mut prover, (&p1, &p2));
    assert_eq!(coms2.len(), 8);
    assert_eq!(vars2.len(), 8);

    let (_com, _var) = commit_single_variable(&mut prover, FieldElement::one());

    let lcs = n_point_coords_to_LC(&vec![p1, p2]);
    assert_eq!(lcs.len(), 2);
}
