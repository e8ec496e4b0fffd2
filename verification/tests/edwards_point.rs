//! Rounds over the Edwards point gadget: conditional selection, doubling
//! and addition of public points, and committed points.

use bulletproofs::r1cs::R1CSProof;
use bulletproofs::{BulletproofGens, PedersenGens};
use bulletproofs_gadgets::cs::{CsProver, CsVerifier, Lc};
use bulletproofs_gadgets::error::GadgetError;
use bulletproofs_gadgets::gadgets::edwards_point::SonnyEdwardsPointGadget;
use curve25519_dalek_ng::ristretto::CompressedRistretto;
use curve25519_dalek_ng::scalar::Scalar;
use merlin::Transcript;
use zerocaf::edwards::EdwardsPoint;
use zerocaf::traits::ops::Double;
use zerocaf::traits::Identity;

fn cond_select_proof(
    pc_gens: &PedersenGens,
    bp_gens: &BulletproofGens,
    p1: EdwardsPoint,
    p2: EdwardsPoint,
    selector: Scalar,
) -> Result<(R1CSProof, Vec<CompressedRistretto>), GadgetError> {
    let transcript = Transcript::new(b"Conditional_Selection!");
    let mut prover = CsProver::new(pc_gens, transcript);

    let (comm, cond) = prover.commit(selector, Scalar::random(&mut rand::thread_rng()));
    let p1_gadget = SonnyEdwardsPointGadget::from_point(&p1);
    let p2_gadget = SonnyEdwardsPointGadget::from_point(&p2);
    let p1_gadget = p1_gadget.conditionally_select(&Lc::from_var(&cond), &mut prover);
    // Assert P1 and P2 are equal after the conditional selection
    p1_gadget.equal(&p2_gadget, &mut prover);

    let proof = prover.prove(bp_gens)?;
    Ok((proof, vec![comm]))
}

fn cond_select_verify(
    pc_gens: &PedersenGens,
    bp_gens: &BulletproofGens,
    p1: EdwardsPoint,
    p2: EdwardsPoint,
    commitments: Vec<CompressedRistretto>,
    proof: R1CSProof,
) -> Result<(), GadgetError> {
    let transcript = Transcript::new(b"Conditional_Selection!");
    let mut verifier = CsVerifier::new(transcript);
    let cond = verifier.commit(commitments[0]);

    let p1_gadget = SonnyEdwardsPointGadget::from_point(&p1);
    let p2_gadget = SonnyEdwardsPointGadget::from_point(&p2);
    let p1_gadget = p1_gadget.conditionally_select(&Lc::from_var(&cond), &mut verifier);
    // Assert P1 and P2 are equal after the conditional selection
    p1_gadget.equal(&p2_gadget, &mut verifier);

    verifier.verify(&proof, pc_gens, bp_gens)
}

fn cond_selection_roundtrip_helper(
    p1: EdwardsPoint,
    p2: EdwardsPoint,
    selector: Scalar,
) -> Result<(), GadgetError> {
    let pc_gens = PedersenGens::default();
    let bp_gens = BulletproofGens::new(64, 1);

    let (proof, commitments) = cond_select_proof(&pc_gens, &bp_gens, p1, p2, selector)?;

    cond_select_verify(&pc_gens, &bp_gens, p1, p2, commitments, proof)
}

#[test]
fn conditionally_select_test() {
    let p1 = EdwardsPoint::new_random_point();
    let id = EdwardsPoint::identity();
    let one_select = Scalar::one();
    let zero_select = Scalar::zero();

    // If we select one, we select P1 = P1
    assert!(cond_selection_roundtrip_helper(p1, p1, one_select).is_ok());
    assert!(cond_selection_roundtrip_helper(p1, p1, zero_select).is_err());
    // If we select zero, we select P1 = ID
    assert!(cond_selection_roundtrip_helper(p1, id, zero_select).is_ok());
    assert!(cond_selection_roundtrip_helper(p1, id, one_select).is_err());
}

fn double_proof(
    pc_gens: &PedersenGens,
    bp_gens: &BulletproofGens,
    point: EdwardsPoint,
    point_double: EdwardsPoint,
) -> Result<R1CSProof, GadgetError> {
    let transcript = Transcript::new(b"IsRistretto?");
    let mut prover = CsProver::new(pc_gens, transcript);
    let gadget_p = SonnyEdwardsPointGadget::from_point(&point);
    let gadget_2p = gadget_p.double(&mut prover);
    let gadget_from_2p = SonnyEdwardsPointGadget::from_point(&point_double);
    gadget_2p.equal(&gadget_from_2p, &mut prover);

    prover.prove(bp_gens)
}

fn double_verify(
    pc_gens: &PedersenGens,
    bp_gens: &BulletproofGens,
    point: EdwardsPoint,
    point_double: EdwardsPoint,
    proof: R1CSProof,
) -> Result<(), GadgetError> {
    let transcript = Transcript::new(b"IsRistretto?");
    let mut verifier = CsVerifier::new(transcript);
    let gadget_p = SonnyEdwardsPointGadget::from_point(&point);
    let gadget_2p = gadget_p.double(&mut verifier);
    let gadget_from_2p = SonnyEdwardsPointGadget::from_point(&point_double);
    gadget_2p.equal(&gadget_from_2p, &mut verifier);

    verifier.verify(&proof, pc_gens, bp_gens)
}

fn double_roundtrip_helper(
    point: EdwardsPoint,
    point_doubled: EdwardsPoint,
) -> Result<(), GadgetError> {
    let pc_gens = PedersenGens::default();
    let bp_gens = BulletproofGens::new(128, 1);

    let proof = double_proof(&pc_gens, &bp_gens, point, point_doubled)?;

    double_verify(&pc_gens, &bp_gens, point, point_doubled, proof)
}

#[test]
fn double_pub_points() {
    let point = EdwardsPoint::new_random_point();
    let point_doubled = point.double();
    let bad_point = EdwardsPoint::new_random_point();
    assert!(double_roundtrip_helper(point, point_doubled).is_ok());
    assert!(double_roundtrip_helper(point, bad_point).is_err());
}

fn addition_proof(
    pc_gens: &PedersenGens,
    bp_gens: &BulletproofGens,
    p1: &EdwardsPoint,
    p2: &EdwardsPoint,
    p3: &EdwardsPoint,
) -> Result<R1CSProof, GadgetError> {
    let transcript = Transcript::new(b"Point Addition");
    let mut prover = CsProver::new(pc_gens, transcript);
    let gadget_p = SonnyEdwardsPointGadget::from_point(p1);
    let gadget_p2 = SonnyEdwardsPointGadget::from_point(p2);
    let gadget_p3 = SonnyEdwardsPointGadget::from_point(p3);
    let p1_plus_p2 = gadget_p.add(&gadget_p2, &mut prover);
    gadget_p3.equal(&p1_plus_p2, &mut prover);

    prover.prove(bp_gens)
}

fn addition_verify(
    pc_gens: &PedersenGens,
    bp_gens: &BulletproofGens,
    p1: &EdwardsPoint,
    p2: &EdwardsPoint,
    p3: &EdwardsPoint,
    proof: R1CSProof,
) -> Result<(), GadgetError> {
    let transcript = Transcript::new(b"Point Addition");
    let mut verifier = CsVerifier::new(transcript);
    let gadget_p = SonnyEdwardsPointGadget::from_point(p1);
    let gadget_p2 = SonnyEdwardsPointGadget::from_point(p2);
    let gadget_p3 = SonnyEdwardsPointGadget::from_point(p3);
    let p1_plus_p2 = gadget_p.add(&gadget_p2, &mut verifier);
    gadget_p3.equal(&p1_plus_p2, &mut verifier);

    verifier.verify(&proof, pc_gens, bp_gens)
}

fn addition_roundtrip_helper(
    p1: EdwardsPoint,
    p2: EdwardsPoint,
    p3: EdwardsPoint,
) -> Result<(), GadgetError> {
    let pc_gens = PedersenGens::default();
    let bp_gens = BulletproofGens::new(128, 1);

    let proof = addition_proof(&pc_gens, &bp_gens, &p1, &p2, &p3)?;

    addition_verify(&pc_gens, &bp_gens, &p1, &p2, &p3, proof)
}

#[test]
fn add_pub_points() {
    let p1 = EdwardsPoint::new_random_point();
    let p2 = EdwardsPoint::new_random_point();
    let p3 = &p1 + &p2;
    let bad_point = EdwardsPoint::new_random_point();
    assert!(addition_roundtrip_helper(p1, p2, p3).is_ok());
    assert!(addition_roundtrip_helper(p1, p2, bad_point).is_err());
}

// Proves that P1 = P2
fn point_committing_proof(
    pc_gens: &PedersenGens,
    bp_gens: &BulletproofGens,
    p1: &EdwardsPoint,
    p2: &EdwardsPoint,
) -> Result<(R1CSProof, Vec<CompressedRistretto>), GadgetError> {
    let transcript = Transcript::new(b"PointDouble");
    let mut prover = CsProver::new(pc_gens, transcript);

    let (p1_gadget, mut p1_commitments) =
        SonnyEdwardsPointGadget::prover_commit_to_sonny_edwards_point(&mut prover, p1);
    let (p2_gadget, mut p2_commitments) =
        SonnyEdwardsPointGadget::prover_commit_to_sonny_edwards_point(&mut prover, p2);

    let mut commitments = Vec::new();
    commitments.append(&mut p1_commitments);
    commitments.append(&mut p2_commitments);

    // Ensure that the points are equal
    p1_gadget.equal(&p2_gadget, &mut prover);
    let proof = prover.prove(bp_gens)?;

    Ok((proof, commitments))
}

fn point_committing_verify(
    pc_gens: &PedersenGens,
    bp_gens: &BulletproofGens,
    proof: R1CSProof,
    commitments: Vec<CompressedRistretto>,
) -> Result<(), GadgetError> {
    let transcript = Transcript::new(b"PointDouble");
    let mut verifier = CsVerifier::new(transcript);

    let first: Vec<CompressedRistretto> = commitments[0..4].to_vec();
    let second: Vec<CompressedRistretto> = commitments[4..8].to_vec();
    let p1_gadget =
        SonnyEdwardsPointGadget::verifier_commit_to_sonny_edwards_point(&mut verifier, &first);
    let p2_gadget =
        SonnyEdwardsPointGadget::verifier_commit_to_sonny_edwards_point(&mut verifier, &second);

    // Ensure we have the points are equal
    p1_gadget.equal(&p2_gadget, &mut verifier);

    verifier.verify(&proof, pc_gens, bp_gens)
}

fn point_committing_roundtrip_helper(
    p1: EdwardsPoint,
    p2: EdwardsPoint,
) -> Result<(), GadgetError> {
    let pc_gens = PedersenGens::default();
    let bp_gens = BulletproofGens::new(128, 1);

    let (proof, commitments) = point_committing_proof(&pc_gens, &bp_gens, &p1, &p2)?;

    point_committing_verify(&pc_gens, &bp_gens, proof, commitments)
}

#[test]
fn test_point_committing() {
    let a = EdwardsPoint::new_random_point();
    let b = &a + &a;
    assert!(point_committing_roundtrip_helper(a, a).is_ok());
    assert!(point_committing_roundtrip_helper(a, b).is_err());
}
