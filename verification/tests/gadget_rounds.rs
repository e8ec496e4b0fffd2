//! Proof/verification rounds of the wire-level gadgets: boolean, non-zero,
//! public point addition and doubling, and conditional selection.

use bulletproofs::{BulletproofGens, PedersenGens};
use bulletproofs_gadgets::cs::{CsProver, CsVerifier, Lc};
use bulletproofs_gadgets::error::GadgetError;
use bulletproofs_gadgets::gadgets::cond_select::{binary_proof, binary_verify,
    cond_selection_proof, cond_selection_verify};
use bulletproofs_gadgets::gadgets::point_addition::{point_addition_proof, point_addition_verify};
use bulletproofs_gadgets::gadgets::point_doubling::{point_doubling_proof, point_doubling_verify};
use bulletproofs_gadgets::gadgets::scalar::nonzero_gadget;
use curve25519_dalek_ng::scalar::Scalar;
use merlin::Transcript;
use zerocaf::edwards::EdwardsPoint;
use zerocaf::field::FieldElement;
use zerocaf::traits::ops::Double;
use zerocaf::traits::Identity;

fn binary_constrain_roundtrip_helper(num: u8) -> Result<(), GadgetError> {
    let pc_gens = PedersenGens::default();
    let bp_gens = BulletproofGens::new(32, 1);

    let (proof, commitments) = binary_proof(&pc_gens, &bp_gens, num)?;

    binary_verify(&pc_gens, &bp_gens, &commitments, &proof)
}

#[test]
fn binary_constrain() {
    let one = 1u8;
    let zer0 = 0u8;
    let non_binary_form = 5u8;

    assert!(binary_constrain_roundtrip_helper(one).is_ok());
    assert!(binary_constrain_roundtrip_helper(zer0).is_ok());
    assert!(binary_constrain_roundtrip_helper(non_binary_form).is_err());
}

fn is_not_zero_proof(
    pc_gens: &PedersenGens,
    bp_gens: &BulletproofGens,
    fe: FieldElement,
) -> Result<bulletproofs::r1cs::R1CSProof, GadgetError> {
    let transcript = Transcript::new(b"Is zero?");
    let mut prover = CsProver::new(pc_gens, transcript);

    let fe_as_lc = Lc::from_scalar(Scalar::from_bytes_mod_order(fe.to_bytes()));
    nonzero_gadget(&fe_as_lc, Some(&fe), &mut prover)?;

    prover.prove(bp_gens)
}

fn is_not_zero_verify(
    pc_gens: &PedersenGens,
    bp_gens: &BulletproofGens,
    fe: FieldElement,
    proof: bulletproofs::r1cs::R1CSProof,
) -> Result<(), GadgetError> {
    let transcript = Transcript::new(b"Is zero?");
    let mut verifier = CsVerifier::new(transcript);

    let fe_as_lc = Lc::from_scalar(Scalar::from_bytes_mod_order(fe.to_bytes()));
    nonzero_gadget(&fe_as_lc, Some(&fe), &mut verifier)?;

    verifier.verify(&proof, pc_gens, bp_gens)
}

fn is_not_zero_roundtrip_helper(fe: FieldElement) -> Result<(), GadgetError> {
    let pc_gens = PedersenGens::default();
    let bp_gens = BulletproofGens::new(32, 1);

    let proof = is_not_zero_proof(&pc_gens, &bp_gens, fe)?;

    is_not_zero_verify(&pc_gens, &bp_gens, fe, proof)
}

#[test]
fn is_not_zero() {
    assert!(is_not_zero_roundtrip_helper(FieldElement::one()).is_ok());
    assert!(is_not_zero_roundtrip_helper(FieldElement::generate_random()).is_ok());
}

fn point_addition_roundtrip_helper(points: &[EdwardsPoint]) -> Result<(), GadgetError> {
    let pc_gens = PedersenGens::default();
    let bp_gens = BulletproofGens::new(32, 1);

    let proof = point_addition_proof(
        &pc_gens,
        &bp_gens,
        &points[0],
        &points[1],
        &points[2],
        zerocaf::constants::EDWARDS_A,
        zerocaf::constants::EDWARDS_D,
    )?;

    point_addition_verify(
        &pc_gens,
        &bp_gens,
        &points[0],
        &points[1],
        &points[2],
        zerocaf::constants::EDWARDS_A,
        zerocaf::constants::EDWARDS_D,
        proof,
    )
}

#[test]
fn point_addition_prove_verif() {
    let p1 = EdwardsPoint::new_random_point();
    let p2 = EdwardsPoint::new_random_point();
    let p3 = &p1 + &p2;
    let p4 = p1.double();

    // P1 + P2 = P3
    assert!(point_addition_roundtrip_helper(&[p1, p2, p3]).is_ok());
    // P1 + P2 != P4
    assert!(point_addition_roundtrip_helper(&[p1, p2, p4]).is_err());
}

fn point_doubling_roundtrip_helper(points: &[EdwardsPoint]) -> Result<(), GadgetError> {
    let pc_gens = PedersenGens::default();
    let bp_gens = BulletproofGens::new(32, 1);

    let proof = point_doubling_proof(
        &pc_gens,
        &bp_gens,
        &points[0],
        &points[1],
        zerocaf::constants::EDWARDS_A,
        zerocaf::constants::EDWARDS_D,
    )?;

    point_doubling_verify(
        &pc_gens,
        &bp_gens,
        &points[0],
        &points[1],
        zerocaf::constants::EDWARDS_A,
        zerocaf::constants::EDWARDS_D,
        proof,
    )
}

#[test]
fn point_doubling_prove_verif() {
    let p1 = EdwardsPoint::new_random_point();
    let p2 = p1.double();
    let p3 = p2.double();

    // 2 * P1 = P2
    assert!(point_doubling_roundtrip_helper(&[p1, p2]).is_ok());
    // 2 * P1 != P3
    assert!(point_doubling_roundtrip_helper(&[p1, p3]).is_err());
}

fn cond_selection_roundtrip_helper(points: &Vec<EdwardsPoint>, bit: u8) -> Result<(), GadgetError> {
    let pc_gens = PedersenGens::default();
    let bp_gens = BulletproofGens::new(32, 1);
    let (proof, comm) = cond_selection_proof(&pc_gens, &bp_gens, bit, points)?;
    cond_selection_verify(&pc_gens, &bp_gens, &comm, points, proof)
}

#[test]
fn cond_selection_addition() {
    let p1 = EdwardsPoint::new_random_point();
    let p2 = EdwardsPoint::new_random_point();
    let p3 = &p1 + &p2;
    let p4 = EdwardsPoint::identity();

    // With bit = 0, P1 + P2 = P3 so P4 holds P1
    assert!(cond_selection_roundtrip_helper(&vec![p1, p2, p3, p1], 0u8).is_ok());
    // With bit = 0, P1 + P2 = P3 so P4 can't hold Identity
    assert!(cond_selection_roundtrip_helper(&vec![p1, p2, p3, p4], 0u8).is_err());
    // With bit = 1 => We conditionally select the identity, P1 + P2 = P3 turns Identity + P2 = P2
    assert!(cond_selection_roundtrip_helper(&vec![p1, p2, p2, p4], 1u8).is_ok());
    // With bit = 1 => We conditionally select the identity, P1 + P2 = P3 turns Identity + P2 = P2
    assert!(cond_selection_roundtrip_helper(&vec![p1, p2, p3, p4], 1u8).is_err());
    // With bit = 1 => We conditionally select the identity, P1 + P2 = P3 turns Identity + P2 = P2
    assert!(cond_selection_roundtrip_helper(&vec![p1, p2, p1, p4], 1u8).is_err());
    // With bit = 1 => We conditionally select the identity, P1 + P2 = P3 turns Identity + P2 = P2
    assert!(cond_selection_roundtrip_helper(&vec![p1, p2, p4, p4], 1u8).is_err());
    // With bit != (0 | 1) Should always fail.
    assert!(cond_selection_roundtrip_helper(&vec![p1, p2, p1, p4], 3u8).is_err());
}
