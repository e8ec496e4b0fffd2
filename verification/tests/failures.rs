//! Failure modes: invalid witnesses are recoverable errors, never aborts;
//! low-order points fail the subgroup check while full-order points pass;
//! and an undersized generator capacity is reported at proof generation.

use bulletproofs::{BulletproofGens, PedersenGens};
use bulletproofs_gadgets::cs::{CsProver, CsVerifier, Lc};
use bulletproofs_gadgets::error::GadgetError;
use bulletproofs_gadgets::gadgets::cond_select::{binary_proof, binary_verify};
use bulletproofs_gadgets::gadgets::scalar::nonzero_gadget;
use bulletproofs_gadgets::gadgets::sk_knowledge::sk_knowledge_proof;
use bulletproofs_gadgets::ristretto_point::SonnyRistrettoPointGadget;
use bulletproofs_gadgets::util::{prover_commit_to_sonny_point, verifier_commit_to_sonny_point};
use curve25519_dalek_ng::scalar::Scalar;
use merlin::Transcript;
use zerocaf::edwards::EdwardsPoint;
use zerocaf::field::FieldElement;
use zerocaf::traits::Identity;

/// A zero witness for the non-zero gadget is rejected as `WitnessInvalid`
/// before any field inversion, on the prover and the verifier side alike.
#[test]
fn zero_witness_is_a_recoverable_failure() {
    let pc_gens = PedersenGens::default();
    let transcript = Transcript::new(b"Is zero?");
    let mut prover = CsProver::new(&pc_gens, transcript);

    let zero = FieldElement::zero();
    let lc = Lc::from_scalar(Scalar::from_bytes_mod_order(zero.to_bytes()));
    let r = nonzero_gadget(&lc, Some(&zero), &mut prover);
    assert_eq!(r, Err(GadgetError::WitnessInvalid));

    // A non-zero witness on the same system is accepted.
    let one = FieldElement::one();
    let lc = Lc::from_scalar(Scalar::from_bytes_mod_order(one.to_bytes()));
    assert!(nonzero_gadget(&lc, Some(&one), &mut prover).is_ok());
}

/// A prover-side allocation without an assignment is `MissingAssignment`.
#[test]
fn missing_assignment_is_reported() {
    let pc_gens = PedersenGens::default();
    let transcript = Transcript::new(b"Is zero?");
    let mut prover = CsProver::new(&pc_gens, transcript);

    let one = FieldElement::one();
    let lc = Lc::from_scalar(Scalar::from_bytes_mod_order(one.to_bytes()));
    let r = nonzero_gadget(&lc, None, &mut prover);
    assert_eq!(r, Err(GadgetError::MissingAssignment));

    // The verifier allocates the same multiplier shape without a value.
    let mut verifier = CsVerifier::new(Transcript::new(b"Is zero?"));
    assert!(nonzero_gadget(&lc, None, &mut verifier).is_ok());
}

/// A point whose order divides 8 fails the subgroup-membership check; a
/// random full-order point passes it, as prover and as verifier.
#[test]
fn subgroup_check_excludes_low_order_points() {
    let pc_gens = PedersenGens::default();
    let bp_gens = BulletproofGens::new(64, 1);

    // The identity has order 1, so 8 times it is the identity: rejected.
    let mut prover = CsProver::new(&pc_gens, Transcript::new(b"IsRistretto?"));
    let id = EdwardsPoint::identity();
    let r = prover_commit_to_sonny_point(&mut prover, &id);
    assert!(matches!(r, Err(GadgetError::WitnessInvalid)));

    // A random point passes, and the committed form round-trips: the
    // verifier re-derives the same circuit from the commitments alone.
    let p = EdwardsPoint::new_random_point();
    let mut prover = CsProver::new(&pc_gens, Transcript::new(b"IsRistretto?"));
    let (gadget, commitments) = prover_commit_to_sonny_point(&mut prover, &p).unwrap();
    gadget.equals(&mut prover, &gadget);
    let proof = prover.prove(&bp_gens).unwrap();

    let mut verifier = CsVerifier::new(Transcript::new(b"IsRistretto?"));
    let gadget_v = verifier_commit_to_sonny_point(&mut verifier, &commitments);
    gadget_v.equals(&mut verifier, &gadget_v);
    assert!(verifier.verify(&proof, &pc_gens, &bp_gens).is_ok());
}

/// The verifier-side entry without a witness refuses a prover-side system.
#[test]
fn from_lcs_needs_a_witness_free_system() {
    let pc_gens = PedersenGens::default();
    let mut prover = CsProver::new(&pc_gens, Transcript::new(b"IsRistretto?"));
    let one = Lc::from_scalar(Scalar::one());
    let lcs = vec![
        Lc::from_scalar(Scalar::zero()),
        Lc::from_scalar(Scalar::one()),
        one,
        Lc::from_scalar(Scalar::zero()),
    ];
    let r = SonnyRistrettoPointGadget::from_lcs(lcs, &mut prover);
    assert!(matches!(r, Err(GadgetError::MissingAssignment)));
}

/// A committed non-bit survives proving but fails verification: the
/// failure surfaces as an explicit `Verification` result.
#[test]
fn bad_bit_fails_verification() {
    let pc_gens = PedersenGens::default();
    let bp_gens = BulletproofGens::new(32, 1);
    let (proof, commitments) = binary_proof(&pc_gens, &bp_gens, 5u8).unwrap();
    assert_eq!(
        binary_verify(&pc_gens, &bp_gens, &commitments, &proof),
        Err(GadgetError::Verification)
    );
}

/// Every failure kind describes itself.
#[test]
fn errors_describe_themselves() {
    assert!(!GadgetError::WitnessInvalid.describe().is_empty());
    assert!(!GadgetError::MissingAssignment.describe().is_empty());
    assert!(!GadgetError::Proving.describe().is_empty());
    assert!(!GadgetError::CapacityExceeded.describe().is_empty());
    assert!(!GadgetError::Verification.describe().is_empty());
}

/// An undersized generator capacity is a fatal configuration error,
/// reported as its own failure class before a proof is produced.
#[test]
fn undersized_generators_fail_proving() {
    let pc_gens = PedersenGens::default();
    let bp_gens = BulletproofGens::new(1, 1);
    let basep = EdwardsPoint::new_random_point();
    let pk = EdwardsPoint::new_random_point();
    let bits = vec![Scalar::one(), Scalar::zero()];
    let r = sk_knowledge_proof(&pc_gens, &bp_gens, &basep, &pk, &bits);
    assert!(matches!(r, Err(GadgetError::CapacityExceeded)));
}
