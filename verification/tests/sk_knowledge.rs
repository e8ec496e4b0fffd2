//! The knowledge-of-discrete-log round: proving knowledge of `sk` with
//! `pk = sk · base`, and its failure on a wrong public key or base.

use bulletproofs::{BulletproofGens, PedersenGens};
use bulletproofs_gadgets::error::GadgetError;
use bulletproofs_gadgets::gadgets::sk_knowledge::{sk_knowledge_proof, sk_knowledge_verify};
use curve25519_dalek_ng::scalar::Scalar;
use zerocaf::edwards::EdwardsPoint;
use zerocaf::scalar::Scalar as SonnyScalar;

/// How many bits of the secret scalar the test ladder runs over.  A
/// full-width 256-bit scalar needs an 8192-gate system whose single
/// prove/verify round runs well past the per-test time this harness
/// allows, so the round trips run over the low 32 bits; the circuit then
/// holds `29 · 32 + 82` multipliers, which the generator capacity below
/// covers after padding.  The base is a random point: this zerocaf
/// release exports no basepoint constant.
const SK_TEST_BITS: usize = 32;

/// The low bits of a Doppio scalar as circuit-field scalars,
/// least-significant bit first.
fn scalar_bits(sk: &SonnyScalar) -> Vec<Scalar> {
    let bytes = sk.to_bytes();
    let mut bits = Vec::new();
    for byte in bytes.iter().take(SK_TEST_BITS / 8) {
        for shift in 0..8 {
            bits.push(Scalar::from((byte >> shift) & 1u8));
        }
    }
    bits
}

/// A random Doppio scalar that fits the test's bit length.
fn random_sonny_scalar() -> SonnyScalar {
    let wide = Scalar::random(&mut rand::thread_rng()).to_bytes();
    let mut bytes = [0u8; 32];
    bytes[..SK_TEST_BITS / 8].copy_from_slice(&wide[..SK_TEST_BITS / 8]);
    SonnyScalar::from_bytes(&bytes)
}

fn sk_knowledge_gadget_roundtrip_helper(
    basep: EdwardsPoint,
    pk: EdwardsPoint,
    sk: SonnyScalar,
) -> Result<(), GadgetError> {
    let pc_gens = PedersenGens::default();
    let bp_gens = BulletproofGens::new(1024, 1);

    let sk_bits = scalar_bits(&sk);

    let (proof, commitments) = sk_knowledge_proof(&pc_gens, &bp_gens, &basep, &pk, &sk_bits)?;
    sk_knowledge_verify(&pc_gens, &bp_gens, &basep, &pk, &commitments, &proof)
}

#[test]
fn sk_knowledge_gadget_test() {
    let basep = EdwardsPoint::new_random_point();
    let sk = random_sonny_scalar();
    let pk = basep * sk;

    assert!(sk_knowledge_gadget_roundtrip_helper(basep, pk, sk).is_ok());
    assert!(sk_knowledge_gadget_roundtrip_helper(basep, basep, sk).is_err());
    assert!(
        sk_knowledge_gadget_roundtrip_helper(basep, EdwardsPoint::new_random_point(), sk).is_err()
    );
}
