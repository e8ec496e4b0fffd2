//! Declarations of the outside types the library works with, and the small
//! trusted wrappers around the calls it makes into them.
//!
//! Everything here is part of the trusted base: Verus believes the contracts
//! without reading the bodies.  Each wrapper holds one call into an outside
//! crate and says no more of it than that crate's source shows.

use vstd::prelude::*;

use bulletproofs::r1cs::LinearCombination;
use bulletproofs::r1cs::R1CSProof;
use bulletproofs::r1cs::Variable;
use bulletproofs::BulletproofGens;
use bulletproofs::PedersenGens;
use curve25519_dalek_ng::ristretto::CompressedRistretto;
use curve25519_dalek_ng::scalar::Scalar;
use merlin::Transcript;
use zerocaf::edwards::EdwardsPoint;
use zerocaf::field::FieldElement;
use zerocaf::traits::ops::Double;
use zerocaf::traits::Identity;

verus! {

#[verifier::external_type_specification]
#[verifier::external_body]
pub struct ExScalar(Scalar);

#[verifier::external_type_specification]
#[verifier::external_body]
pub struct ExVariable(Variable);

#[verifier::external_type_specification]
#[verifier::external_body]
pub struct ExLinearCombination(LinearCombination);

#[verifier::external_type_specification]
#[verifier::external_body]
pub struct ExCompressedRistretto(CompressedRistretto);

#[verifier::external_type_specification]
#[verifier::external_body]
pub struct ExR1CSProof(R1CSProof);

#[verifier::external_type_specification]
#[verifier::external_body]
pub struct ExPedersenGens(PedersenGens);

#[verifier::external_type_specification]
#[verifier::external_body]
pub struct ExBulletproofGens(BulletproofGens);

#[verifier::external_type_specification]
#[verifier::external_body]
pub struct ExTranscript(Transcript);

#[verifier::external_type_specification]
#[verifier::external_body]
pub struct ExFieldElement(FieldElement);

#[verifier::external_type_specification]
#[verifier::external_body]
pub struct ExEdwardsPoint(EdwardsPoint);

/// Whether a field element is the zero element of the Doppio base field.
///
/// This names the outcome of zerocaf's `PartialEq` between the element and
/// `FieldElement::zero()`: a deterministic function of the value alone.
pub uninterp spec fn fe_is_zero(f: FieldElement) -> bool;

/// The point zerocaf's dedicated doubling formula returns: a deterministic
/// function of the operand alone.
pub uninterp spec fn ed_double_of(p: EdwardsPoint) -> EdwardsPoint;

/// The `X` coordinate of a zerocaf point.
pub uninterp spec fn ed_x_of(p: EdwardsPoint) -> FieldElement;

/// The `Y` coordinate of a zerocaf point.
pub uninterp spec fn ed_y_of(p: EdwardsPoint) -> FieldElement;

/// The `Z` coordinate of a zerocaf point.
pub uninterp spec fn ed_z_of(p: EdwardsPoint) -> FieldElement;

/// The additive inverse zerocaf's `Neg` returns for a field element.
pub uninterp spec fn fe_neg_of(f: FieldElement) -> FieldElement;

/// The difference zerocaf's `Sub` returns for two field elements.
pub uninterp spec fn fe_sub_of(a: FieldElement, b: FieldElement) -> FieldElement;

/// The `T` coordinate of a zerocaf point.
pub uninterp spec fn ed_t_of(p: EdwardsPoint) -> FieldElement;

/// The multiplicative inverse zerocaf's `FieldElement::inverse` returns.
pub uninterp spec fn fe_inverse_of(f: FieldElement) -> FieldElement;

/// The scalar curve25519-dalek's `From<u8>` returns: the circuit-field
/// image of a small integer.
pub uninterp spec fn scalar_of_u8(x: u8) -> Scalar;

/// The scalar curve25519-dalek's `Neg` returns: the additive inverse in
/// the circuit field.
pub uninterp spec fn scalar_neg_of(s: Scalar) -> Scalar;

/// The scalar curve25519-dalek's `Scalar::from_bytes_mod_order` returns
/// for a 32-byte little-endian encoding.
pub uninterp spec fn scalar_of_bytes(b: Seq<u8>) -> Scalar;

/// The circuit-field image of a Doppio base-field element: the result of
/// re-reading its canonical little-endian bytes as a scalar.  The two
/// fields share one prime order, so the value carries across unchanged.
pub uninterp spec fn fq_scalar_of(f: FieldElement) -> Scalar;

/// The canonical little-endian bytes of the Doppio curve parameter `d`,
/// computed from zerocaf's `EDWARDS_D` radix-2^52 limbs.
pub open spec fn edwards_d_bytes() -> Seq<u8> {
    seq![
        45u8, 83u8, 141u8, 90u8, 95u8, 86u8, 3u8, 148u8, 251u8, 2u8, 104u8, 100u8, 33u8,
        118u8, 240u8, 242u8, 112u8, 35u8, 250u8, 95u8, 145u8, 201u8, 171u8, 27u8, 217u8,
        237u8, 255u8, 251u8, 136u8, 69u8, 168u8, 2u8,
    ]
}

/// The coefficient the curve parameter `a` contributes to a gate: the
/// Doppio curve has `a = -1`.
pub open spec fn a_coeff() -> Scalar {
    scalar_neg_of(scalar_of_u8(1))
}

/// The coefficient the curve parameter `d` contributes to a gate.
pub open spec fn d_coeff() -> Scalar {
    scalar_of_bytes(edwards_d_bytes())
}

/// Relies on zerocaf's `PartialEq` for `FieldElement`, against
/// `FieldElement::zero()`: the zero test whose outcome [`fe_is_zero`]
/// names.
#[verifier::external_body]
pub fn fe_eq_zero(f: &FieldElement) -> (r: bool)
    ensures
        r == fe_is_zero(*f),
{
    *f == FieldElement::zero()
}

/// Relies on zerocaf's `FieldElement::inverse`: the multiplicative
/// inverse, defined on every element but zero, where it would abort — the
/// precondition excludes that input.
#[verifier::external_body]
pub fn fe_inverse(f: &FieldElement) -> (r: FieldElement)
    requires
        !fe_is_zero(*f),
    ensures
        r == fe_inverse_of(*f),
{
    f.inverse()
}

/// Relies on zerocaf's `Sub` for `FieldElement`: field subtraction, used
/// only to derive prover-side witness values.
#[verifier::external_body]
pub fn fe_sub(a: &FieldElement, b: &FieldElement) -> (r: FieldElement)
    ensures
        r == fe_sub_of(*a, *b),
{
    a - b
}

/// Relies on zerocaf's `Double` for `EdwardsPoint`: the curve's doubling
/// formula, used only to derive prover-side witness values.
#[verifier::external_body]
pub fn ed_double(p: &EdwardsPoint) -> (r: EdwardsPoint)
    ensures
        r == ed_double_of(*p),
{
    p.double()
}

/// Relies on zerocaf's `Neg for FieldElement`: the additive inverse, used
/// only to derive prover-side witness values.
#[verifier::external_body]
pub fn fe_neg(f: &FieldElement) -> (r: FieldElement)
    ensures
        r == fe_neg_of(*f),
{
    -f
}

/// Relies on zerocaf's `Identity for EdwardsPoint`: the identity point
/// `(0, 1, 1, 0)`.
#[verifier::external_body]
pub fn ed_identity() -> EdwardsPoint {
    EdwardsPoint::identity()
}

/// Relies on zerocaf's constant `EDWARDS_A`: the curve parameter `a`.
#[verifier::external_body]
pub fn edwards_a() -> FieldElement {
    zerocaf::constants::EDWARDS_A
}

/// Relies on zerocaf's constant `EDWARDS_D`: the curve parameter `d`.
#[verifier::external_body]
pub fn edwards_d() -> FieldElement {
    zerocaf::constants::EDWARDS_D
}

/// Reads the `X` coordinate of a zerocaf extended-coordinates point.
#[verifier::external_body]
pub fn ed_x(p: &EdwardsPoint) -> (r: FieldElement)
    ensures
        r == ed_x_of(*p),
{
    p.X
}

/// Reads the `Y` coordinate of a zerocaf extended-coordinates point.
#[verifier::external_body]
pub fn ed_y(p: &EdwardsPoint) -> (r: FieldElement)
    ensures
        r == ed_y_of(*p),
{
    p.Y
}

/// Reads the `Z` coordinate of a zerocaf extended-coordinates point.
#[verifier::external_body]
pub fn ed_z(p: &EdwardsPoint) -> (r: FieldElement)
    ensures
        r == ed_z_of(*p),
{
    p.Z
}

/// Reads the `T` coordinate of a zerocaf extended-coordinates point.
#[verifier::external_body]
pub fn ed_t(p: &EdwardsPoint) -> (r: FieldElement)
    ensures
        r == ed_t_of(*p),
{
    p.T
}

/// Relies on curve25519-dalek's `Scalar::zero`, which equals the
/// `From<u8>` image of 0.
#[verifier::external_body]
pub fn scalar_zero() -> (r: Scalar)
    ensures
        r == scalar_of_u8(0),
{
    Scalar::zero()
}

/// Relies on curve25519-dalek's `Scalar::one`, which equals the
/// `From<u8>` image of 1.
#[verifier::external_body]
pub fn scalar_one() -> (r: Scalar)
    ensures
        r == scalar_of_u8(1),
{
    Scalar::one()
}

/// Relies on curve25519-dalek's `From<u8>` for `Scalar`.
#[verifier::external_body]
pub fn scalar_from_u8(x: u8) -> (r: Scalar)
    ensures
        r == scalar_of_u8(x),
{
    Scalar::from(x)
}

/// Relies on curve25519-dalek's `Scalar::random` with rand's `thread_rng`:
/// a uniformly random scalar, fresh on every call; nothing is promised of
/// the value.  Used for commitment blinding factors.
#[verifier::external_body]
pub fn scalar_random() -> Scalar {
    Scalar::random(&mut rand::thread_rng())
}

/// The curve parameter `a` of the Doppio curve, as a circuit scalar.
///
/// Relies on zerocaf's `constants::EDWARDS_A` — the limbs encode the field
/// order minus one, `a = -1`, as zerocaf's curve documentation states —
/// and on curve25519-dalek's `from_bytes_mod_order` over the canonical
/// encoding: the result is the additive inverse of one.
#[verifier::external_body]
pub fn edwards_a_scalar() -> (r: Scalar)
    ensures
        r == scalar_neg_of(scalar_of_u8(1)),
        r == a_coeff(),
{
    Scalar::from_bytes_mod_order(zerocaf::constants::EDWARDS_A.to_bytes())
}

/// The curve parameter `d` of the Doppio curve, as a circuit scalar.
///
/// Relies on zerocaf's `constants::EDWARDS_D` and its canonical
/// little-endian `to_bytes` — the radix-2^52 limbs encode exactly the
/// bytes [`edwards_d_bytes`] lists — and on curve25519-dalek's
/// `from_bytes_mod_order`.
#[verifier::external_body]
pub fn edwards_d_scalar() -> (r: Scalar)
    ensures
        r == scalar_of_bytes(edwards_d_bytes()),
        r == d_coeff(),
{
    Scalar::from_bytes_mod_order(zerocaf::constants::EDWARDS_D.to_bytes())
}

/// Relies on merlin's `Transcript::new`: a fresh transcript under the
/// domain-separation label of the point-arithmetic protocols.
#[verifier::external_body]
pub fn transcript_point_add() -> Transcript {
    Transcript::new(b"R1CS Point Add Gadget")
}

/// Relies on merlin's `Transcript::new`: a fresh transcript under the
/// domain-separation label of the boolean-check protocol.
#[verifier::external_body]
pub fn transcript_binary_check() -> Transcript {
    Transcript::new(b"R1CS binary check Gadget")
}

/// Relies on merlin's `Transcript::new`: a fresh transcript under the
/// domain-separation label of the conditional-selection protocol.
#[verifier::external_body]
pub fn transcript_cond_select() -> Transcript {
    Transcript::new(b"R1CS conditional selection Gadget")
}

/// Relies on merlin's `Transcript::new`: a fresh transcript under the
/// domain-separation label of the knowledge-of-discrete-log protocol.
#[verifier::external_body]
pub fn transcript_sk_knowledge() -> Transcript {
    Transcript::new(b"Sk_knowledge")
}

} // verus!
