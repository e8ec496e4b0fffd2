//! Conditional selection over public points, with its boolean primitive
//! and the proof/verify rounds of both.

use vstd::prelude::*;

use crate::cs::{Cs, CsProver, CsVerifier, Lc, Var};
use crate::error::GadgetError;
use crate::ext::{ed_identity, edwards_a, edwards_d, scalar_from_u8, scalar_random,
    transcript_binary_check, transcript_cond_select};
use crate::gadgets::point_addition::{point_addition_proof, point_addition_verify, quad_wires};
use crate::helpers::n_point_coords_to_LC;
use crate::trace::{commits, gates, minus, plus, point_in_range, wire_in_range, CsOp,
    PointWires, Wire};

use bulletproofs::BulletproofGens;
use bulletproofs::PedersenGens;
use bulletproofs::r1cs::R1CSProof;
use curve25519_dalek_ng::ristretto::CompressedRistretto;
use zerocaf::edwards::EdwardsPoint;

verus! {

broadcast use crate::trace::lemma_gates_push, crate::trace::lemma_commits_push,
    crate::trace::lemma_terms_in_range_concat, crate::trace::lemma_neg_terms_in_range;

/// The operations the short boolean gadget appends: the product gate
/// `(1 - bit) * bit` and the constraint that its output vanishes.
pub open spec fn binary_constrain_trace(bit: Wire, k: nat) -> Seq<CsOp> {
    Seq::empty().push(
        CsOp::Mul { left: seq![plus(Wire::One), minus(bit)], right: seq![plus(bit)] },
    ).push(
        CsOp::Constrain { lc: seq![plus(Wire::MulOut(k))] },
    )
}

/// Adds the classical boolean constraint `(1 - bit) * bit = 0` to the
/// system, in its short form without the re-tying constraint.
pub fn binary_constrain_gadget<C: Cs>(cs: &mut C, bit: &Var)
    requires
        wire_in_range(bit.wire(), gates(old(cs).trace()), commits(old(cs).trace())),
    ensures
        final(cs).trace() == old(cs).trace() + binary_constrain_trace(
            bit.wire(),
            gates(old(cs).trace()),
        ),
        final(cs).allocs() == old(cs).allocs(),
        final(cs).has_witness() == old(cs).has_witness(),
{
    let one = Lc::from_scalar(crate::ext::scalar_one());
    let bit_lc = Lc::from_var(bit);
    let one_min_bit = one.sub(&bit_lc);
    let (_left, _right, res) = cs.multiply(&one_min_bit, &bit_lc);
    cs.constrain(&Lc::from_var(&res));
    proof {
        assert(cs.trace() =~~= old(cs).trace() + binary_constrain_trace(
            bit.wire(),
            gates(old(cs).trace()),
        ));
    }
}

/// Builds a proof that the committed value is a bit: 0 or 1.
pub fn binary_proof(pc_gens: &PedersenGens, bp_gens: &BulletproofGens, bit: u8) -> (r: Result<
    (R1CSProof, Vec<CompressedRistretto>),
    GadgetError,
>)
    ensures
        r matches Ok(t) ==> t.1@.len() == 1,
        r is Err ==> r->Err_0 == GadgetError::Proving || r->Err_0
            == GadgetError::CapacityExceeded,
{
    let transcript = transcript_binary_check();
    let mut prover = CsProver::new(pc_gens, transcript);
    let (com, var) = prover.commit(scalar_from_u8(bit), scalar_random());
    binary_constrain_gadget(&mut prover, &var);
    match prover.prove(bp_gens) {
        Ok(proof) => {
            let mut commitments: Vec<CompressedRistretto> = Vec::new();
            commitments.push(com);
            Ok((proof, commitments))
        },
        Err(e) => Err(e),
    }
}

/// Verifies a proof that the committed value is a bit, rebuilding the
/// identical circuit from the received commitment.
pub fn binary_verify(
    pc_gens: &PedersenGens,
    bp_gens: &BulletproofGens,
    commitments: &Vec<CompressedRistretto>,
    proof: &R1CSProof,
) -> (r: Result<(), GadgetError>)
    requires
        commitments@.len() >= 1,
    ensures
        r is Err ==> r->Err_0 == GadgetError::Verification || r->Err_0
            == GadgetError::CapacityExceeded,
{
    let transcript = transcript_binary_check();
    let mut verifier = CsVerifier::new(transcript);
    let mut vars: Vec<Var> = Vec::new();
    let n = commitments.len();
    let mut i: usize = 0;
    while i < n
        invariant
            i <= n,
            n == commitments@.len(),
            vars@.len() == i,
            commits(verifier.trace()) == i,
            i > 0 ==> vars@[0].wire() == Wire::Committed(0),
        decreases n - i,
    {
        let var = verifier.commit(commitments[i]);
        vars.push(var);
        i = i + 1;
    }
    binary_constrain_gadget(&mut verifier, &vars[0]);
    verifier.verify(proof, pc_gens, bp_gens)
}

/// The operations the selection gadget appends: the boolean constraint on
/// the selector, then the coordinate-wise mux `x' = x·bit`,
/// `y' = bit·y + (1−bit)`, `z' = bit·z + (1−bit)`, `t' = t·bit`.  The `y`
/// and `z` expressions are pinned to wires by a gate against the constant
/// one, whose left input wire carries them.
pub open spec fn conditional_select_trace(p: PointWires, b: Wire, k: nat) -> Seq<CsOp> {
    binary_constrain_trace(b, k) + Seq::empty().push(
        CsOp::Mul { left: p.x, right: seq![plus(b)] },
    ).push(
        CsOp::Mul { left: seq![plus(b)], right: p.y },
    ).push(
        CsOp::Mul {
            left: seq![plus(Wire::MulOut(k + 2)), plus(Wire::One), minus(b)],
            right: seq![plus(Wire::One)],
        },
    ).push(
        CsOp::Mul { left: seq![plus(b)], right: p.z },
    ).push(
        CsOp::Mul {
            left: seq![plus(Wire::MulOut(k + 4)), plus(Wire::One), minus(b)],
            right: seq![plus(Wire::One)],
        },
    ).push(
        CsOp::Mul { left: p.t, right: seq![plus(b)] },
    )
}

/// Constrains the selector to be a bit and selects by it, coordinate by
/// coordinate: with `bit = 1` the returned wires carry the given point,
/// with `bit = 0` the identity point `(0, 1, 1, 0)`, by the mux
/// `x' = x·bit`, `y' = bit·y + (1−bit)`, `z' = bit·z + (1−bit)`,
/// `t' = t·bit`.
pub fn conditional_select_gadget<C: Cs>(cs: &mut C, bit: &Var, point: (Lc, Lc, Lc, Lc)) -> (r: (
    Var,
    Var,
    Var,
    Var,
))
    requires
        wire_in_range(bit.wire(), gates(old(cs).trace()), commits(old(cs).trace())),
        point_in_range(quad_wires(point), gates(old(cs).trace()), commits(old(cs).trace())),
    ensures
        final(cs).trace() == old(cs).trace() + conditional_select_trace(
            quad_wires(point),
            bit.wire(),
            gates(old(cs).trace()),
        ),
        final(cs).allocs() == old(cs).allocs(),
        final(cs).has_witness() == old(cs).has_witness(),
        r.0.wire() == Wire::MulOut(gates(old(cs).trace()) + 1),
        r.1.wire() == Wire::MulLeft(gates(old(cs).trace()) + 3),
        r.2.wire() == Wire::MulLeft(gates(old(cs).trace()) + 5),
        r.3.wire() == Wire::MulOut(gates(old(cs).trace()) + 6),
{
    binary_constrain_gadget(cs, bit);
    proof {
        crate::trace::lemma_gates_add(
            old(cs).trace(),
            binary_constrain_trace(bit.wire(), gates(old(cs).trace())),
        );
        crate::trace::lemma_commits_add(
            old(cs).trace(),
            binary_constrain_trace(bit.wire(), gates(old(cs).trace())),
        );
    }
    let one = Lc::from_scalar(crate::ext::scalar_one());
    let bit_lc = Lc::from_var(bit);
    let (_xl, _xr, new_x) = cs.multiply(&point.0, &bit_lc);
    let (_yl, _yr, bit_t_y) = cs.multiply(&bit_lc, &point.1);
    let y_expr = Lc::from_var(&bit_t_y).add(&one).sub(&bit_lc);
    let (new_y, _yc, _yp) = cs.multiply(&y_expr, &one);
    let (_zl, _zr, bit_t_z) = cs.multiply(&bit_lc, &point.2);
    let z_expr = Lc::from_var(&bit_t_z).add(&one).sub(&bit_lc);
    let (new_z, _zc, _zp) = cs.multiply(&z_expr, &one);
    let (_tl, _tr, new_t) = cs.multiply(&point.3, &bit_lc);
    proof {
        assert(cs.trace() =~~= old(cs).trace() + conditional_select_trace(
            quad_wires(point),
            bit.wire(),
            gates(old(cs).trace()),
        ));
    }
    (new_x, new_y, new_z, new_t)
}

/// Builds the conditional-selection round as prover: commits the selector,
/// applies the selection gadget, and proves the related point addition
/// `chosen + p2 = p3`, where `chosen` is the first point when the bit is 0
/// and the identity when it is not.
pub fn cond_selection_proof(
    pc_gens: &PedersenGens,
    bp_gens: &BulletproofGens,
    bit: u8,
    points: &Vec<EdwardsPoint>,
) -> (r: Result<(R1CSProof, Vec<CompressedRistretto>), GadgetError>)
    requires
        points@.len() >= 3,
    ensures
        r matches Ok(t) ==> t.1@.len() == 1,
        r is Err ==> r->Err_0 == GadgetError::Proving || r->Err_0
            == GadgetError::CapacityExceeded,
{
    let transcript = transcript_cond_select();
    let mut prover = CsProver::new(pc_gens, transcript);
    let (com, var) = prover.commit(scalar_from_u8(bit), scalar_random());
    let mut lcs = n_point_coords_to_LC(points);
    let first = lcs.remove(0);
    let _selected = conditional_select_gadget(&mut prover, &var, first);
    let id = ed_identity();
    let chosen: &EdwardsPoint = if bit == 0 {
        &points[0]
    } else {
        &id
    };
    match point_addition_proof(
        pc_gens,
        bp_gens,
        chosen,
        &points[1],
        &points[2],
        edwards_a(),
        edwards_d(),
    ) {
        Ok(proof) => {
            let mut commitments: Vec<CompressedRistretto> = Vec::new();
            commitments.push(com);
            Ok((proof, commitments))
        },
        Err(e) => Err(e),
    }
}

/// Verifies the conditional-selection round, rebuilding the identical
/// selection circuit from the received commitment and checking the related
/// point addition `p4 + p2 = p3`.
pub fn cond_selection_verify(
    pc_gens: &PedersenGens,
    bp_gens: &BulletproofGens,
    commitments: &Vec<CompressedRistretto>,
    points: &Vec<EdwardsPoint>,
    proof: R1CSProof,
) -> (r: Result<(), GadgetError>)
    requires
        commitments@.len() >= 1,
        points@.len() >= 4,
    ensures
        r is Err ==> r->Err_0 == GadgetError::Verification || r->Err_0
            == GadgetError::CapacityExceeded,
{
    let transcript = transcript_cond_select();
    let mut verifier = CsVerifier::new(transcript);
    let mut vars: Vec<Var> = Vec::new();
    let n = commitments.len();
    let mut i: usize = 0;
    while i < n
        invariant
            i <= n,
            n == commitments@.len(),
            vars@.len() == i,
            commits(verifier.trace()) == i,
            i > 0 ==> vars@[0].wire() == Wire::Committed(0),
        decreases n - i,
    {
        let var = verifier.commit(commitments[i]);
        vars.push(var);
        i = i + 1;
    }
    let mut lcs = n_point_coords_to_LC(points);
    let first = lcs.remove(0);
    let _selected = conditional_select_gadget(&mut verifier, &vars[0], first);
    point_addition_verify(
        pc_gens,
        bp_gens,
        &points[3],
        &points[1],
        &points[2],
        edwards_a(),
        edwards_d(),
        proof,
    )
}

} // verus!
