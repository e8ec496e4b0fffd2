//! Point doubling over public points: the doubling specialisation of the
//! twisted Edwards group law, and a proof/verify round for it.

use vstd::prelude::*;

use crate::cs::{Cs, CsProver, CsVerifier, Lc, Var};
use crate::error::GadgetError;
use crate::ext::{ed_x, ed_y, ed_z, ed_t, fq_scalar_of, scalar_from_u8, scalar_of_u8,
    transcript_point_add};
use crate::helpers::fq_as_scalar;
use crate::gadgets::point_addition::quad_wires;
use crate::trace::{commits, gates, minus, plus, point_const_terms, point_in_range,
    terms_in_range, CsOp, LcTerms, PointWires, Wire};

use bulletproofs::BulletproofGens;
use bulletproofs::PedersenGens;
use bulletproofs::r1cs::R1CSProof;
use zerocaf::edwards::EdwardsPoint;
use zerocaf::field::FieldElement;

verus! {

broadcast use crate::trace::lemma_gates_push, crate::trace::lemma_commits_push,
    crate::trace::lemma_terms_in_range_concat, crate::trace::lemma_neg_terms_in_range;

/// The operations the doubling gadget appends, for operand coordinate wires
/// `p1` and curve-parameter combination `a`, when the system holds `k`
/// gates.  Following the doubling law `A = x², B = y², C = 2z², D = a·A,
/// E = (x+y)² − A − B, G = D+B, F = G−C, H = D−B`, with results
/// `X3 = E·F, Y3 = G·H, Z3 = F·G, T3 = E·H`.
pub open spec fn point_doubling_trace(p1: PointWires, a: LcTerms, k: nat) -> Seq<CsOp> {
    Seq::empty().push(
        CsOp::Mul { left: p1.x, right: p1.x },
    ).push(
        CsOp::Mul { left: p1.y, right: p1.y },
    ).push(
        CsOp::Mul { left: p1.z, right: p1.z },
    ).push(
        CsOp::Mul {
            left: seq![(Wire::One, scalar_of_u8(2))],
            right: seq![plus(Wire::MulOut(k + 2))],
        },
    ).push(
        CsOp::Mul { left: a, right: seq![plus(Wire::MulOut(k))] },
    ).push(
        CsOp::Mul { left: p1.x + p1.y, right: p1.x + p1.y },
    ).push(
        CsOp::Mul {
            left: seq![
                plus(Wire::MulOut(k + 5)), minus(Wire::MulOut(k)), minus(Wire::MulOut(k + 1)),
            ],
            right: seq![
                plus(Wire::MulOut(k + 4)), plus(Wire::MulOut(k + 1)), minus(Wire::MulOut(k + 3)),
            ],
        },
    ).push(
        CsOp::Mul {
            left: seq![plus(Wire::MulOut(k + 4)), plus(Wire::MulOut(k + 1))],
            right: seq![plus(Wire::MulOut(k + 4)), minus(Wire::MulOut(k + 1))],
        },
    ).push(
        CsOp::Mul {
            left: seq![
                plus(Wire::MulOut(k + 4)), plus(Wire::MulOut(k + 1)), minus(Wire::MulOut(k + 3)),
            ],
            right: seq![plus(Wire::MulOut(k + 4)), plus(Wire::MulOut(k + 1))],
        },
    ).push(
        CsOp::Mul {
            left: seq![
                plus(Wire::MulOut(k + 5)), minus(Wire::MulOut(k)), minus(Wire::MulOut(k + 1)),
            ],
            right: seq![plus(Wire::MulOut(k + 4)), minus(Wire::MulOut(k + 1))],
        },
    )
}

/// Builds the circuit of the doubling of a twisted Edwards point in
/// extended coordinates and returns the wires of the resulting point's
/// coordinates.
pub fn point_doubling_gadget<C: Cs>(cs: &mut C, p1: (Lc, Lc, Lc, Lc), _d: Lc, a: Lc) -> (r: (
    Var,
    Var,
    Var,
    Var,
))
    requires
        point_in_range(quad_wires(p1), gates(old(cs).trace()), commits(old(cs).trace())),
        terms_in_range(a.terms(), gates(old(cs).trace()), commits(old(cs).trace())),
    ensures
        final(cs).trace() == old(cs).trace() + point_doubling_trace(
            quad_wires(p1),
            a.terms(),
            gates(old(cs).trace()),
        ),
        final(cs).allocs() == old(cs).allocs(),
        final(cs).has_witness() == old(cs).has_witness(),
        r.0.wire() == Wire::MulOut(gates(old(cs).trace()) + 6),
        r.1.wire() == Wire::MulOut(gates(old(cs).trace()) + 7),
        r.2.wire() == Wire::MulOut(gates(old(cs).trace()) + 8),
        r.3.wire() == Wire::MulOut(gates(old(cs).trace()) + 9),
{
    let (p1_x, p1_y, p1_z, _p1_t) = p1;
    let (_al, _ar, var_a) = cs.multiply(&p1_x, &p1_x);
    let (_bl, _br, var_b) = cs.multiply(&p1_y, &p1_y);
    let (_zl, _zr, var_zsq) = cs.multiply(&p1_z, &p1_z);
    let two = Lc::from_scalar(scalar_from_u8(2u8));
    let (_cl, _cr, var_c) = cs.multiply(&two, &Lc::from_var(&var_zsq));
    let (_dl, _dr, var_d) = cs.multiply(&a, &Lc::from_var(&var_a));
    let xy = p1_x.add(&p1_y);
    let (_el, _er, var_xysq) = cs.multiply(&xy, &xy);
    let lc_e = Lc::from_var(&var_xysq).sub(&Lc::from_var(&var_a)).sub(&Lc::from_var(&var_b));
    let lc_g = Lc::from_var(&var_d).add(&Lc::from_var(&var_b));
    let lc_f = lc_g.sub(&Lc::from_var(&var_c));
    let lc_h = Lc::from_var(&var_d).sub(&Lc::from_var(&var_b));
    let (_xl, _xr, x3) = cs.multiply(&lc_e, &lc_f);
    let (_yl, _yr, y3) = cs.multiply(&lc_g, &lc_h);
    let (_fl, _fr, z3) = cs.multiply(&lc_f, &lc_g);
    let (_hl, _hr, t3) = cs.multiply(&lc_e, &lc_h);
    proof {
        assert(cs.trace() =~~= old(cs).trace() + point_doubling_trace(
            quad_wires(p1),
            a.terms(),
            gates(old(cs).trace()),
        ));
    }
    (x3, y3, z3, t3)
}

/// The operations the result-equality gadget appends: the computed `x`
/// multiplied by the expected point's `y` coordinate, the computed `y` by
/// the expected `x`, and the constraint that the first product minus the
/// second vanishes: `x·y2 − y·x2 = 0`.
pub open spec fn point_doubling_constrain_trace(
    res_coords: PointWires,
    rx: LcTerms,
    ry: LcTerms,
    k: nat,
) -> Seq<CsOp> {
    Seq::empty().push(
        CsOp::Mul { left: rx, right: res_coords.y },
    ).push(
        CsOp::Mul { left: ry, right: res_coords.x },
    ).push(
        CsOp::Constrain { lc: seq![plus(Wire::MulOut(k)), minus(Wire::MulOut(k + 1))] },
    )
}

/// Constrains the computed coordinates `res_point = (x, y)` to name the
/// same projective point as the coordinate quadruple `res_p_coords`, by the
/// cross-multiplication equality `x·y2 = y·x2`.
pub fn point_doubling_constrain_gadget<C: Cs>(
    cs: &mut C,
    res_p_coords: (Lc, Lc, Lc, Lc),
    res_point: (Lc, Lc),
)
    requires
        point_in_range(quad_wires(res_p_coords), gates(old(cs).trace()), commits(old(cs).trace())),
        terms_in_range(res_point.0.terms(), gates(old(cs).trace()), commits(old(cs).trace())),
        terms_in_range(res_point.1.terms(), gates(old(cs).trace()), commits(old(cs).trace())),
    ensures
        final(cs).trace() == old(cs).trace() + point_doubling_constrain_trace(
            quad_wires(res_p_coords),
            res_point.0.terms(),
            res_point.1.terms(),
            gates(old(cs).trace()),
        ),
        final(cs).allocs() == old(cs).allocs(),
        final(cs).has_witness() == old(cs).has_witness(),
{
    let (_xl, _xr, x1y2) = cs.multiply(&res_point.0, &res_p_coords.1);
    let (_yl, _yr, y1x2) = cs.multiply(&res_point.1, &res_p_coords.0);
    cs.constrain(&Lc::from_var(&x1y2).sub(&Lc::from_var(&y1x2)));
    proof {
        assert(cs.trace() =~~= old(cs).trace() + point_doubling_constrain_trace(
            quad_wires(res_p_coords),
            res_point.0.terms(),
            res_point.1.terms(),
            gates(old(cs).trace()),
        ));
    }
}

/// The whole public-point doubling circuit: every coordinate and the
/// curve parameter enter as constants, so the trace is one function of the
/// public inputs, the same on the prover and the verifier side.
pub open spec fn point_doubling_circuit_trace(
    p1: EdwardsPoint,
    p2: EdwardsPoint,
    a: FieldElement,
    k: nat,
) -> Seq<CsOp> {
    point_doubling_trace(point_const_terms(p1), seq![(Wire::One, fq_scalar_of(a))], k)
        + point_doubling_constrain_trace(
        point_const_terms(p2),
        seq![plus(Wire::MulOut(k + 6))],
        seq![plus(Wire::MulOut(k + 7))],
        k + 10,
    )
}

/// Builds the circuit asserting `2 · p1 = p2` over publicly known points.
pub fn point_doubling_circuit<C: Cs>(
    cs: &mut C,
    p1: &EdwardsPoint,
    p2: &EdwardsPoint,
    a: FieldElement,
    d: FieldElement,
)
    ensures
        final(cs).trace() == old(cs).trace() + point_doubling_circuit_trace(
            *p1,
            *p2,
            a,
            gates(old(cs).trace()),
        ),
        final(cs).allocs() == old(cs).allocs(),
        final(cs).has_witness() == old(cs).has_witness(),
{
    let p1_lc = (
        Lc::from_scalar(fq_as_scalar(ed_x(p1))),
        Lc::from_scalar(fq_as_scalar(ed_y(p1))),
        Lc::from_scalar(fq_as_scalar(ed_z(p1))),
        Lc::from_scalar(fq_as_scalar(ed_t(p1))),
    );
    let p2_lc = (
        Lc::from_scalar(fq_as_scalar(ed_x(p2))),
        Lc::from_scalar(fq_as_scalar(ed_y(p2))),
        Lc::from_scalar(fq_as_scalar(ed_z(p2))),
        Lc::from_scalar(fq_as_scalar(ed_t(p2))),
    );
    let d_lc = Lc::from_scalar(fq_as_scalar(d));
    let a_lc = Lc::from_scalar(fq_as_scalar(a));
    proof {
        crate::trace::lemma_point_const_in_range(
            *p1,
            gates(old(cs).trace()),
            commits(old(cs).trace()),
        );
        crate::trace::lemma_point_const_in_range(
            *p2,
            gates(old(cs).trace()),
            commits(old(cs).trace()),
        );
    }
    let (x, y, _z, _t) = point_doubling_gadget(cs, p1_lc, d_lc, a_lc);
    proof {
        let k = gates(old(cs).trace());
        let body = point_doubling_trace(
            point_const_terms(*p1),
            seq![(Wire::One, fq_scalar_of(a))],
            k,
        );
        assert(gates(body) == 10);
        crate::trace::lemma_gates_add(old(cs).trace(), body);
    }
    let res = (Lc::from_var(&x), Lc::from_var(&y));
    point_doubling_constrain_gadget(cs, p2_lc, res);
    proof {
        assert(cs.trace() =~~= old(cs).trace() + point_doubling_circuit_trace(
            *p1,
            *p2,
            a,
            gates(old(cs).trace()),
        ));
    }
}

/// Builds a proof that `2 · p1 = p2` for publicly known points, under the
/// given curve parameters.  The circuit itself always builds; the one
/// failure is the engine's, reported as `Proving`.
pub fn point_doubling_proof(
    pc_gens: &PedersenGens,
    bp_gens: &BulletproofGens,
    p1: &EdwardsPoint,
    p2: &EdwardsPoint,
    a: FieldElement,
    d: FieldElement,
) -> (r: Result<R1CSProof, GadgetError>)
    ensures
        r is Err ==> r->Err_0 == GadgetError::Proving || r->Err_0
            == GadgetError::CapacityExceeded,
{
    let transcript = transcript_point_add();
    let mut prover = CsProver::new(pc_gens, transcript);
    point_doubling_circuit(&mut prover, p1, p2, a, d);
    prover.prove(bp_gens)
}

/// Verifies a proof that `2 · p1 = p2`, rebuilding the identical circuit.
/// The one failure is the proof not satisfying it, reported as
/// `Verification`.
pub fn point_doubling_verify(
    pc_gens: &PedersenGens,
    bp_gens: &BulletproofGens,
    p1: &EdwardsPoint,
    p2: &EdwardsPoint,
    a: FieldElement,
    d: FieldElement,
    proof: R1CSProof,
) -> (r: Result<(), GadgetError>)
    ensures
        r is Err ==> r->Err_0 == GadgetError::Verification || r->Err_0
            == GadgetError::CapacityExceeded,
{
    let transcript = transcript_point_add();
    let mut verifier = CsVerifier::new(transcript);
    point_doubling_circuit(&mut verifier, p1, p2, a, d);
    verifier.verify(&proof, pc_gens, bp_gens)
}

} // verus!
