//! Point addition over public points: the unified twisted Edwards addition
//! law lowered into multiplication gates, and a proof/verify round for it.

use vstd::prelude::*;

use crate::cs::{Cs, CsProver, CsVerifier, Lc, Var};
use crate::error::GadgetError;
use crate::ext::{ed_x, ed_x_of, ed_y, ed_y_of, ed_z, ed_t, fq_scalar_of, transcript_point_add};
use crate::helpers::fq_as_scalar;
use crate::trace::{commits, gates, minus, plus, point_const_terms, point_in_range,
    terms_in_range, CsOp, LcTerms, PointWires, Wire};

use bulletproofs::BulletproofGens;
use bulletproofs::PedersenGens;
use bulletproofs::r1cs::R1CSProof;
use zerocaf::edwards::EdwardsPoint;
use zerocaf::field::FieldElement;

verus! {

broadcast use crate::trace::lemma_gates_push, crate::trace::lemma_commits_push,
    crate::trace::lemma_terms_in_range_concat, crate::trace::lemma_neg_terms_in_range;

/// The terms of a coordinate quadruple of linear combinations.
pub open spec fn quad_wires(p: (Lc, Lc, Lc, Lc)) -> PointWires {
    PointWires { x: p.0.terms(), y: p.1.terms(), z: p.2.terms(), t: p.3.terms() }
}

/// The operations the addition gadget appends, for operand coordinate wires
/// `p1`, `p2`, curve-parameter combinations `d` and `a`, when the system
/// holds `k` gates.  Following the extended-coordinates addition law
/// `A = x1·x2, B = y1·y2, C = d·(t1·t2), D = z1·z2,
/// E = (x1+y1)·(x2+y2) + a·A + a·B, F = D−C, G = D+C, H = B+A`,
/// with results `X3 = E·F, Y3 = G·H, Z3 = F·G, T3 = E·H`.
pub open spec fn point_addition_trace(
    p1: PointWires,
    p2: PointWires,
    d: LcTerms,
    a: LcTerms,
    k: nat,
) -> Seq<CsOp> {
    Seq::empty().push(
        CsOp::Mul { left: p1.x, right: p2.x },
    ).push(
        CsOp::Mul { left: p1.y, right: p2.y },
    ).push(
        CsOp::Mul { left: p1.t, right: p2.t },
    ).push(
        CsOp::Mul { left: seq![plus(Wire::MulOut(k + 2))], right: d },
    ).push(
        CsOp::Mul { left: p1.z, right: p2.z },
    ).push(
        CsOp::Mul { left: p1.x + p1.y, right: p2.x + p2.y },
    ).push(
        CsOp::Mul { left: a, right: seq![plus(Wire::MulOut(k))] },
    ).push(
        CsOp::Mul { left: a, right: seq![plus(Wire::MulOut(k + 1))] },
    ).push(
        CsOp::Mul {
            left: seq![
                plus(Wire::MulOut(k + 6)), plus(Wire::MulOut(k + 7)), plus(Wire::MulOut(k + 5)),
            ],
            right: seq![plus(Wire::MulOut(k + 4)), minus(Wire::MulOut(k + 3))],
        },
    ).push(
        CsOp::Mul {
            left: seq![plus(Wire::MulOut(k + 4)), plus(Wire::MulOut(k + 3))],
            right: seq![plus(Wire::MulOut(k + 1)), plus(Wire::MulOut(k))],
        },
    ).push(
        CsOp::Mul {
            left: seq![plus(Wire::MulOut(k + 4)), minus(Wire::MulOut(k + 3))],
            right: seq![plus(Wire::MulOut(k + 4)), plus(Wire::MulOut(k + 3))],
        },
    ).push(
        CsOp::Mul {
            left: seq![
                plus(Wire::MulOut(k + 6)), plus(Wire::MulOut(k + 7)), plus(Wire::MulOut(k + 5)),
            ],
            right: seq![plus(Wire::MulOut(k + 1)), plus(Wire::MulOut(k))],
        },
    )
}

/// Builds the circuit of the addition of two twisted Edwards points in
/// extended coordinates and returns the wires of the resulting point's
/// coordinates.
pub fn point_addition_gadget<C: Cs>(
    cs: &mut C,
    p1: (Lc, Lc, Lc, Lc),
    p2: (Lc, Lc, Lc, Lc),
    d: Lc,
    a: Lc,
) -> (r: (Var, Var, Var, Var))
    requires
        point_in_range(quad_wires(p1), gates(old(cs).trace()), commits(old(cs).trace())),
        point_in_range(quad_wires(p2), gates(old(cs).trace()), commits(old(cs).trace())),
        terms_in_range(d.terms(), gates(old(cs).trace()), commits(old(cs).trace())),
        terms_in_range(a.terms(), gates(old(cs).trace()), commits(old(cs).trace())),
    ensures
        final(cs).trace() == old(cs).trace() + point_addition_trace(
            quad_wires(p1),
            quad_wires(p2),
            d.terms(),
            a.terms(),
            gates(old(cs).trace()),
        ),
        final(cs).allocs() == old(cs).allocs(),
        final(cs).has_witness() == old(cs).has_witness(),
        r.0.wire() == Wire::MulOut(gates(old(cs).trace()) + 8),
        r.1.wire() == Wire::MulOut(gates(old(cs).trace()) + 9),
        r.2.wire() == Wire::MulOut(gates(old(cs).trace()) + 10),
        r.3.wire() == Wire::MulOut(gates(old(cs).trace()) + 11),
{
    let (p1_x, p1_y, p1_z, p1_t) = p1;
    let (p2_x, p2_y, p2_z, p2_t) = p2;
    let (_al, _ar, var_a) = cs.multiply(&p1_x, &p2_x);
    let (_bl, _br, var_b) = cs.multiply(&p1_y, &p2_y);
    let (_tl, _tr, var_pt) = cs.multiply(&p1_t, &p2_t);
    let (_cl, _cr, var_c) = cs.multiply(&Lc::from_var(&var_pt), &d);
    let (_dl, _dr, var_d) = cs.multiply(&p1_z, &p2_z);
    let e1 = p1_x.add(&p1_y);
    let e2 = p2_x.add(&p2_y);
    let (_el, _er, var_e12) = cs.multiply(&e1, &e2);
    let (_ml, _mr, var_aa) = cs.multiply(&a, &Lc::from_var(&var_a));
    let (_nl, _nr, var_ab) = cs.multiply(&a, &Lc::from_var(&var_b));
    let lc_e = Lc::from_var(&var_aa).add(&Lc::from_var(&var_ab)).add(&Lc::from_var(&var_e12));
    let lc_f = Lc::from_var(&var_d).sub(&Lc::from_var(&var_c));
    let lc_g = Lc::from_var(&var_d).add(&Lc::from_var(&var_c));
    let lc_h = Lc::from_var(&var_b).add(&Lc::from_var(&var_a));
    let (_xl, _xr, x3) = cs.multiply(&lc_e, &lc_f);
    let (_yl, _yr, y3) = cs.multiply(&lc_g, &lc_h);
    let (_zl, _zr, z3) = cs.multiply(&lc_f, &lc_g);
    let (_wl, _wr, t3) = cs.multiply(&lc_e, &lc_h);
    proof {
        assert(cs.trace() =~~= old(cs).trace() + point_addition_trace(
            quad_wires(p1),
            quad_wires(p2),
            d.terms(),
            a.terms(),
            gates(old(cs).trace()),
        ));
    }
    (x3, y3, z3, t3)
}

/// The operations the result-equality gadget appends: the computed `x`
/// multiplied by the expected point's constant `y` coordinate, the
/// computed `y` by the expected constant `x`, and the constraint that the
/// first product minus the second vanishes: `x·y2 − y·x2 = 0`.
pub open spec fn point_addition_constrain_trace(
    p: EdwardsPoint,
    rx: LcTerms,
    ry: LcTerms,
    k: nat,
) -> Seq<CsOp> {
    Seq::empty().push(
        CsOp::Mul { left: rx, right: seq![(Wire::One, fq_scalar_of(ed_y_of(p)))] },
    ).push(
        CsOp::Mul { left: ry, right: seq![(Wire::One, fq_scalar_of(ed_x_of(p)))] },
    ).push(
        CsOp::Constrain { lc: seq![plus(Wire::MulOut(k)), minus(Wire::MulOut(k + 1))] },
    )
}

/// Constrains the computed coordinates `res_point = (x, y)` to name the same
/// projective point as `p_add`, by the cross-multiplication equality
/// `x·y2 = y·x2`.
pub fn point_addition_constrain_gadget<C: Cs>(
    cs: &mut C,
    p_add: &EdwardsPoint,
    res_point: &(Lc, Lc),
)
    requires
        terms_in_range(res_point.0.terms(), gates(old(cs).trace()), commits(old(cs).trace())),
        terms_in_range(res_point.1.terms(), gates(old(cs).trace()), commits(old(cs).trace())),
    ensures
        final(cs).trace() == old(cs).trace() + point_addition_constrain_trace(
            *p_add,
            res_point.0.terms(),
            res_point.1.terms(),
            gates(old(cs).trace()),
        ),
        final(cs).allocs() == old(cs).allocs(),
        final(cs).has_witness() == old(cs).has_witness(),
{
    let x_const = Lc::from_scalar(fq_as_scalar(ed_x(p_add)));
    let y_const = Lc::from_scalar(fq_as_scalar(ed_y(p_add)));
    let (_xl, _xr, x1y2) = cs.multiply(&res_point.0, &y_const);
    let (_yl, _yr, y1x2) = cs.multiply(&res_point.1, &x_const);
    cs.constrain(&Lc::from_var(&x1y2).sub(&Lc::from_var(&y1x2)));
    proof {
        assert(cs.trace() =~~= old(cs).trace() + point_addition_constrain_trace(
            *p_add,
            res_point.0.terms(),
            res_point.1.terms(),
            gates(old(cs).trace()),
        ));
    }
}

/// The whole public-point addition circuit: every coordinate and both
/// curve parameters enter as constants, so the trace is one function of
/// the public inputs, the same on the prover and the verifier side.
pub open spec fn point_addition_circuit_trace(
    p1: EdwardsPoint,
    p2: EdwardsPoint,
    p3: EdwardsPoint,
    a: FieldElement,
    d: FieldElement,
    k: nat,
) -> Seq<CsOp> {
    point_addition_trace(
        point_const_terms(p1),
        point_const_terms(p2),
        seq![(Wire::One, fq_scalar_of(d))],
        seq![(Wire::One, fq_scalar_of(a))],
        k,
    ) + point_addition_constrain_trace(
        p3,
        seq![plus(Wire::MulOut(k + 8))],
        seq![plus(Wire::MulOut(k + 9))],
        k + 12,
    )
}

/// Builds the circuit asserting `p1 + p2 = p3` over publicly known points.
pub fn point_addition_circuit<C: Cs>(
    cs: &mut C,
    p1: &EdwardsPoint,
    p2: &EdwardsPoint,
    p3: &EdwardsPoint,
    a: FieldElement,
    d: FieldElement,
)
    ensures
        final(cs).trace() == old(cs).trace() + point_addition_circuit_trace(
            *p1,
            *p2,
            *p3,
            a,
            d,
            gates(old(cs).trace()),
        ),
        final(cs).allocs() == old(cs).allocs(),
        final(cs).has_witness() == old(cs).has_witness(),
{
    let p1_lc = (
        Lc::from_scalar(fq_as_scalar(ed_x(p1))),
        Lc::from_scalar(fq_as_scalar(ed_y(p1))),
        Lc::from_scalar(fq_as_scalar(ed_z(p1))),
        Lc::from_scalar(fq_as_scalar(ed_t(p1))),
    );
    let p2_lc = (
        Lc::from_scalar(fq_as_scalar(ed_x(p2))),
        Lc::from_scalar(fq_as_scalar(ed_y(p2))),
        Lc::from_scalar(fq_as_scalar(ed_z(p2))),
        Lc::from_scalar(fq_as_scalar(ed_t(p2))),
    );
    let d_lc = Lc::from_scalar(fq_as_scalar(d));
    let a_lc = Lc::from_scalar(fq_as_scalar(a));
    proof {
        crate::trace::lemma_point_const_in_range(
            *p1,
            gates(old(cs).trace()),
            commits(old(cs).trace()),
        );
        crate::trace::lemma_point_const_in_range(
            *p2,
            gates(old(cs).trace()),
            commits(old(cs).trace()),
        );
    }
    let (x, y, _z, _t) = point_addition_gadget(cs, p1_lc, p2_lc, d_lc, a_lc);
    proof {
        let k = gates(old(cs).trace());
        let body = point_addition_trace(
            point_const_terms(*p1),
            point_const_terms(*p2),
            seq![(Wire::One, fq_scalar_of(d))],
            seq![(Wire::One, fq_scalar_of(a))],
            k,
        );
        assert(gates(body) == 12);
        crate::trace::lemma_gates_add(old(cs).trace(), body);
    }
    let res = (Lc::from_var(&x), Lc::from_var(&y));
    point_addition_constrain_gadget(cs, p3, &res);
    proof {
        assert(cs.trace() =~~= old(cs).trace() + point_addition_circuit_trace(
            *p1,
            *p2,
            *p3,
            a,
            d,
            gates(old(cs).trace()),
        ));
    }
}

/// Builds a proof that `p1 + p2 = p3` for publicly known points, under the
/// given curve parameters.  The circuit itself always builds; the one
/// failure is the engine's, reported as `Proving`.
pub fn point_addition_proof(
    pc_gens: &PedersenGens,
    bp_gens: &BulletproofGens,
    p1: &EdwardsPoint,
    p2: &EdwardsPoint,
    p3: &EdwardsPoint,
    a: FieldElement,
    d: FieldElement,
) -> (r: Result<R1CSProof, GadgetError>)
    ensures
        r is Err ==> r->Err_0 == GadgetError::Proving || r->Err_0
            == GadgetError::CapacityExceeded,
{
    let transcript = transcript_point_add();
    let mut prover = CsProver::new(pc_gens, transcript);
    point_addition_circuit(&mut prover, p1, p2, p3, a, d);
    prover.prove(bp_gens)
}

/// Verifies a proof that `p1 + p2 = p3`, rebuilding the identical circuit.
/// The one failure is the proof not satisfying it, reported as
/// `Verification`.
pub fn point_addition_verify(
    pc_gens: &PedersenGens,
    bp_gens: &BulletproofGens,
    p1: &EdwardsPoint,
    p2: &EdwardsPoint,
    p3: &EdwardsPoint,
    a: FieldElement,
    d: FieldElement,
    proof: R1CSProof,
) -> (r: Result<(), GadgetError>)
    ensures
        r is Err ==> r->Err_0 == GadgetError::Verification || r->Err_0
            == GadgetError::CapacityExceeded,
{
    let transcript = transcript_point_add();
    let mut verifier = CsVerifier::new(transcript);
    point_addition_circuit(&mut verifier, p1, p2, p3, a, d);
    verifier.verify(&proof, pc_gens, bp_gens)
}

} // verus!
