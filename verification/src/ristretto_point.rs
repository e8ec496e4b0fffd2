//! The circuit form of a prime-order ("Ristretto"-encoded) point of the
//! Doppio curve: the group law and equality over it, and the
//! subgroup-membership gadget that excludes the low-order cosets.

use vstd::prelude::*;

use crate::cs::{Cs, Lc, Var};
use crate::error::GadgetError;
use crate::ext::{ed_double, ed_double_of, ed_t, ed_x, ed_x_of, ed_y, ed_y_of, ed_z, ed_z_of,
    edwards_a_scalar, edwards_d_scalar, fe_eq_zero, fe_inverse_of, fe_is_zero, fe_neg,
    fe_neg_of, fe_sub, fe_sub_of, fq_scalar_of, scalar_one};
use crate::gadgets::edwards_point::{add_out_wires, cond_select_trace, lemma_add_out_in_range,
    select_out_wires};
use crate::gadgets::scalar::{nonzero_gadget, nonzero_trace};
use crate::helpers::fq_as_scalar;
use crate::ext::{a_coeff, d_coeff, scalar_neg_of, scalar_of_u8};
use crate::trace::{commits, gates, minus, neg_terms, plus, point_const_terms, point_in_range,
    terms_in_range, CsOp, LcTerms, PointWires, Wire};

use curve25519_dalek_ng::scalar::Scalar;
use zerocaf::edwards::EdwardsPoint;
use zerocaf::field::FieldElement;

verus! {

broadcast use crate::trace::lemma_gates_push, crate::trace::lemma_commits_push,
    crate::trace::lemma_terms_in_range_concat, crate::trace::lemma_neg_terms_in_range;

/// A prime-order point of the Doppio curve as the circuit sees it: each
/// extended coordinate is a linear combination over circuit wires.  A
/// gadget point that carries a secret witness is expected to have passed
/// [`SonnyRistrettoPointGadget::ristretto_gadget`].
#[allow(non_snake_case)]
pub struct SonnyRistrettoPointGadget {
    pub X: Lc,
    pub Y: Lc,
    pub Z: Lc,
    pub T: Lc,
}

/// The operations the extended-coordinates addition gadget appends, for
/// operand coordinate wires `p1`, `p2` when the system holds `k` multipliers,
/// following the unified law `A = x1·x2, B = y1·y2, C = d·(t1·t2),
/// D = z1·z2, E = (x1+y1)·(x2+y2) + a·A + a·B, F = D−C, G = D+C, H = B+A`,
/// with every reused combination re-tied to multiplier wires by a constraint.
pub open spec fn ristretto_add_trace(p1: PointWires, p2: PointWires, k: nat) -> Seq<CsOp> {
    Seq::empty().push(
        CsOp::Mul { left: p1.x, right: p2.x },
    ).push(
        CsOp::Mul { left: p1.y, right: p2.y },
    ).push(
        CsOp::Mul { left: p1.t, right: p2.t },
    ).push(
        CsOp::Mul { left: seq![plus(Wire::MulOut(k + 2))], right: seq![(Wire::One, d_coeff())] },
    ).push(
        CsOp::Mul { left: p1.z, right: p2.z },
    ).push(
        CsOp::Constrain { lc: p1.x + p1.y + neg_terms(p1.x) + neg_terms(p1.y) },
    ).push(
        CsOp::Constrain { lc: p2.x + p2.y + neg_terms(p2.x) + neg_terms(p2.y) },
    ).push(
        CsOp::Mul { left: p1.x + p1.y, right: p2.x + p2.y },
    ).push(
        CsOp::Mul { left: seq![(Wire::One, a_coeff())], right: seq![plus(Wire::MulOut(k))] },
    ).push(
        CsOp::Mul { left: seq![(Wire::One, a_coeff())], right: seq![plus(Wire::MulOut(k + 1))] },
    ).push(
        CsOp::Constrain {
            lc: seq![
                plus(Wire::MulOut(k + 6)), plus(Wire::MulOut(k + 7)), plus(Wire::MulOut(k + 5)),
                minus(Wire::MulOut(k + 6)), minus(Wire::MulOut(k + 7)), minus(Wire::MulOut(k + 5)),
            ],
        },
    ).push(
        CsOp::Constrain {
            lc: seq![
                plus(Wire::MulOut(k + 4)), minus(Wire::MulOut(k + 3)),
                minus(Wire::MulOut(k + 4)), plus(Wire::MulOut(k + 3)),
            ],
        },
    ).push(
        CsOp::Constrain {
            lc: seq![
                plus(Wire::MulOut(k + 4)), plus(Wire::MulOut(k + 3)),
                minus(Wire::MulOut(k + 4)), minus(Wire::MulOut(k + 3)),
            ],
        },
    ).push(
        CsOp::Constrain {
            lc: seq![
                plus(Wire::MulOut(k + 1)), plus(Wire::MulOut(k)),
                minus(Wire::MulOut(k + 1)), minus(Wire::MulOut(k)),
            ],
        },
    ).push(
        CsOp::Mul {
            left: seq![
                plus(Wire::MulOut(k + 6)), plus(Wire::MulOut(k + 7)), plus(Wire::MulOut(k + 5)),
            ],
            right: seq![plus(Wire::MulOut(k + 4)), minus(Wire::MulOut(k + 3))],
        },
    ).push(
        CsOp::Mul {
            left: seq![plus(Wire::MulOut(k + 4)), plus(Wire::MulOut(k + 3))],
            right: seq![plus(Wire::MulOut(k + 1)), plus(Wire::MulOut(k))],
        },
    ).push(
        CsOp::Mul { left: seq![plus(Wire::MulRight(k + 8))], right: seq![plus(Wire::MulLeft(k + 9))] },
    ).push(
        CsOp::Mul { left: seq![plus(Wire::MulLeft(k + 8))], right: seq![plus(Wire::MulRight(k + 9))] },
    )
}

/// The addition gadget creates exactly twelve gates.
pub proof fn lemma_ristretto_add_trace_gates(p1: PointWires, p2: PointWires, k: nat)
    ensures
        gates(ristretto_add_trace(p1, p2, k)) == 12,
{
}

/// The operations the equality gadget appends: the cross-multiplied
/// equality `x1·y2 = y1·x2`.
pub open spec fn ristretto_equal_trace(p1: PointWires, p2: PointWires, k: nat) -> Seq<CsOp> {
    Seq::empty().push(
        CsOp::Mul { left: p1.x, right: p2.y },
    ).push(
        CsOp::Mul { left: p1.y, right: p2.x },
    ).push(
        CsOp::Constrain { lc: seq![plus(Wire::MulOut(k)), minus(Wire::MulOut(k + 1))] },
    )
}

/// The eightfold of a point, by three applications of zerocaf's doubling
/// formula: the value the prover derives its subgroup witnesses from.
pub open spec fn eight_times(p: EdwardsPoint) -> EdwardsPoint {
    ed_double_of(ed_double_of(ed_double_of(p)))
}

/// The witness for the `x != 0` half of the subgroup check: the negated
/// `x` coordinate of `8·P`.  The circuit doubles through the unified
/// addition law, whose representative of a double is the coordinate-wise
/// negation of the dedicated formula's, so the witness is negated to
/// match.
pub open spec fn subgroup_x_witness(p: EdwardsPoint) -> FieldElement {
    fe_neg_of(ed_x_of(eight_times(p)))
}

/// The witness for the `y − z != 0` half of the subgroup check: `z − y`
/// of `8·P`, negated for the same reason as [`subgroup_x_witness`].
pub open spec fn subgroup_ymz_witness(p: EdwardsPoint) -> FieldElement {
    fe_sub_of(ed_z_of(eight_times(p)), ed_y_of(eight_times(p)))
}

/// Whether a point passes membership validation: both coordinates the
/// check constrains to be non-zero — derived from its eightfold — are
/// non-zero.  They vanish exactly on the points whose order divides 8,
/// where `8·P` is the identity `(0, 1, 1, 0)`.
pub open spec fn passes_subgroup_check(p: EdwardsPoint) -> bool {
    !fe_is_zero(subgroup_x_witness(p)) && !fe_is_zero(subgroup_ymz_witness(p))
}

/// The assignments the subgroup-membership gadget hands to its two
/// allocated gates when the prover supplies the point `p`: the field
/// inverses of the two derived witnesses, each paired with the constant
/// one.
pub open spec fn subgroup_allocs_some(p: EdwardsPoint) -> Seq<Option<(Scalar, Scalar)>> {
    Seq::empty().push(
        Some((fq_scalar_of(fe_inverse_of(subgroup_x_witness(p))), scalar_of_u8(1))),
    ).push(
        Some((fq_scalar_of(fe_inverse_of(subgroup_ymz_witness(p))), scalar_of_u8(1))),
    )
}

/// The assignments on the verifier side: none, twice.
pub open spec fn subgroup_allocs_none() -> Seq<Option<(Scalar, Scalar)>> {
    Seq::empty().push(None).push(None)
}

/// The operations the subgroup-membership gadget appends, for point wires
/// `p` when the system holds `k` multipliers: three doublings compute `8·P`,
/// two non-zero gadgets assert that `8·P` is not the identity, on its `x`
/// coordinate and on `y − z`, which both vanish only on the identity and
/// the small-order points already excluded by the doublings.  The re-tying
/// constraint subtracts the difference `y − z` from itself, so its last
/// coefficient is the doubly negated one, `−(−1)`.
pub open spec fn ristretto_gadget_trace(p: PointWires, k: nat) -> Seq<CsOp> {
    ristretto_add_trace(p, p, k) + ristretto_add_trace(
        add_out_wires(k),
        add_out_wires(k),
        k + 12,
    ) + ristretto_add_trace(add_out_wires(k + 12), add_out_wires(k + 12), k + 24)
        + nonzero_trace(seq![plus(Wire::MulOut(k + 32))], k + 36) + Seq::empty().push(
        CsOp::Constrain {
            lc: seq![
                plus(Wire::MulOut(k + 33)), minus(Wire::MulOut(k + 34)),
                minus(Wire::MulOut(k + 33)),
                (Wire::MulOut(k + 34), scalar_neg_of(scalar_neg_of(scalar_of_u8(1)))),
            ],
        },
    ) + nonzero_trace(seq![plus(Wire::MulOut(k + 33)), minus(Wire::MulOut(k + 34))], k + 38)
}

/// The subgroup-membership gadget creates exactly forty gates.
pub proof fn lemma_ristretto_gadget_trace_gates(p: PointWires, k: nat)
    ensures
        gates(ristretto_gadget_trace(p, k)) == 40,
{
    let a1 = ristretto_add_trace(p, p, k);
    let a2 = ristretto_add_trace(add_out_wires(k), add_out_wires(k), k + 12);
    let a3 = ristretto_add_trace(add_out_wires(k + 12), add_out_wires(k + 12), k + 24);
    let n1 = nonzero_trace(seq![plus(Wire::MulOut(k + 32))], k + 36);
    let tie = Seq::empty().push(
        CsOp::Constrain {
            lc: seq![
                plus(Wire::MulOut(k + 33)), minus(Wire::MulOut(k + 34)),
                minus(Wire::MulOut(k + 33)),
                (Wire::MulOut(k + 34), scalar_neg_of(scalar_neg_of(scalar_of_u8(1)))),
            ],
        },
    );
    let n2 = nonzero_trace(seq![plus(Wire::MulOut(k + 33)), minus(Wire::MulOut(k + 34))], k + 38);
    crate::trace::lemma_gates_add(a1, a2);
    crate::trace::lemma_gates_add(a1 + a2, a3);
    crate::trace::lemma_gates_add(a1 + a2 + a3, n1);
    crate::trace::lemma_gates_add(a1 + a2 + a3 + n1, tie);
    crate::trace::lemma_gates_add(a1 + a2 + a3 + n1 + tie, n2);
}

/// The subgroup-membership gadget commits nothing.
pub proof fn lemma_ristretto_gadget_trace_commits(p: PointWires, k: nat)
    ensures
        commits(ristretto_gadget_trace(p, k)) == 0,
{
    let a1 = ristretto_add_trace(p, p, k);
    let a2 = ristretto_add_trace(add_out_wires(k), add_out_wires(k), k + 12);
    let a3 = ristretto_add_trace(add_out_wires(k + 12), add_out_wires(k + 12), k + 24);
    let n1 = nonzero_trace(seq![plus(Wire::MulOut(k + 32))], k + 36);
    let tie = Seq::empty().push(
        CsOp::Constrain {
            lc: seq![
                plus(Wire::MulOut(k + 33)), minus(Wire::MulOut(k + 34)),
                minus(Wire::MulOut(k + 33)),
                (Wire::MulOut(k + 34), scalar_neg_of(scalar_neg_of(scalar_of_u8(1)))),
            ],
        },
    );
    let n2 = nonzero_trace(seq![plus(Wire::MulOut(k + 33)), minus(Wire::MulOut(k + 34))], k + 38);
    crate::trace::lemma_commits_add(a1, a2);
    crate::trace::lemma_commits_add(a1 + a2, a3);
    crate::trace::lemma_commits_add(a1 + a2 + a3, n1);
    crate::trace::lemma_commits_add(a1 + a2 + a3 + n1, tie);
    crate::trace::lemma_commits_add(a1 + a2 + a3 + n1 + tie, n2);
}

impl SonnyRistrettoPointGadget {
    /// The wires of the four coordinates.
    pub open spec fn wires(&self) -> PointWires {
        PointWires { x: self.X.terms(), y: self.Y.terms(), z: self.Z.terms(), t: self.T.terms() }
    }

    /// Builds the circuit point whose coordinates are the given point's, as
    /// constants, and adds the subgroup-membership constraints for it, with
    /// the point itself as the witness.  The call succeeds exactly when the
    /// point [`passes_subgroup_check`]; a point of order 1, 2, 4 or 8 is a
    /// recoverable `WitnessInvalid` failure that leaves the system
    /// untouched.
    pub fn from_point<C: Cs>(point: &EdwardsPoint, cs: &mut C) -> (r: Result<
        SonnyRistrettoPointGadget,
        GadgetError,
    >)
        ensures
            r is Ok <==> passes_subgroup_check(*point),
            r matches Ok(g) ==> {
                &&& final(cs).trace() == old(cs).trace() + ristretto_gadget_trace(
                    point_const_terms(*point),
                    gates(old(cs).trace()),
                )
                &&& g.wires() == point_const_terms(*point)
            },
            r is Ok ==> final(cs).allocs() == old(cs).allocs() + subgroup_allocs_some(*point),
            r is Err ==> final(cs).trace() == old(cs).trace() && final(cs).allocs() == old(
                cs,
            ).allocs() && r == Err::<SonnyRistrettoPointGadget, GadgetError>(
                GadgetError::WitnessInvalid,
            ),
            final(cs).has_witness() == old(cs).has_witness(),
    {
        let gadget = SonnyRistrettoPointGadget {
            X: Lc::from_scalar(fq_as_scalar(ed_x(point))),
            Y: Lc::from_scalar(fq_as_scalar(ed_y(point))),
            Z: Lc::from_scalar(fq_as_scalar(ed_z(point))),
            T: Lc::from_scalar(fq_as_scalar(ed_t(point))),
        };
        proof {
            crate::trace::lemma_point_const_in_range(
                *point,
                gates(old(cs).trace()),
                commits(old(cs).trace()),
            );
        }
        match gadget.ristretto_gadget(cs, Some(point)) {
            Ok(()) => Ok(gadget),
            Err(_) => Err(GadgetError::WitnessInvalid),
        }
    }

    /// Builds the circuit point over the four given coordinate
    /// combinations and adds the subgroup-membership constraints for it,
    /// without a witness: this is the verifier-side entry, and fails with
    /// `MissingAssignment` on a prover-side system.
    pub fn from_lcs<C: Cs>(lcs: Vec<Lc>, cs: &mut C) -> (r: Result<
        SonnyRistrettoPointGadget,
        GadgetError,
    >)
        requires
            lcs@.len() == 4,
            forall|m: int|
                0 <= m < 4 ==> terms_in_range(
                    (#[trigger] lcs@[m]).terms(),
                    gates(old(cs).trace()),
                    commits(old(cs).trace()),
                ),
        ensures
            r matches Ok(g) ==> {
                &&& final(cs).trace() == old(cs).trace() + ristretto_gadget_trace(
                    PointWires {
                        x: lcs@[0].terms(),
                        y: lcs@[1].terms(),
                        z: lcs@[2].terms(),
                        t: lcs@[3].terms(),
                    },
                    gates(old(cs).trace()),
                )
                &&& g.wires() == PointWires {
                    x: lcs@[0].terms(),
                    y: lcs@[1].terms(),
                    z: lcs@[2].terms(),
                    t: lcs@[3].terms(),
                }
            },
            r is Ok <==> !old(cs).has_witness(),
            r is Ok ==> final(cs).allocs() == old(cs).allocs() + subgroup_allocs_none(),
            r is Err ==> final(cs).trace() == old(cs).trace() && final(cs).allocs() == old(
                cs,
            ).allocs() && r == Err::<SonnyRistrettoPointGadget, GadgetError>(
                GadgetError::MissingAssignment,
            ),
            final(cs).has_witness() == old(cs).has_witness(),
    {
        let mut lcs = lcs;
        let t = lcs.pop().unwrap();
        let z = lcs.pop().unwrap();
        let y = lcs.pop().unwrap();
        let x = lcs.pop().unwrap();
        let gadget = SonnyRistrettoPointGadget { X: x, Y: y, Z: z, T: t };
        match gadget.ristretto_gadget(cs, None) {
            Ok(()) => Ok(gadget),
            Err(_) => Err(GadgetError::MissingAssignment),
        }
    }

    /// Adds the constraints that validate only points of the prime-order
    /// subgroup: `8·P`, computed by three circuit doublings, must differ
    /// from the identity, which the two non-zero gadgets assert on its `x`
    /// coordinate and on `y − z`.  The prover supplies the concrete point,
    /// from which the witnesses for both non-zero gadgets are derived; the
    /// call succeeds exactly when the point [`passes_subgroup_check`] — a
    /// point whose order divides 8 is a recoverable `WitnessInvalid`
    /// failure, a missing prover-side witness a `MissingAssignment`
    /// failure, and either leaves the system untouched.
    #[verifier::rlimit(60)]
    pub fn ristretto_gadget<C: Cs>(&self, cs: &mut C, point_assign: Option<&EdwardsPoint>) -> (r:
        Result<(), GadgetError>)
        requires
            point_in_range(self.wires(), gates(old(cs).trace()), commits(old(cs).trace())),
        ensures
            r is Ok ==> final(cs).trace() == old(cs).trace() + ristretto_gadget_trace(
                self.wires(),
                gates(old(cs).trace()),
            ),
            point_assign matches Some(p) ==> (r is Ok ==> final(cs).allocs() == old(
                cs,
            ).allocs() + subgroup_allocs_some(*p)),
            (r is Ok && point_assign is None) ==> final(cs).allocs() == old(cs).allocs()
                + subgroup_allocs_none(),
            r is Err ==> final(cs).trace() == old(cs).trace() && final(cs).allocs() == old(
                cs,
            ).allocs(),
            final(cs).has_witness() == old(cs).has_witness(),
            point_assign matches Some(p) ==> (r is Ok <==> passes_subgroup_check(*p)),
            point_assign is None ==> (r is Ok <==> !old(cs).has_witness()),
            point_assign is None && r is Err ==> r == Err::<(), GadgetError>(
                GadgetError::MissingAssignment,
            ),
            point_assign is Some && r is Err ==> r == Err::<(), GadgetError>(
                GadgetError::WitnessInvalid,
            ),
    {
        let ghost k = gates(cs.trace());
        let ghost c0 = commits(cs.trace());
        let ghost t0 = cs.trace();
        let assigns: Option<(FieldElement, FieldElement)> = match point_assign {
            Some(p) => {
                let p2 = ed_double(p);
                let p4 = ed_double(&p2);
                let p8 = ed_double(&p4);
                // The circuit doubles through the unified addition law,
                // whose representative of 2·P is the coordinate-wise
                // negation of the dedicated doubling formula's, and the
                // sign survives composition; the circuit's 8·P is the
                // negation of the point computed here, so the witnesses
                // are negated to match.
                let x8 = fe_neg(&ed_x(&p8));
                let ymz = fe_sub(&ed_z(&p8), &ed_y(&p8));
                if fe_eq_zero(&x8) {
                    return Err(GadgetError::WitnessInvalid);
                }
                if fe_eq_zero(&ymz) {
                    return Err(GadgetError::WitnessInvalid);
                }
                Some((x8, ymz))
            },
            None => {
                if cs.is_prover() {
                    return Err(GadgetError::MissingAssignment);
                }
                None
            },
        };
        let two_p = self.double(cs);
        proof {
            let a1 = ristretto_add_trace(self.wires(), self.wires(), k);
            lemma_ristretto_add_trace_gates(self.wires(), self.wires(), k);
            crate::trace::lemma_gates_add(t0, a1);
            crate::trace::lemma_commits_add(t0, a1);
            lemma_add_out_in_range(k, gates(cs.trace()), commits(cs.trace()));
        }
        let four_p = two_p.double(cs);
        proof {
            let a1 = ristretto_add_trace(self.wires(), self.wires(), k);
            let a2 = ristretto_add_trace(add_out_wires(k), add_out_wires(k), k + 12);
            lemma_ristretto_add_trace_gates(add_out_wires(k), add_out_wires(k), k + 12);
            crate::trace::lemma_gates_add(t0 + a1, a2);
            crate::trace::lemma_commits_add(t0 + a1, a2);
            lemma_add_out_in_range(k + 12, gates(cs.trace()), commits(cs.trace()));
        }
        let eight_p = four_p.double(cs);
        proof {
            let a1 = ristretto_add_trace(self.wires(), self.wires(), k);
            let a2 = ristretto_add_trace(add_out_wires(k), add_out_wires(k), k + 12);
            let a3 = ristretto_add_trace(add_out_wires(k + 12), add_out_wires(k + 12), k + 24);
            lemma_ristretto_add_trace_gates(
                add_out_wires(k + 12),
                add_out_wires(k + 12),
                k + 24,
            );
            crate::trace::lemma_gates_add(t0 + a1 + a2, a3);
            crate::trace::lemma_commits_add(t0 + a1 + a2, a3);
            lemma_add_out_in_range(k + 24, gates(cs.trace()), commits(cs.trace()));
        }
        let res_x = match &assigns {
            Some(t) => nonzero_gadget(&eight_p.X, Some(&t.0), cs),
            None => nonzero_gadget(&eight_p.X, None, cs),
        };
        if let Err(e) = res_x {
            return Err(e);
        }
        proof {
            let a1 = ristretto_add_trace(self.wires(), self.wires(), k);
            let a2 = ristretto_add_trace(add_out_wires(k), add_out_wires(k), k + 12);
            let a3 = ristretto_add_trace(add_out_wires(k + 12), add_out_wires(k + 12), k + 24);
            let n1 = nonzero_trace(seq![plus(Wire::MulOut(k + 32))], k + 36);
            crate::trace::lemma_gates_add(t0 + a1 + a2 + a3, n1);
            crate::trace::lemma_commits_add(t0 + a1 + a2 + a3, n1);
            lemma_add_out_in_range(k + 24, gates(cs.trace()), commits(cs.trace()));
        }
        let y_m_z = eight_p.Y.sub(&eight_p.Z);
        cs.constrain(&eight_p.Y.sub(&eight_p.Z).sub(&y_m_z));
        let res_ymz = match &assigns {
            Some(t) => nonzero_gadget(&y_m_z, Some(&t.1), cs),
            None => nonzero_gadget(&y_m_z, None, cs),
        };
        if let Err(e) = res_ymz {
            return Err(e);
        }
        proof {
            lemma_ristretto_add_trace_gates(self.wires(), self.wires(), k);
            lemma_ristretto_add_trace_gates(add_out_wires(k), add_out_wires(k), k + 12);
            lemma_ristretto_add_trace_gates(
                add_out_wires(k + 12),
                add_out_wires(k + 12),
                k + 24,
            );
            let a1 = ristretto_add_trace(self.wires(), self.wires(), k);
            let a2 = ristretto_add_trace(add_out_wires(k), add_out_wires(k), k + 12);
            let a3 = ristretto_add_trace(add_out_wires(k + 12), add_out_wires(k + 12), k + 24);
            let n1 = nonzero_trace(seq![plus(Wire::MulOut(k + 32))], k + 36);
            crate::trace::lemma_gates_add(t0, a1);
            crate::trace::lemma_gates_add(t0 + a1, a2);
            crate::trace::lemma_gates_add(t0 + a1 + a2, a3);
            crate::trace::lemma_gates_add(t0 + a1 + a2 + a3, n1);
            assert(gates(n1) == 2);
            assert(cs.trace() =~~= t0 + ristretto_gadget_trace(self.wires(), k));
        }
        Ok(())
    }

    /// Builds the addition circuit for `self + other` and returns the
    /// resulting circuit point.
    #[verifier::rlimit(60)]
    pub fn add<C: Cs>(&self, cs: &mut C, other: &SonnyRistrettoPointGadget) -> (r:
        SonnyRistrettoPointGadget)
        requires
            point_in_range(self.wires(), gates(old(cs).trace()), commits(old(cs).trace())),
            point_in_range(other.wires(), gates(old(cs).trace()), commits(old(cs).trace())),
        ensures
            final(cs).trace() == old(cs).trace() + ristretto_add_trace(
                self.wires(),
                other.wires(),
                gates(old(cs).trace()),
            ),
            final(cs).allocs() == old(cs).allocs(),
            final(cs).has_witness() == old(cs).has_witness(),
            r.wires() == add_out_wires(gates(old(cs).trace())),
    {
        let a = Lc::from_scalar(edwards_a_scalar());
        let d = Lc::from_scalar(edwards_d_scalar());
        let (_al, _ar, a_v) = cs.multiply(&self.X, &other.X);
        let (_bl, _br, b_v) = cs.multiply(&self.Y, &other.Y);
        let (_tl, _tr, pt_v) = cs.multiply(&self.T, &other.T);
        let (_cl, _cr, c_v) = cs.multiply(&Lc::from_var(&pt_v), &d);
        let (_dl, _dr, d_v) = cs.multiply(&self.Z, &other.Z);
        let e1 = self.X.add(&self.Y);
        cs.constrain(&e1.sub(&self.X).sub(&self.Y));
        let e2 = other.X.add(&other.Y);
        cs.constrain(&e2.sub(&other.X).sub(&other.Y));
        let (_el, _er, e12_v) = cs.multiply(&e1, &e2);
        let (_ql, _qr, aa_v) = cs.multiply(&a, &Lc::from_var(&a_v));
        let (_rl, _rr, bb_v) = cs.multiply(&a, &Lc::from_var(&b_v));
        let lc_e = Lc::from_var(&aa_v).add(&Lc::from_var(&bb_v)).add(&Lc::from_var(&e12_v));
        cs.constrain(
            &lc_e.sub(&Lc::from_var(&aa_v)).sub(&Lc::from_var(&bb_v)).sub(&Lc::from_var(&e12_v)),
        );
        let lc_f = Lc::from_var(&d_v).sub(&Lc::from_var(&c_v));
        cs.constrain(&lc_f.sub(&Lc::from_var(&d_v)).add(&Lc::from_var(&c_v)));
        let lc_g = Lc::from_var(&d_v).add(&Lc::from_var(&c_v));
        cs.constrain(&lc_g.sub(&Lc::from_var(&d_v)).sub(&Lc::from_var(&c_v)));
        let lc_h = Lc::from_var(&b_v).add(&Lc::from_var(&a_v));
        cs.constrain(&lc_h.sub(&Lc::from_var(&b_v)).sub(&Lc::from_var(&a_v)));
        let (e_v, f_v, x3) = cs.multiply(&lc_e, &lc_f);
        let (g_v, h_v, y3) = cs.multiply(&lc_g, &lc_h);
        let (_zl, _zr, z3) = cs.multiply(&Lc::from_var(&f_v), &Lc::from_var(&g_v));
        let (_wl, _wr, t3) = cs.multiply(&Lc::from_var(&e_v), &Lc::from_var(&h_v));
        proof {
            assert(cs.trace() =~~= old(cs).trace() + ristretto_add_trace(
                self.wires(),
                other.wires(),
                gates(old(cs).trace()),
            ));
        }
        SonnyRistrettoPointGadget {
            X: Lc::from_var(&x3),
            Y: Lc::from_var(&y3),
            Z: Lc::from_var(&z3),
            T: Lc::from_var(&t3),
        }
    }

    /// Constrains `self` and `other` to name the same projective point by
    /// the cross-multiplication equality `x1·y2 = y1·x2`.  This single
    /// check relies on both operands being properly scaled members of the
    /// prime-order subgroup: apply [`Self::ristretto_gadget`] to committed
    /// inputs before relying on it.
    pub fn equals<C: Cs>(&self, cs: &mut C, other: &SonnyRistrettoPointGadget)
        requires
            point_in_range(self.wires(), gates(old(cs).trace()), commits(old(cs).trace())),
            point_in_range(other.wires(), gates(old(cs).trace()), commits(old(cs).trace())),
        ensures
            final(cs).trace() == old(cs).trace() + ristretto_equal_trace(
                self.wires(),
                other.wires(),
                gates(old(cs).trace()),
            ),
            final(cs).allocs() == old(cs).allocs(),
            final(cs).has_witness() == old(cs).has_witness(),
    {
        let (_xl, _xr, x1y2) = cs.multiply(&self.X, &other.Y);
        let (_yl, _yr, y1x2) = cs.multiply(&self.Y, &other.X);
        cs.constrain(&Lc::from_var(&x1y2).sub(&Lc::from_var(&y1x2)));
        proof {
            assert(cs.trace() =~~= old(cs).trace() + ristretto_equal_trace(
                self.wires(),
                other.wires(),
                gates(old(cs).trace()),
            ));
        }
    }

    /// Builds the doubling circuit for `2 · self`, as the addition of the
    /// point to itself, and returns the resulting circuit point.
    pub fn double<C: Cs>(&self, cs: &mut C) -> (r: SonnyRistrettoPointGadget)
        requires
            point_in_range(self.wires(), gates(old(cs).trace()), commits(old(cs).trace())),
        ensures
            final(cs).trace() == old(cs).trace() + ristretto_add_trace(
                self.wires(),
                self.wires(),
                gates(old(cs).trace()),
            ),
            final(cs).allocs() == old(cs).allocs(),
            final(cs).has_witness() == old(cs).has_witness(),
            r.wires() == add_out_wires(gates(old(cs).trace())),
    {
        self.add(cs, self)
    }

    /// Builds the conditional-selection circuit: the result equals `self`
    /// when the (boolean-constrained) selector is 1 and the identity point
    /// `(0, 1, 1, 0)` when it is 0.
    pub fn conditionally_select<C: Cs>(&self, bit: &Lc, cs: &mut C) -> (r:
        SonnyRistrettoPointGadget)
        requires
            point_in_range(self.wires(), gates(old(cs).trace()), commits(old(cs).trace())),
            terms_in_range(bit.terms(), gates(old(cs).trace()), commits(old(cs).trace())),
        ensures
            final(cs).trace() == old(cs).trace() + cond_select_trace(
                self.wires(),
                bit.terms(),
                gates(old(cs).trace()),
            ),
            final(cs).allocs() == old(cs).allocs(),
            final(cs).has_witness() == old(cs).has_witness(),
            r.wires() == select_out_wires(gates(old(cs).trace())),
    {
        let one = Lc::from_scalar(scalar_one());
        let (_xl, bit1_v, x_prime) = cs.multiply(&self.X, bit);
        let (bit2_v, _yr, bit_t_y) = cs.multiply(&Lc::from_var(&bit1_v), &self.Y);
        let y_prime = Lc::from_var(&bit_t_y).add(&one).sub(&Lc::from_var(&bit2_v));
        cs.constrain(&y_prime.sub(&Lc::from_var(&bit_t_y)).sub(&one).add(&Lc::from_var(&bit2_v)));
        let (bit3_v, _zr, bit_t_z) = cs.multiply(&Lc::from_var(&bit2_v), &self.Z);
        let z_prime = Lc::from_var(&bit_t_z).add(&one).sub(&Lc::from_var(&bit3_v));
        cs.constrain(&z_prime.sub(&Lc::from_var(&bit_t_z)).sub(&one).add(&Lc::from_var(&bit3_v)));
        let (_tl, _tr, t_prime) = cs.multiply(&self.T, &Lc::from_var(&bit3_v));
        proof {
            assert(cs.trace() =~~= old(cs).trace() + cond_select_trace(
                self.wires(),
                bit.terms(),
                gates(old(cs).trace()),
            ));
        }
        SonnyRistrettoPointGadget {
            X: Lc::from_var(&x_prime),
            Y: y_prime,
            Z: z_prime,
            T: Lc::from_var(&t_prime),
        }
    }
}

} // verus!
