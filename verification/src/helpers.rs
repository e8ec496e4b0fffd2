//! Conversions between zerocaf values and circuit-side values, and helpers
//! for committing point coordinates as high-level variables.

use vstd::prelude::*;

use crate::cs::{Cs, CsProver, Lc, Var};
use crate::ext::{ed_x, ed_y, ed_z, ed_t, scalar_random};
use crate::ext::{ed_t_of, ed_x_of, ed_y_of, ed_z_of, fq_scalar_of};
use crate::trace::{commit_ops, commits, CsOp, Wire};

use curve25519_dalek_ng::ristretto::CompressedRistretto;
use curve25519_dalek_ng::scalar::Scalar;
use zerocaf::edwards::EdwardsPoint;
use zerocaf::field::FieldElement;

verus! {

broadcast use crate::trace::lemma_commits_push;

/// Converts an element of the Doppio base field into a scalar of the
/// bulletproofs circuit field.  The two fields have the same prime order,
/// so the canonical byte encoding carries the value across unchanged.
///
/// Relies on zerocaf's `FieldElement::to_bytes` (canonical little-endian
/// encoding) and on curve25519-dalek's `Scalar::from_bytes_mod_order`; the
/// composition is the function [`crate::ext::fq_scalar_of`] names.
#[verifier::external_body]
pub fn fq_as_scalar(elem: FieldElement) -> (r: Scalar)
    ensures
        r == crate::ext::fq_scalar_of(elem),
{
    Scalar::from_bytes_mod_order(elem.to_bytes())
}

/// Commits the four coordinates of one public point.
pub fn commit_point_coords(prover: &mut CsProver, point: &EdwardsPoint) -> (r: (
    Vec<CompressedRistretto>,
    Vec<Var>,
))
    ensures
        final(prover).trace() == old(prover).trace() + commit_ops(4),
        r.0@.len() == 4,
        r.1@.len() == 4,
        forall|m: int|
            0 <= m < 4 ==> (#[trigger] r.1@[m]).wire() == Wire::Committed(
                (commits(old(prover).trace()) + m) as nat,
            ),
{
    let mut commitments: Vec<CompressedRistretto> = Vec::new();
    let mut vars: Vec<Var> = Vec::new();
    let (c_x, v_x) = prover.commit(fq_as_scalar(ed_x(point)), scalar_random());
    commitments.push(c_x);
    vars.push(v_x);
    let (c_y, v_y) = prover.commit(fq_as_scalar(ed_y(point)), scalar_random());
    commitments.push(c_y);
    vars.push(v_y);
    let (c_z, v_z) = prover.commit(fq_as_scalar(ed_z(point)), scalar_random());
    commitments.push(c_z);
    vars.push(v_z);
    let (c_t, v_t) = prover.commit(fq_as_scalar(ed_t(point)), scalar_random());
    commitments.push(c_t);
    vars.push(v_t);
    proof {
        reveal_with_fuel(commit_ops, 5);
        crate::trace::lemma_commit_ops_counts(4);
        assert(prover.trace() =~~= old(prover).trace() + commit_ops(4));
    }
    (commitments, vars)
}

/// Commits the coordinates of two public points, first all four of the
/// first point, then all four of the second.
pub fn commit_2_point_coords(prover: &mut CsProver, points: (&EdwardsPoint, &EdwardsPoint)) -> (r:
    (Vec<CompressedRistretto>, Vec<Var>))
    ensures
        final(prover).trace() == old(prover).trace() + commit_ops(8),
        r.0@.len() == 8,
        r.1@.len() == 8,
        forall|m: int|
            0 <= m < 8 ==> (#[trigger] r.1@[m]).wire() == Wire::Committed(
                (commits(old(prover).trace()) + m) as nat,
            ),
{
    let ghost c0 = commits(old(prover).trace());
    let (mut commitments, mut vars) = commit_point_coords(prover, points.0);
    let ghost mid = prover.trace();
    let ghost vars_a = vars@;
    let (mut commitments2, mut vars2) = commit_point_coords(prover, points.1);
    let ghost vars_b = vars2@;
    commitments.append(&mut commitments2);
    vars.append(&mut vars2);
    proof {
        reveal_with_fuel(commit_ops, 9);
        crate::trace::lemma_commit_ops_counts(4);
        crate::trace::lemma_commits_add(old(prover).trace(), commit_ops(4));
        assert(commits(mid) == c0 + 4);
        assert(prover.trace() =~~= old(prover).trace() + commit_ops(8));
        assert(vars@ == vars_a + vars_b);
        assert forall|m: int| 0 <= m < 8 implies (#[trigger] vars@[m]).wire() == Wire::Committed(
            (c0 + m) as nat,
        ) by {
            if m < 4 {
                assert(vars@[m] == vars_a[m]);
            } else {
                assert(vars@[m] == vars_b[m - 4]);
            }
        }
    }
    (commitments, vars)
}

/// Builds the constant coordinate combinations of each given point, in
/// order: every coordinate enters the circuit as one term on the one-wire
/// whose coefficient is the circuit-field image of that coordinate.
#[allow(non_snake_case)]
pub fn n_point_coords_to_LC(points: &Vec<EdwardsPoint>) -> (r: Vec<(Lc, Lc, Lc, Lc)>)
    ensures
        r@.len() == points@.len(),
        forall|m: int|
            0 <= m < r@.len() ==> {
                &&& (#[trigger] r@[m]).0.terms() == seq![
                    (Wire::One, fq_scalar_of(ed_x_of(points@[m]))),
                ]
                &&& r@[m].1.terms() == seq![(Wire::One, fq_scalar_of(ed_y_of(points@[m])))]
                &&& r@[m].2.terms() == seq![(Wire::One, fq_scalar_of(ed_z_of(points@[m])))]
                &&& r@[m].3.terms() == seq![(Wire::One, fq_scalar_of(ed_t_of(points@[m])))]
            },
{
    let mut out: Vec<(Lc, Lc, Lc, Lc)> = Vec::new();
    let n = points.len();
    let mut i: usize = 0;
    while i < n
        invariant
            i <= n,
            n == points@.len(),
            out@.len() == i,
            forall|m: int|
                0 <= m < i ==> {
                    &&& (#[trigger] out@[m]).0.terms() == seq![
                        (Wire::One, fq_scalar_of(ed_x_of(points@[m]))),
                    ]
                    &&& out@[m].1.terms() == seq![(Wire::One, fq_scalar_of(ed_y_of(points@[m])))]
                    &&& out@[m].2.terms() == seq![(Wire::One, fq_scalar_of(ed_z_of(points@[m])))]
                    &&& out@[m].3.terms() == seq![(Wire::One, fq_scalar_of(ed_t_of(points@[m])))]
                },
        decreases n - i,
    {
        let p = &points[i];
        out.push(
            (
                Lc::from_scalar(fq_as_scalar(ed_x(p))),
                Lc::from_scalar(fq_as_scalar(ed_y(p))),
                Lc::from_scalar(fq_as_scalar(ed_z(p))),
                Lc::from_scalar(fq_as_scalar(ed_t(p))),
            ),
        );
        i = i + 1;
    }
    out
}

/// Commits one field element as a high-level variable under a fresh random
/// blinding factor.
pub fn commit_single_variable(prover: &mut CsProver, var: FieldElement) -> (r: (
    CompressedRistretto,
    Var,
))
    ensures
        final(prover).trace() == old(prover).trace().push(CsOp::Commit),
        r.1.wire() == Wire::Committed(commits(old(prover).trace())),
{
    prover.commit(fq_as_scalar(var), scalar_random())
}

} // verus!
