//! Ghost model of a constraint system's build history.
//!
//! A constraint system is modelled by the sequence of operations that were
//! performed on it: multiplication gates, linear constraints, allocations and
//! high-level variable commitments.  Wires are identified structurally, by
//! their role and the index of the multiplier or commitment that introduced
//! them; a linear combination is modelled by the sequence of its terms, each
//! a wire together with its scalar coefficient, in order.  Coefficients are
//! opaque scalars of the circuit field, pinned through the named results of
//! the conversions that produce them, so the model captures both the shape
//! and the algebraic content of every recorded combination while staying
//! independent of any witness value.

use vstd::prelude::*;

use crate::ext::{ed_t_of, ed_x_of, ed_y_of, ed_z_of, fq_scalar_of, scalar_neg_of, scalar_of_u8};

use curve25519_dalek_ng::scalar::Scalar;
use zerocaf::edwards::EdwardsPoint;

verus! {

/// A wire of the constraint system, identified by how it was introduced.
pub enum Wire {
    /// The wire of the `i`-th committed high-level variable.
    Committed(nat),
    /// The left input wire of the `i`-th multiplication gate.
    MulLeft(nat),
    /// The right input wire of the `i`-th multiplication gate.
    MulRight(nat),
    /// The output wire of the `i`-th multiplication gate.
    MulOut(nat),
    /// The constant-one wire.
    One,
}

/// The terms of a linear combination: each wire with its coefficient, in
/// the order the combination holds them.
pub type LcTerms = Seq<(Wire, Scalar)>;

/// The same terms with every coefficient negated: what subtracting the
/// combination appends.
pub open spec fn neg_terms(ts: LcTerms) -> LcTerms {
    ts.map_values(|t: (Wire, Scalar)| (t.0, scalar_neg_of(t.1)))
}

/// One operation performed on a constraint system.
///
/// A `Mul` op stands for one call that creates a multiplication gate from two
/// linear combinations; it covers the multiplier itself together with the two
/// constraints that tie its input wires to the given combinations.
/// An `Alloc` op creates a multiplier with no tying constraints.  A `Constrain` op
/// asserts that a linear combination vanishes.  A `Commit` op introduces one
/// committed high-level variable.
#[verifier::ext_equal]
pub enum CsOp {
    Mul { left: LcTerms, right: LcTerms },
    Alloc,
    Constrain { lc: LcTerms },
    Commit,
}

/// Number of multiplication gates a trace has created.
pub open spec fn gates(t: Seq<CsOp>) -> nat
    decreases t.len(),
{
    if t.len() == 0 {
        0
    } else {
        gates(t.drop_last()) + (match t.last() {
            CsOp::Mul { .. } => 1nat,
            CsOp::Alloc => 1nat,
            _ => 0nat,
        })
    }
}

/// Number of high-level variables a trace has committed.
pub open spec fn commits(t: Seq<CsOp>) -> nat
    decreases t.len(),
{
    if t.len() == 0 {
        0
    } else {
        commits(t.drop_last()) + (match t.last() {
            CsOp::Commit => 1nat,
            _ => 0nat,
        })
    }
}

/// Pushing one operation raises `gates` by one exactly for the operations
/// that allocate a multiplier.
pub broadcast proof fn lemma_gates_push(t: Seq<CsOp>, op: CsOp)
    ensures
        #[trigger] gates(t.push(op)) == gates(t) + (match op {
            CsOp::Mul { .. } => 1nat,
            CsOp::Alloc => 1nat,
            _ => 0nat,
        }),
{
    assert(t.push(op).drop_last() =~= t);
}

/// Pushing one operation raises the commitment count by one exactly for
/// `Commit`.
pub broadcast proof fn lemma_commits_push(t: Seq<CsOp>, op: CsOp)
    ensures
        #[trigger] commits(t.push(op)) == commits(t) + (match op {
            CsOp::Commit => 1nat,
            _ => 0nat,
        }),
{
    assert(t.push(op).drop_last() =~= t);
}

/// The multiplier count distributes over trace concatenation.
pub proof fn lemma_gates_add(a: Seq<CsOp>, b: Seq<CsOp>)
    ensures
        gates(a + b) == gates(a) + gates(b),
    decreases b.len(),
{
    if b.len() == 0 {
        assert(a + b =~= a);
    } else {
        lemma_gates_add(a, b.drop_last());
        assert((a + b).drop_last() =~= a + b.drop_last());
    }
}

/// Commitment count distributes over trace concatenation.
pub proof fn lemma_commits_add(a: Seq<CsOp>, b: Seq<CsOp>)
    ensures
        commits(a + b) == commits(a) + commits(b),
    decreases b.len(),
{
    if b.len() == 0 {
        assert(a + b =~= a);
    } else {
        lemma_commits_add(a, b.drop_last());
        assert((a + b).drop_last() =~= a + b.drop_last());
    }
}

/// `n` consecutive commitment operations.
pub open spec fn commit_ops(n: nat) -> Seq<CsOp>
    decreases n,
{
    if n == 0 {
        Seq::empty()
    } else {
        commit_ops((n - 1) as nat).push(CsOp::Commit)
    }
}

/// Commitment operations commit and allocate nothing else.
pub proof fn lemma_commit_ops_counts(n: nat)
    ensures
        commits(commit_ops(n)) == n,
        gates(commit_ops(n)) == 0,
        commit_ops(n).len() == n,
    decreases n,
{
    if n > 0 {
        lemma_commit_ops_counts((n - 1) as nat);
        lemma_commits_push(commit_ops((n - 1) as nat), CsOp::Commit);
        lemma_gates_push(commit_ops((n - 1) as nat), CsOp::Commit);
    }
}

/// Whether a wire exists in a system with `g` multiplication gates and `c`
/// committed variables: the index of the multiplier or commitment that
/// introduced it must have been allocated already.  A foreign or
/// not-yet-allocated wire handed to the underlying engine would make it
/// index out of bounds.
pub open spec fn wire_in_range(w: Wire, g: nat, c: nat) -> bool {
    match w {
        Wire::Committed(i) => i < c,
        Wire::MulLeft(i) => i < g,
        Wire::MulRight(i) => i < g,
        Wire::MulOut(i) => i < g,
        Wire::One => true,
    }
}

/// Every wire named by the terms exists in a system with `g` gates and `c`
/// committed variables.
pub open spec fn terms_in_range(ts: LcTerms, g: nat, c: nat) -> bool {
    forall|i: int| 0 <= i < ts.len() ==> wire_in_range((#[trigger] ts[i]).0, g, c)
}

/// Splitting a concatenation: both halves are in range exactly when the
/// whole is.
pub broadcast proof fn lemma_terms_in_range_concat(a: LcTerms, b: LcTerms, g: nat, c: nat)
    ensures
        #[trigger] terms_in_range(a + b, g, c) <==> terms_in_range(a, g, c) && terms_in_range(
            b,
            g,
            c,
        ),
{
    if terms_in_range(a + b, g, c) {
        assert forall|i: int| 0 <= i < a.len() implies wire_in_range(
            (#[trigger] a[i]).0,
            g,
            c,
        ) by {
            assert((a + b)[i] == a[i]);
        }
        assert forall|i: int| 0 <= i < b.len() implies wire_in_range(
            (#[trigger] b[i]).0,
            g,
            c,
        ) by {
            assert((a + b)[a.len() + i] == b[i]);
        }
    }
    if terms_in_range(a, g, c) && terms_in_range(b, g, c) {
        assert forall|i: int| 0 <= i < (a + b).len() implies wire_in_range(
            (#[trigger] (a + b)[i]).0,
            g,
            c,
        ) by {
            if i < a.len() {
                assert((a + b)[i] == a[i]);
            } else {
                assert((a + b)[i] == b[i - a.len()]);
            }
        }
    }
}

/// Negating coefficients touches no wires, so ranges carry over.
pub broadcast proof fn lemma_neg_terms_in_range(ts: LcTerms, g: nat, c: nat)
    ensures
        #[trigger] terms_in_range(neg_terms(ts), g, c) <==> terms_in_range(ts, g, c),
{
    if terms_in_range(neg_terms(ts), g, c) {
        assert forall|i: int| 0 <= i < ts.len() implies wire_in_range(
            (#[trigger] ts[i]).0,
            g,
            c,
        ) by {
            assert(neg_terms(ts)[i].0 == ts[i].0);
            assert(wire_in_range(neg_terms(ts)[i].0, g, c));
        }
    }
    if terms_in_range(ts, g, c) {
        assert forall|i: int| 0 <= i < neg_terms(ts).len() implies wire_in_range(
            (#[trigger] neg_terms(ts)[i]).0,
            g,
            c,
        ) by {
            assert(neg_terms(ts)[i].0 == ts[i].0);
            assert(wire_in_range(ts[i].0, g, c));
        }
    }
}

/// Terms in range of a smaller system are in range of every larger one.
pub proof fn lemma_terms_in_range_grow(ts: LcTerms, g1: nat, c1: nat, g2: nat, c2: nat)
    requires
        terms_in_range(ts, g1, c1),
        g1 <= g2,
        c1 <= c2,
    ensures
        terms_in_range(ts, g2, c2),
{
    assert forall|i: int| 0 <= i < ts.len() implies wire_in_range(
        (#[trigger] ts[i]).0,
        g2,
        c2,
    ) by {
        assert(wire_in_range(ts[i].0, g1, c1));
    }
}

/// The terms of the four coordinates of a circuit point, in extended
/// twisted Edwards coordinates.
#[verifier::ext_equal]
pub struct PointWires {
    pub x: LcTerms,
    pub y: LcTerms,
    pub z: LcTerms,
    pub t: LcTerms,
}

/// Every coordinate wire of the point exists in a system with `g` gates
/// and `c` committed variables.
pub open spec fn point_in_range(p: PointWires, g: nat, c: nat) -> bool {
    &&& terms_in_range(p.x, g, c)
    &&& terms_in_range(p.y, g, c)
    &&& terms_in_range(p.z, g, c)
    &&& terms_in_range(p.t, g, c)
}

/// A point in range of a smaller system is in range of every larger one.
pub proof fn lemma_point_in_range_grow(p: PointWires, g1: nat, c1: nat, g2: nat, c2: nat)
    requires
        point_in_range(p, g1, c1),
        g1 <= g2,
        c1 <= c2,
    ensures
        point_in_range(p, g2, c2),
{
    lemma_terms_in_range_grow(p.x, g1, c1, g2, c2);
    lemma_terms_in_range_grow(p.y, g1, c1, g2, c2);
    lemma_terms_in_range_grow(p.z, g1, c1, g2, c2);
    lemma_terms_in_range_grow(p.t, g1, c1, g2, c2);
}

/// The identity point `(0, 1, 1, 0)` as constant terms on the one-wire.
pub open spec fn identity_point_terms() -> PointWires {
    PointWires {
        x: seq![(Wire::One, scalar_of_u8(0))],
        y: seq![(Wire::One, scalar_of_u8(1))],
        z: seq![(Wire::One, scalar_of_u8(1))],
        t: seq![(Wire::One, scalar_of_u8(0))],
    }
}

/// A given point's coordinates as constant terms on the one-wire, each
/// coefficient the circuit-field image of the corresponding coordinate.
pub open spec fn point_const_terms(p: EdwardsPoint) -> PointWires {
    PointWires {
        x: seq![(Wire::One, fq_scalar_of(ed_x_of(p)))],
        y: seq![(Wire::One, fq_scalar_of(ed_y_of(p)))],
        z: seq![(Wire::One, fq_scalar_of(ed_z_of(p)))],
        t: seq![(Wire::One, fq_scalar_of(ed_t_of(p)))],
    }
}

/// The coefficient `-1`, which subtraction puts on each appended term.
pub open spec fn minus_one() -> Scalar {
    scalar_neg_of(scalar_of_u8(1))
}

/// A term carrying the wire with coefficient one.
pub open spec fn plus(w: Wire) -> (Wire, Scalar) {
    (w, scalar_of_u8(1))
}

/// A term carrying the wire with coefficient minus one.
pub open spec fn minus(w: Wire) -> (Wire, Scalar) {
    (w, minus_one())
}

/// Constant-term points name only the one-wire, in range of every system.
pub proof fn lemma_identity_point_in_range(g: nat, c: nat)
    ensures
        point_in_range(identity_point_terms(), g, c),
{
}

/// Constant-term points name only the one-wire, in range of every system.
pub proof fn lemma_point_const_in_range(p: EdwardsPoint, g: nat, c: nat)
    ensures
        point_in_range(point_const_terms(p), g, c),
{
}

} // verus!
