//! Laws of the gadget algebra, proved over the trace model.
//!
//! The central guarantee of the library — that the prover and the verifier
//! build byte-for-byte identical constraint graphs — is carried by the
//! contracts of the gadgets themselves: each appends one operation
//! sequence that is a function of its inputs' wire structure alone, and
//! the two sides of the knowledge-of-discrete-log protocol are each proved
//! to end with exactly [`sk_protocol_trace`].  The lemmas here state the
//! consequences a caller sizes a system by: the graph's shape depends only
//! on how many secret bits there are, never on their values, and how many
//! multipliers it allocates is known exactly, which is what the generator
//! capacity must cover.

use vstd::prelude::*;

use crate::gadgets::edwards_point::{ladder_step_gates, ladder_trace, lemma_ladder_trace_gates};
use crate::gadgets::sk_knowledge::{lemma_sk_ladder_trace_gates, lemma_sk_protocol_offsets,
    sk_knowledge_trace, sk_ladder_step_gates, sk_ladder_trace, sk_protocol_trace,
    committed_bit_wires};
use crate::ristretto_point::ristretto_equal_trace;
use crate::trace::{gates, identity_point_terms, point_const_terms, PointWires, Wire};

use zerocaf::edwards::EdwardsPoint;

verus! {

broadcast use crate::trace::lemma_gates_push;

/// The scalar-multiplication ladder creates exactly 27 multipliers per bit:
/// two bit-wire sequences of equal length allocate the same number, so
/// no information about the bit values leaks through the amount of work
/// the circuit does.
pub proof fn lemma_scalar_mul_shape_is_secret_independent(
    p: PointWires,
    bits1: Seq<Wire>,
    bits2: Seq<Wire>,
    acc: PointWires,
    k: nat,
)
    requires
        bits1.len() == bits2.len(),
    ensures
        gates(ladder_trace(p, bits1, acc, k)) == gates(ladder_trace(p, bits2, acc, k)),
        gates(ladder_trace(p, bits1, acc, k)) == bits1.len() * ladder_step_gates(),
{
    lemma_ladder_trace_gates(p, bits1, acc, k);
    lemma_ladder_trace_gates(p, bits2, acc, k);
}

/// The knowledge-of-discrete-log gadget creates exactly 29 gates per bit
/// plus two for the final equality.
pub proof fn lemma_sk_knowledge_gates(basep: PointWires, pk: PointWires, bits: Seq<Wire>, k: nat)
    ensures
        gates(sk_knowledge_trace(basep, pk, bits, k)) == bits.len() * sk_ladder_step_gates() + 2,
{
    lemma_sk_ladder_trace_gates(basep, bits, identity_point_terms(), k);
    crate::trace::lemma_gates_add(
        sk_ladder_trace(basep, bits, identity_point_terms(), k),
        ristretto_equal_trace(
            pk,
            crate::gadgets::sk_knowledge::sk_ladder_out(bits, identity_point_terms(), k),
            (k + bits.len() * sk_ladder_step_gates()) as nat,
        ),
    );
}

/// Two equally long secret scalars drive the knowledge-of-discrete-log
/// gadget through the same amount of work.
pub proof fn lemma_sk_knowledge_shape_is_secret_independent(
    basep: PointWires,
    pk: PointWires,
    bits1: Seq<Wire>,
    bits2: Seq<Wire>,
    k: nat,
)
    requires
        bits1.len() == bits2.len(),
    ensures
        gates(sk_knowledge_trace(basep, pk, bits1, k)) == gates(
            sk_knowledge_trace(basep, pk, bits2, k),
        ),
{
    lemma_sk_knowledge_gates(basep, pk, bits1, k);
    lemma_sk_knowledge_gates(basep, pk, bits2, k);
}

/// The whole knowledge-of-discrete-log protocol over `n` committed bits
/// creates exactly `29·n + 82` multiplication gates: two subgroup checks
/// of forty each, and the ladder with its final equality.  The generator
/// capacity handed to the proof engine must be at least this.
pub proof fn lemma_sk_protocol_gates(basep: EdwardsPoint, pk: EdwardsPoint, n: nat)
    ensures
        gates(sk_protocol_trace(basep, pk, n)) == n * sk_ladder_step_gates() + 82,
{
    lemma_sk_protocol_offsets(basep, pk, n);
    lemma_sk_knowledge_gates(
        point_const_terms(basep),
        point_const_terms(pk),
        committed_bit_wires(n).reverse(),
        80,
    );
    crate::trace::lemma_gates_add(
        crate::trace::commit_ops(n) + crate::ristretto_point::ristretto_gadget_trace(
            point_const_terms(basep),
            0,
        ) + crate::ristretto_point::ristretto_gadget_trace(point_const_terms(pk), 40),
        sk_knowledge_trace(
            point_const_terms(basep),
            point_const_terms(pk),
            committed_bit_wires(n).reverse(),
            80,
        ),
    );
}

} // verus!
