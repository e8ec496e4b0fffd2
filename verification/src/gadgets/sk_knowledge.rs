//! The knowledge-of-discrete-log gadget: a double-and-add ladder over the
//! prime-order point gadget, composed with a final equality check against
//! the public key.

use vstd::prelude::*;

use crate::cs::{Cs, CsProver, CsVerifier, Lc, Var};
use crate::error::GadgetError;
use crate::ext::{scalar_random, scalar_one, scalar_zero, transcript_sk_knowledge};
use crate::gadgets::boolean::{binary_constrain_gadget, binary_constrain_trace};
use crate::gadgets::edwards_point::{add_out_wires, cond_select_trace, select_out_wires};
use crate::gadgets::edwards_point::{lemma_add_out_in_range, lemma_select_out_in_range};
use crate::ristretto_point::{passes_subgroup_check, ristretto_add_trace, ristretto_equal_trace,
    SonnyRistrettoPointGadget};
use crate::trace::{commits, gates, identity_point_terms, lemma_point_in_range_grow, plus,
    point_const_terms, point_in_range, terms_in_range, CsOp, LcTerms, PointWires, Wire};

use bulletproofs::BulletproofGens;
use bulletproofs::PedersenGens;
use bulletproofs::r1cs::R1CSProof;
use curve25519_dalek_ng::ristretto::CompressedRistretto;
use curve25519_dalek_ng::scalar::Scalar;
use zerocaf::edwards::EdwardsPoint;

verus! {

broadcast use crate::trace::lemma_gates_push, crate::trace::lemma_commits_push,
    crate::trace::lemma_terms_in_range_concat, crate::trace::lemma_neg_terms_in_range;

/// One round of the ladder over the prime-order point gadget:
/// boolean-constrain the bit, double the accumulator (an addition of the
/// point to itself), select the base point or the identity by the bit, and
/// add the selection to the accumulator.
pub open spec fn sk_ladder_step_trace(p: PointWires, b: Wire, acc: PointWires, k: nat) -> Seq<
    CsOp,
> {
    binary_constrain_trace(b, k) + ristretto_add_trace(acc, acc, k + 1) + cond_select_trace(
        p,
        seq![plus(b)],
        k + 13,
    ) + ristretto_add_trace(add_out_wires(k + 1), select_out_wires(k + 13), k + 17)
}

/// Gates one ladder round creates.
pub open spec fn sk_ladder_step_gates() -> nat {
    29
}

/// The accumulator wires after one ladder round that started at `k` gates.
pub open spec fn sk_ladder_step_out(k: nat) -> PointWires {
    add_out_wires(k + 17)
}

/// One ladder round creates exactly [`sk_ladder_step_gates`] gates.
pub proof fn lemma_sk_ladder_step_gates(p: PointWires, b: Wire, acc: PointWires, k: nat)
    ensures
        gates(sk_ladder_step_trace(p, b, acc, k)) == sk_ladder_step_gates(),
{
    crate::trace::lemma_gates_add(
        binary_constrain_trace(b, k),
        ristretto_add_trace(acc, acc, k + 1),
    );
    crate::trace::lemma_gates_add(
        binary_constrain_trace(b, k) + ristretto_add_trace(acc, acc, k + 1),
        cond_select_trace(p, seq![plus(b)], k + 13),
    );
    crate::trace::lemma_gates_add(
        binary_constrain_trace(b, k) + ristretto_add_trace(acc, acc, k + 1) + cond_select_trace(
            p,
            seq![plus(b)],
            k + 13,
        ),
        ristretto_add_trace(add_out_wires(k + 1), select_out_wires(k + 13), k + 17),
    );
}

/// The operations of the whole ladder over the bit wires `bits`, processed
/// front first, with accumulator wires `acc` and `k` gates in the system.
pub open spec fn sk_ladder_trace(p: PointWires, bits: Seq<Wire>, acc: PointWires, k: nat) -> Seq<
    CsOp,
>
    decreases bits.len(),
{
    if bits.len() == 0 {
        Seq::empty()
    } else {
        sk_ladder_step_trace(p, bits[0], acc, k) + sk_ladder_trace(
            p,
            bits.skip(1),
            sk_ladder_step_out(k),
            k + sk_ladder_step_gates(),
        )
    }
}

/// The accumulator wires after the whole ladder.
pub open spec fn sk_ladder_out(bits: Seq<Wire>, acc: PointWires, k: nat) -> PointWires
    decreases bits.len(),
{
    if bits.len() == 0 {
        acc
    } else {
        sk_ladder_out(bits.skip(1), sk_ladder_step_out(k), k + sk_ladder_step_gates())
    }
}

/// The whole ladder creates exactly 29 gates per bit.
pub proof fn lemma_sk_ladder_trace_gates(p: PointWires, bits: Seq<Wire>, acc: PointWires, k: nat)
    ensures
        gates(sk_ladder_trace(p, bits, acc, k)) == bits.len() * sk_ladder_step_gates(),
    decreases bits.len(),
{
    if bits.len() == 0 {
    } else {
        lemma_sk_ladder_step_gates(p, bits[0], acc, k);
        lemma_sk_ladder_trace_gates(
            p,
            bits.skip(1),
            sk_ladder_step_out(k),
            k + sk_ladder_step_gates(),
        );
        crate::trace::lemma_gates_add(
            sk_ladder_step_trace(p, bits[0], acc, k),
            sk_ladder_trace(p, bits.skip(1), sk_ladder_step_out(k), k + sk_ladder_step_gates()),
        );
        assert(bits.len() * sk_ladder_step_gates() == sk_ladder_step_gates() + bits.skip(1).len()
            * sk_ladder_step_gates()) by (nonlinear_arith)
            requires bits.len() >= 1 && bits.skip(1).len() == bits.len() - 1 {};
    }
}

/// The operations of the whole knowledge-of-discrete-log gadget: the
/// ladder computing `sk · base`, then the equality of the result against
/// the public key.
pub open spec fn sk_knowledge_trace(
    basep: PointWires,
    pk: PointWires,
    bits: Seq<Wire>,
    k: nat,
) -> Seq<CsOp> {
    sk_ladder_trace(basep, bits, identity_point_terms(), k) + ristretto_equal_trace(
        pk,
        sk_ladder_out(bits, identity_point_terms(), k),
        (k + bits.len() * sk_ladder_step_gates()) as nat,
    )
}

/// Builds the circuit that proves knowledge of a scalar `sk` with
/// `pk = sk · basep`, for the scalar the bit wires `sk` encode,
/// least-significant bit first; the ladder consumes the bits
/// most-significant first.  Every bit runs the same
/// boolean-constrain, double, select and add round, so the constraint
/// graph's shape depends only on the number of bits, never on their
/// values.
#[verifier::rlimit(60)]
pub fn sk_knowledge_gadget<C: Cs>(
    cs: &mut C,
    basep: &SonnyRistrettoPointGadget,
    pk: &SonnyRistrettoPointGadget,
    sk: &Vec<Var>,
)
    requires
        point_in_range(basep.wires(), gates(old(cs).trace()), commits(old(cs).trace())),
        point_in_range(pk.wires(), gates(old(cs).trace()), commits(old(cs).trace())),
        forall|m: int|
            0 <= m < sk@.len() ==> crate::trace::wire_in_range(
                (#[trigger] sk@[m]).wire(),
                gates(old(cs).trace()),
                commits(old(cs).trace()),
            ),
    ensures
        final(cs).trace() == old(cs).trace() + sk_knowledge_trace(
            basep.wires(),
            pk.wires(),
            sk@.map_values(|v: Var| v.wire()).reverse(),
            gates(old(cs).trace()),
        ),
        final(cs).allocs() == old(cs).allocs(),
        final(cs).has_witness() == old(cs).has_witness(),
{
    let ghost bits = sk@.map_values(|v: Var| v.wire()).reverse();
    let ghost pw = basep.wires();
    let ghost k0 = gates(cs.trace());
    let mut q = SonnyRistrettoPointGadget {
        X: Lc::from_scalar(scalar_zero()),
        Y: Lc::from_scalar(scalar_one()),
        Z: Lc::from_scalar(scalar_one()),
        T: Lc::from_scalar(scalar_zero()),
    };
    let n = sk.len();
    let mut i: usize = n;
    proof {
        assert(bits.skip(0) =~~= bits);
        assert(cs.trace() + sk_ladder_trace(pw, bits.skip(0), q.wires(), gates(cs.trace()))
            =~~= old(cs).trace() + sk_ladder_trace(pw, bits, identity_point_terms(), k0));
        crate::trace::lemma_identity_point_in_range(gates(cs.trace()), commits(cs.trace()));
        assert forall|m: int| 0 <= m < bits.len() implies crate::trace::wire_in_range(
            #[trigger] bits[m],
            gates(cs.trace()),
            commits(cs.trace()),
        ) by {
            assert(bits[m] == sk@.map_values(|v: Var| v.wire())[n - 1 - m]);
        }
    }
    while i > 0
        invariant
            i <= n,
            n == sk@.len(),
            bits == sk@.map_values(|v: Var| v.wire()).reverse(),
            bits.len() == n,
            pw == basep.wires(),
            cs.has_witness() == old(cs).has_witness(),
            cs.allocs() == old(cs).allocs(),
            cs.trace() + sk_ladder_trace(pw, bits.skip(n - i), q.wires(), gates(cs.trace()))
                == old(cs).trace() + sk_ladder_trace(pw, bits, identity_point_terms(), k0),
            sk_ladder_out(bits.skip(n - i), q.wires(), gates(cs.trace())) == sk_ladder_out(
                bits,
                identity_point_terms(),
                k0,
            ),
            k0 == gates(old(cs).trace()),
            point_in_range(pw, gates(cs.trace()), commits(cs.trace())),
            forall|m: int|
                0 <= m < bits.len() ==> crate::trace::wire_in_range(
                    #[trigger] bits[m],
                    gates(cs.trace()),
                    commits(cs.trace()),
                ),
            point_in_range(q.wires(), gates(cs.trace()), commits(cs.trace())),
        decreases i,
    {
        let ghost j = (n - i) as int;
        let ghost k_here = gates(cs.trace());
        let ghost c_here = commits(cs.trace());
        let ghost trace_here = cs.trace();
        let ghost q_here = q.wires();
        i = i - 1;
        let bit = &sk[i];
        proof {
            assert(bits[j] == sk@.map_values(|v: Var| v.wire())[n - 1 - j]);
            assert(bits[j] == bit.wire());
            assert(bits.skip(j)[0] == bits[j]);
        }
        binary_constrain_gadget(cs, bit);
        proof {
            crate::trace::lemma_gates_add(trace_here, binary_constrain_trace(bit.wire(), k_here));
            crate::trace::lemma_commits_add(
                trace_here,
                binary_constrain_trace(bit.wire(), k_here),
            );
            lemma_point_in_range_grow(q_here, k_here, c_here, gates(cs.trace()), commits(
                cs.trace(),
            ));
        }
        let ghost trace_b = cs.trace();
        q = q.double(cs);
        proof {
            crate::trace::lemma_gates_add(trace_b, ristretto_add_trace(q_here, q_here, k_here
                + 1));
            crate::trace::lemma_commits_add(trace_b, ristretto_add_trace(q_here, q_here, k_here
                + 1));
            crate::ristretto_point::lemma_ristretto_add_trace_gates(q_here, q_here, (k_here
                + 1) as nat);
            lemma_point_in_range_grow(pw, k_here, c_here, gates(cs.trace()), commits(cs.trace()));
            assert(terms_in_range(
                seq![plus(bit.wire())],
                gates(cs.trace()),
                commits(cs.trace()),
            ));
        }
        let ghost trace_d = cs.trace();
        let bit_lc = Lc::from_var(bit);
        let point_or_id = basep.conditionally_select(&bit_lc, cs);
        proof {
            crate::trace::lemma_gates_add(
                trace_d,
                cond_select_trace(pw, seq![plus(bit.wire())], k_here + 13),
            );
            crate::trace::lemma_commits_add(
                trace_d,
                cond_select_trace(pw, seq![plus(bit.wire())], k_here + 13),
            );
            crate::gadgets::edwards_point::lemma_select_trace_gates(
                pw,
                seq![plus(bit.wire())],
                (k_here + 13) as nat,
            );
            lemma_add_out_in_range((k_here + 1) as nat, gates(cs.trace()), commits(cs.trace()));
            lemma_select_out_in_range((k_here + 13) as nat, gates(cs.trace()), commits(
                cs.trace(),
            ));
        }
        q = q.add(cs, &point_or_id);
        proof {
            assert(cs.trace() =~~= trace_here + sk_ladder_step_trace(pw, bits[j], q_here, k_here));
            crate::trace::lemma_gates_add(
                trace_here,
                sk_ladder_step_trace(pw, bits[j], q_here, k_here),
            );
            crate::trace::lemma_commits_add(
                trace_here,
                sk_ladder_step_trace(pw, bits[j], q_here, k_here),
            );
            lemma_sk_ladder_step_gates(pw, bits[j], q_here, k_here);
            assert(gates(cs.trace()) == k_here + sk_ladder_step_gates());
            assert(bits.skip(j).skip(1) =~~= bits.skip(j + 1));
            assert(sk_ladder_trace(pw, bits.skip(j), q_here, k_here) == sk_ladder_step_trace(
                pw,
                bits[j],
                q_here,
                k_here,
            ) + sk_ladder_trace(pw, bits.skip(j + 1), sk_ladder_step_out(k_here), k_here
                + sk_ladder_step_gates()));
            assert(q.wires() == sk_ladder_step_out(k_here));
            assert(trace_here + (sk_ladder_step_trace(pw, bits[j], q_here, k_here)
                + sk_ladder_trace(pw, bits.skip(j + 1), q.wires(), gates(cs.trace()))) =~~= (
            trace_here + sk_ladder_step_trace(pw, bits[j], q_here, k_here)) + sk_ladder_trace(
                pw,
                bits.skip(j + 1),
                q.wires(),
                gates(cs.trace()),
            ));
            assert(sk_ladder_out(bits.skip(j), q_here, k_here) == sk_ladder_out(
                bits.skip(j + 1),
                q.wires(),
                gates(cs.trace()),
            ));
            lemma_point_in_range_grow(pw, k_here, c_here, gates(cs.trace()), commits(cs.trace()));
            assert forall|m: int| 0 <= m < bits.len() implies crate::trace::wire_in_range(
                #[trigger] bits[m],
                gates(cs.trace()),
                commits(cs.trace()),
            ) by {
                assert(crate::trace::wire_in_range(bits[m], k_here, c_here));
            }
            lemma_add_out_in_range((k_here + 17) as nat, gates(cs.trace()), commits(cs.trace()));
        }
    }
    proof {
        assert(bits.skip(n - i).len() == 0);
        assert(sk_ladder_trace(pw, bits.skip(n - i), q.wires(), gates(cs.trace()))
            == Seq::<CsOp>::empty());
        assert(sk_ladder_out(bits.skip(n - i), q.wires(), gates(cs.trace())) == q.wires());
        assert(cs.trace() + Seq::<CsOp>::empty() =~~= cs.trace());
        lemma_sk_ladder_trace_gates(pw, bits, identity_point_terms(), k0);
        crate::trace::lemma_gates_add(
            old(cs).trace(),
            sk_ladder_trace(pw, bits, identity_point_terms(), k0),
        );
        crate::trace::lemma_commits_add(
            old(cs).trace(),
            sk_ladder_trace(pw, bits, identity_point_terms(), k0),
        );
        lemma_point_in_range_grow(
            pk.wires(),
            k0,
            commits(old(cs).trace()),
            gates(cs.trace()),
            commits(cs.trace()),
        );
    }
    pk.equals(cs, &q);
    proof {
        assert(cs.trace() =~~= old(cs).trace() + sk_knowledge_trace(
            basep.wires(),
            pk.wires(),
            bits,
            k0,
        ));
    }
}

/// The wires of `n` committed bits, in commitment order.
pub open spec fn committed_bit_wires(n: nat) -> Seq<Wire> {
    Seq::new(n, |i: int| Wire::Committed(i as nat))
}

/// The operation sequence of the whole knowledge-of-discrete-log protocol
/// over `n` committed bits, starting from an empty system: the bit
/// commitments, the subgroup checks of the base point and of the public
/// key, and the ladder with its final equality.  It is one function of
/// the bit count and the two public points alone: the prover and the
/// verifier, which both establish it (each side's driver proves its
/// finished system carries exactly this trace), therefore build identical
/// constraint graphs, and nothing about the secret bits leaks through the
/// graph's shape.
pub open spec fn sk_protocol_trace(basep: EdwardsPoint, pk: EdwardsPoint, n: nat) -> Seq<CsOp> {
    crate::trace::commit_ops(n) + crate::ristretto_point::ristretto_gadget_trace(
        point_const_terms(basep),
        0,
    ) + crate::ristretto_point::ristretto_gadget_trace(point_const_terms(pk), 40)
        + sk_knowledge_trace(
        point_const_terms(basep),
        point_const_terms(pk),
        committed_bit_wires(n).reverse(),
        80,
    )
}

/// Builds a proof of knowledge of the scalar whose bits are
/// `sk_bits` (as circuit-field scalars, least-significant bit first) with
/// `pk = sk · basep`.  Returns the proof together with the commitments to
/// the bits.  A base or public key outside the prime-order subgroup is a
/// `WitnessInvalid` failure, exactly when one of them fails
/// [`passes_subgroup_check`]; the remaining failures are the engine's.
pub fn sk_knowledge_proof(
    pc_gens: &PedersenGens,
    bp_gens: &BulletproofGens,
    basep: &EdwardsPoint,
    pk: &EdwardsPoint,
    sk_bits: &Vec<Scalar>,
) -> (r: Result<(R1CSProof, Vec<CompressedRistretto>), GadgetError>)
    ensures
        r matches Ok(t) ==> t.1@.len() == sk_bits@.len(),
        r is Err ==> r->Err_0 == GadgetError::WitnessInvalid || r->Err_0
            == GadgetError::Proving || r->Err_0 == GadgetError::CapacityExceeded,
        r == Err::<(R1CSProof, Vec<CompressedRistretto>), GadgetError>(
            GadgetError::WitnessInvalid,
        ) <==> !(passes_subgroup_check(*basep) && passes_subgroup_check(*pk)),
{
    let transcript = transcript_sk_knowledge();
    let mut prover = CsProver::new(pc_gens, transcript);
    let mut commitments: Vec<CompressedRistretto> = Vec::new();
    let mut bit_vars: Vec<Var> = Vec::new();
    let n = sk_bits.len();
    let mut i: usize = 0;
    while i < n
        invariant
            i <= n,
            n == sk_bits@.len(),
            commitments@.len() == i,
            bit_vars@.len() == i,
            prover.has_witness(),
            prover.trace() == crate::trace::commit_ops(i as nat),
            crate::trace::commits(prover.trace()) == i,
            forall|m: int|
                0 <= m < i ==> (#[trigger] bit_vars@[m]).wire() == Wire::Committed(m as nat),
        decreases n - i,
    {
        let (com, var) = prover.commit(sk_bits[i], scalar_random());
        commitments.push(com);
        bit_vars.push(var);
        i = i + 1;
        proof {
            crate::trace::lemma_commits_push(
                crate::trace::commit_ops((i - 1) as nat),
                CsOp::Commit,
            );
        }
    }
    let basep_gadget = match SonnyRistrettoPointGadget::from_point(basep, &mut prover) {
        Ok(g) => g,
        Err(e) => {
            return Err(e);
        },
    };
    let pk_gadget = match SonnyRistrettoPointGadget::from_point(pk, &mut prover) {
        Ok(g) => g,
        Err(e) => {
            return Err(e);
        },
    };
    proof {
        lemma_sk_protocol_offsets(*basep, *pk, n as nat);
        crate::trace::lemma_identity_point_in_range(
            gates(prover.trace()),
            commits(prover.trace()),
        );
        let ws = bit_vars@.map_values(|v: Var| v.wire());
        assert forall|m: int| 0 <= m < ws.len() implies crate::trace::wire_in_range(
            #[trigger] ws[m],
            gates(prover.trace()),
            commits(prover.trace()),
        ) by {
            assert(ws[m] == bit_vars@[m].wire());
        }
    }
    sk_knowledge_gadget(&mut prover, &basep_gadget, &pk_gadget, &bit_vars);
    proof {
        // The finished prover-side system carries exactly the protocol
        // trace: the same sequence the verifier-side driver establishes.
        assert(bit_vars@.map_values(|v: Var| v.wire()) =~~= committed_bit_wires(n as nat));
        assert(prover.trace() =~~= sk_protocol_trace(*basep, *pk, n as nat));
    }
    match prover.prove(bp_gens) {
        Ok(proof) => Ok((proof, commitments)),
        Err(e) => Err(e),
    }
}

/// The multiplier counts at which the three stages of the protocol
/// circuit begin: the commitments create none, and each subgroup check
/// creates forty.
pub proof fn lemma_sk_protocol_offsets(basep: EdwardsPoint, pk: EdwardsPoint, n: nat)
    ensures
        gates(crate::trace::commit_ops(n)) == 0,
        gates(
            crate::trace::commit_ops(n) + crate::ristretto_point::ristretto_gadget_trace(
                point_const_terms(basep),
                0,
            ),
        ) == 40,
        gates(
            crate::trace::commit_ops(n) + crate::ristretto_point::ristretto_gadget_trace(
                point_const_terms(basep),
                0,
            ) + crate::ristretto_point::ristretto_gadget_trace(point_const_terms(pk), 40),
        ) == 80,
        crate::trace::commits(crate::trace::commit_ops(n)) == n,
        commits(
            crate::trace::commit_ops(n) + crate::ristretto_point::ristretto_gadget_trace(
                point_const_terms(basep),
                0,
            ),
        ) == n,
        commits(
            crate::trace::commit_ops(n) + crate::ristretto_point::ristretto_gadget_trace(
                point_const_terms(basep),
                0,
            ) + crate::ristretto_point::ristretto_gadget_trace(point_const_terms(pk), 40),
        ) == n,
{
    crate::trace::lemma_commit_ops_counts(n);
    crate::ristretto_point::lemma_ristretto_gadget_trace_gates(point_const_terms(basep), 0);
    crate::ristretto_point::lemma_ristretto_gadget_trace_gates(point_const_terms(pk), 40);
    crate::ristretto_point::lemma_ristretto_gadget_trace_commits(point_const_terms(basep), 0);
    crate::ristretto_point::lemma_ristretto_gadget_trace_commits(point_const_terms(pk), 40);
    crate::trace::lemma_gates_add(
        crate::trace::commit_ops(n),
        crate::ristretto_point::ristretto_gadget_trace(point_const_terms(basep), 0),
    );
    crate::trace::lemma_gates_add(
        crate::trace::commit_ops(n) + crate::ristretto_point::ristretto_gadget_trace(
            point_const_terms(basep),
            0,
        ),
        crate::ristretto_point::ristretto_gadget_trace(point_const_terms(pk), 40),
    );
    crate::trace::lemma_commits_add(
        crate::trace::commit_ops(n),
        crate::ristretto_point::ristretto_gadget_trace(point_const_terms(basep), 0),
    );
    crate::trace::lemma_commits_add(
        crate::trace::commit_ops(n) + crate::ristretto_point::ristretto_gadget_trace(
            point_const_terms(basep),
            0,
        ),
        crate::ristretto_point::ristretto_gadget_trace(point_const_terms(pk), 40),
    );
}

/// Verifies a proof of knowledge of the discrete logarithm of `pk` to the
/// base `basep`, rebuilding the identical circuit from the received bit
/// commitments.  A base or public key outside the prime-order subgroup is
/// a `WitnessInvalid` failure, exactly when one of them fails
/// [`passes_subgroup_check`]; the remaining failures are the engine's.
pub fn sk_knowledge_verify(
    pc_gens: &PedersenGens,
    bp_gens: &BulletproofGens,
    basep: &EdwardsPoint,
    pk: &EdwardsPoint,
    sk_bits_comms: &Vec<CompressedRistretto>,
    proof: &R1CSProof,
) -> (r: Result<(), GadgetError>)
    ensures
        r is Err ==> r->Err_0 == GadgetError::WitnessInvalid || r->Err_0
            == GadgetError::Verification || r->Err_0 == GadgetError::CapacityExceeded,
        r == Err::<(), GadgetError>(GadgetError::WitnessInvalid) <==> !(passes_subgroup_check(
            *basep,
        ) && passes_subgroup_check(*pk)),
{
    let transcript = transcript_sk_knowledge();
    let mut verifier = CsVerifier::new(transcript);
    let mut bit_vars: Vec<Var> = Vec::new();
    let n = sk_bits_comms.len();
    let mut i: usize = 0;
    while i < n
        invariant
            i <= n,
            n == sk_bits_comms@.len(),
            bit_vars@.len() == i,
            !verifier.has_witness(),
            verifier.trace() == crate::trace::commit_ops(i as nat),
            crate::trace::commits(verifier.trace()) == i,
            forall|m: int|
                0 <= m < i ==> (#[trigger] bit_vars@[m]).wire() == Wire::Committed(m as nat),
        decreases n - i,
    {
        let var = verifier.commit(sk_bits_comms[i]);
        bit_vars.push(var);
        i = i + 1;
        proof {
            crate::trace::lemma_commits_push(
                crate::trace::commit_ops((i - 1) as nat),
                CsOp::Commit,
            );
        }
    }
    let basep_gadget = match SonnyRistrettoPointGadget::from_point(basep, &mut verifier) {
        Ok(g) => g,
        Err(e) => {
            return Err(e);
        },
    };
    let pk_gadget = match SonnyRistrettoPointGadget::from_point(pk, &mut verifier) {
        Ok(g) => g,
        Err(e) => {
            return Err(e);
        },
    };
    proof {
        lemma_sk_protocol_offsets(*basep, *pk, n as nat);
        crate::trace::lemma_identity_point_in_range(
            gates(verifier.trace()),
            commits(verifier.trace()),
        );
        let ws = bit_vars@.map_values(|v: Var| v.wire());
        assert forall|m: int| 0 <= m < ws.len() implies crate::trace::wire_in_range(
            #[trigger] ws[m],
            gates(verifier.trace()),
            commits(verifier.trace()),
        ) by {
            assert(ws[m] == bit_vars@[m].wire());
        }
    }
    sk_knowledge_gadget(&mut verifier, &basep_gadget, &pk_gadget, &bit_vars);
    proof {
        // The finished verifier-side system carries exactly the protocol
        // trace: the same sequence the prover-side driver establishes.
        assert(bit_vars@.map_values(|v: Var| v.wire()) =~~= committed_bit_wires(n as nat));
        assert(verifier.trace() =~~= sk_protocol_trace(*basep, *pk, n as nat));
    }
    verifier.verify(proof, pc_gens, bp_gens)
}

} // verus!
