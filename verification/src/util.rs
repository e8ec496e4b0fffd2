//! End-user helpers: committing a prime-order point on either side of the
//! protocol, with the subgroup-membership constraints attached, and
//! re-exports of the wire-level primitives.

use vstd::prelude::*;

pub use crate::gadgets::boolean::binary_constrain_gadget;
pub use crate::gadgets::scalar::nonzero_gadget;

use crate::cs::{Cs, CsProver, CsVerifier, Lc, Var};
use crate::error::GadgetError;
use crate::ext::{ed_x, ed_y, ed_z, ed_t, scalar_random};
use crate::gadgets::edwards_point::committed_point_wires;
use crate::helpers::fq_as_scalar;
use crate::ristretto_point::{passes_subgroup_check, ristretto_gadget_trace,
    SonnyRistrettoPointGadget};
use crate::trace::{commit_ops, commits, gates};

use curve25519_dalek_ng::ristretto::CompressedRistretto;
use zerocaf::edwards::EdwardsPoint;

verus! {

broadcast use crate::trace::lemma_gates_push, crate::trace::lemma_commits_push;

/// Commits the four coordinates of a prime-order point as high-level
/// variables under fresh random blinding factors, and adds the
/// subgroup-membership constraints with the point as witness.  The call
/// succeeds exactly when the point [`passes_subgroup_check`]; a point
/// whose order divides 8 is a recoverable `WitnessInvalid` failure, and
/// the four commitments then stand in the system without constraints.
pub fn prover_commit_to_sonny_point(prover: &mut CsProver, p: &EdwardsPoint) -> (r: Result<
    (SonnyRistrettoPointGadget, Vec<CompressedRistretto>),
    GadgetError,
>)
    ensures
        r is Ok <==> passes_subgroup_check(*p),
        r matches Ok(t) ==> {
            &&& final(prover).trace() == old(prover).trace() + commit_ops(4)
                + ristretto_gadget_trace(
                committed_point_wires(commits(old(prover).trace())),
                gates(old(prover).trace()),
            )
            &&& t.0.wires() == committed_point_wires(commits(old(prover).trace()))
            &&& t.1@.len() == 4
        },
        r is Err ==> final(prover).trace() == old(prover).trace() + commit_ops(4) && r == Err::<
            (SonnyRistrettoPointGadget, Vec<CompressedRistretto>),
            GadgetError,
        >(GadgetError::WitnessInvalid),
{
    let ghost t0 = prover.trace();
    let (c_x, v_x) = prover.commit(fq_as_scalar(ed_x(p)), scalar_random());
    let (c_y, v_y) = prover.commit(fq_as_scalar(ed_y(p)), scalar_random());
    let (c_z, v_z) = prover.commit(fq_as_scalar(ed_z(p)), scalar_random());
    let (c_t, v_t) = prover.commit(fq_as_scalar(ed_t(p)), scalar_random());
    let gadget = SonnyRistrettoPointGadget {
        X: Lc::from_var(&v_x),
        Y: Lc::from_var(&v_y),
        Z: Lc::from_var(&v_z),
        T: Lc::from_var(&v_t),
    };
    proof {
        reveal_with_fuel(commit_ops, 5);
        assert(prover.trace() =~~= t0 + commit_ops(4));
        crate::trace::lemma_commit_ops_counts(4);
        crate::trace::lemma_gates_add(t0, commit_ops(4));
    }
    match gadget.ristretto_gadget(prover, Some(p)) {
        Ok(()) => {
            let mut commitments: Vec<CompressedRistretto> = Vec::new();
            commitments.push(c_x);
            commitments.push(c_y);
            commitments.push(c_z);
            commitments.push(c_t);
            proof {
                assert(prover.trace() =~~= t0 + commit_ops(4) + ristretto_gadget_trace(
                    committed_point_wires(commits(t0)),
                    gates(t0),
                ));
            }
            Ok((gadget, commitments))
        },
        Err(_) => Err(GadgetError::WitnessInvalid),
    }
}

/// Receives the four coordinate commitments of a prime-order point,
/// returns the circuit point over the committed wires, and adds the
/// subgroup-membership constraints without a witness.
pub fn verifier_commit_to_sonny_point(
    verifier: &mut CsVerifier,
    commitments: &Vec<CompressedRistretto>,
) -> (r: SonnyRistrettoPointGadget)
    requires
        commitments@.len() == 4,
    ensures
        final(verifier).trace() == old(verifier).trace() + commit_ops(4)
            + ristretto_gadget_trace(
            committed_point_wires(commits(old(verifier).trace())),
            gates(old(verifier).trace()),
        ),
        r.wires() == committed_point_wires(commits(old(verifier).trace())),
{
    let ghost t0 = verifier.trace();
    let v_x = verifier.commit(commitments[0]);
    let v_y = verifier.commit(commitments[1]);
    let v_z = verifier.commit(commitments[2]);
    let v_t = verifier.commit(commitments[3]);
    let mut lcs: Vec<Lc> = Vec::new();
    lcs.push(Lc::from_var(&v_x));
    lcs.push(Lc::from_var(&v_y));
    lcs.push(Lc::from_var(&v_z));
    lcs.push(Lc::from_var(&v_t));
    proof {
        reveal_with_fuel(commit_ops, 5);
        assert(verifier.trace() =~~= t0 + commit_ops(4));
        crate::trace::lemma_commit_ops_counts(4);
        crate::trace::lemma_gates_add(t0, commit_ops(4));
    }
    match SonnyRistrettoPointGadget::from_lcs(lcs, verifier) {
        Ok(gadget) => {
            proof {
                assert(verifier.trace() =~~= t0 + commit_ops(4) + ristretto_gadget_trace(
                    committed_point_wires(commits(t0)),
                    gates(t0),
                ));
            }
            gadget
        },
        Err(_) => vstd::pervasive::unreached(),
    }
}

} // verus!
