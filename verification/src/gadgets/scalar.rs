//! The non-zero gadget: constrains a wire to hold a non-zero value by
//! exhibiting an inverse witness.

use vstd::prelude::*;

use crate::cs::{Cs, Lc, Var};
use crate::error::GadgetError;
use crate::ext::{fe_eq_zero, fe_inverse, fe_inverse_of, fe_is_zero, fq_scalar_of, scalar_of_u8,
    scalar_one};
use crate::helpers::fq_as_scalar;
use crate::trace::{commits, gates, lemma_terms_in_range_grow, minus, plus, terms_in_range,
    CsOp, LcTerms, Wire};

use curve25519_dalek_ng::scalar::Scalar;
use zerocaf::field::FieldElement;

verus! {

broadcast use crate::trace::lemma_gates_push, crate::trace::lemma_commits_push,
    crate::trace::lemma_terms_in_range_concat, crate::trace::lemma_neg_terms_in_range;

/// The operations the non-zero gadget appends, for a combination with
/// terms `var` when the system holds `k` gates: one allocated gate holding
/// the inverse witness, the product `inverse · var`, and the constraint
/// that the product minus one vanishes: `inverse · var = 1`.
pub open spec fn nonzero_trace(var: LcTerms, k: nat) -> Seq<CsOp> {
    Seq::empty().push(
        CsOp::Alloc,
    ).push(
        CsOp::Mul { left: seq![plus(Wire::MulLeft(k))], right: var },
    ).push(
        CsOp::Constrain { lc: seq![plus(Wire::MulOut(k + 1)), minus(Wire::One)] },
    )
}

/// Adds constraints asserting that `var` holds a non-zero value.
///
/// The prover supplies the value; its field inverse, paired with the
/// constant one, becomes the allocated assignment, as the allocation log
/// states exactly.  A zero witness is a recoverable failure — `WitnessInvalid` —
/// detected before the field inversion that could not accept it, and it
/// leaves the system untouched.  The verifier supplies no assignment and
/// builds the same gate shape; a prover that supplies none fails with
/// `MissingAssignment`.
pub fn nonzero_gadget<C: Cs>(
    var: &Lc,
    var_assignment: Option<&FieldElement>,
    cs: &mut C,
) -> (r: Result<(), GadgetError>)
    requires
        terms_in_range(var.terms(), gates(old(cs).trace()), commits(old(cs).trace())),
    ensures
        r is Ok ==> final(cs).trace() == old(cs).trace() + nonzero_trace(
            var.terms(),
            gates(old(cs).trace()),
        ),
        r is Ok ==> final(cs).allocs() == old(cs).allocs().push(
            match var_assignment {
                Some(f) => Some((fq_scalar_of(fe_inverse_of(*f)), scalar_of_u8(1))),
                None => None,
            },
        ),
        r is Err ==> final(cs).trace() == old(cs).trace() && final(cs).allocs() == old(
            cs,
        ).allocs(),
        final(cs).has_witness() == old(cs).has_witness(),
        match var_assignment {
            Some(f) => r == (if fe_is_zero(*f) {
                Err::<(), GadgetError>(GadgetError::WitnessInvalid)
            } else {
                Ok::<(), GadgetError>(())
            }),
            None => r == (if old(cs).has_witness() {
                Err::<(), GadgetError>(GadgetError::MissingAssignment)
            } else {
                Ok::<(), GadgetError>(())
            }),
        },
{
    let assignment: Option<(Scalar, Scalar)> = match var_assignment {
        Some(f) => {
            if fe_eq_zero(f) {
                return Err(GadgetError::WitnessInvalid);
            }
            Some((fq_as_scalar(fe_inverse(f)), scalar_one()))
        },
        None => None,
    };
    let allocated = cs.allocate_multiplier(assignment);
    let (inv_var, _right, _out) = match allocated {
        Ok(vars) => vars,
        Err(e) => {
            return Err(e);
        },
    };
    proof {
        lemma_terms_in_range_grow(
            var.terms(),
            gates(old(cs).trace()),
            commits(old(cs).trace()),
            gates(cs.trace()),
            commits(cs.trace()),
        );
    }
    let (_l, _r, should_be_one) = cs.multiply(&Lc::from_var(&inv_var), var);
    let one = Lc::from_scalar(scalar_one());
    cs.constrain(&Lc::from_var(&should_be_one).sub(&one));
    proof {
        assert(cs.trace() =~~= old(cs).trace() + nonzero_trace(
            var.terms(),
            gates(old(cs).trace()),
        ));
    }
    Ok(())
}

} // verus!
