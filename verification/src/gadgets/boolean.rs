//! The boolean gadget: constrains a wire to take the value 0 or 1.

use vstd::prelude::*;

use crate::cs::{Cs, Lc, Var};
use crate::ext::scalar_one;
use crate::trace::{commits, gates, minus, plus, wire_in_range, CsOp, Wire};

verus! {

broadcast use crate::trace::lemma_gates_push, crate::trace::lemma_commits_push,
    crate::trace::lemma_terms_in_range_concat, crate::trace::lemma_neg_terms_in_range;

/// The operations the boolean gadget appends, for a bit wire `bit` when
/// the system holds `k` gates: the re-tying constraint
/// `(1 - bit) - 1 + bit = 0`, the product gate `(1 - bit) · bit`, and the
/// constraint that the product's output wire vanishes — the classical
/// `bit·(1−bit) = 0` with every coefficient written out.
pub open spec fn binary_constrain_trace(bit: Wire, k: nat) -> Seq<CsOp> {
    Seq::empty().push(
        CsOp::Constrain {
            lc: seq![plus(Wire::One), minus(bit), minus(Wire::One), plus(bit)],
        },
    ).push(
        CsOp::Mul { left: seq![plus(Wire::One), minus(bit)], right: seq![plus(bit)] },
    ).push(
        CsOp::Constrain { lc: seq![plus(Wire::MulOut(k))] },
    )
}

/// Adds the classical boolean constraint `(1 - bit) * bit = 0` to the
/// system.  A satisfying assignment exists exactly when the wire's
/// committed value is 0 or 1; any other value makes the finished proof
/// fail verification.
pub fn binary_constrain_gadget<C: Cs>(cs: &mut C, bit: &Var)
    requires
        wire_in_range(bit.wire(), gates(old(cs).trace()), commits(old(cs).trace())),
    ensures
        final(cs).trace() == old(cs).trace() + binary_constrain_trace(
            bit.wire(),
            gates(old(cs).trace()),
        ),
        final(cs).allocs() == old(cs).allocs(),
        final(cs).has_witness() == old(cs).has_witness(),
{
    let one = Lc::from_scalar(scalar_one());
    let bit_lc = Lc::from_var(bit);
    let one_min_bit = one.sub(&bit_lc);
    cs.constrain(&one_min_bit.sub(&one).add(&bit_lc));
    let (_left, _right, res) = cs.multiply(&one_min_bit, &bit_lc);
    cs.constrain(&Lc::from_var(&res));
    proof {
        assert(cs.trace() =~~= old(cs).trace() + binary_constrain_trace(
            bit.wire(),
            gates(old(cs).trace()),
        ));
    }
}

} // verus!
