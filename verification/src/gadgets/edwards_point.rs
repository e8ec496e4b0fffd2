//! The circuit form of a point of the Doppio curve in extended twisted
//! Edwards coordinates, with the group law, equality, conditional selection
//! and the double-and-add scalar-multiplication ladder over it.

use vstd::prelude::*;

use crate::cs::{Cs, CsProver, CsVerifier, Lc, Var};
use crate::ext::{a_coeff, d_coeff, ed_x, ed_y, ed_z, ed_t, edwards_a_scalar, edwards_d_scalar,
    scalar_from_u8, scalar_of_u8, scalar_random, scalar_zero, scalar_one};
use crate::gadgets::boolean::{binary_constrain_gadget, binary_constrain_trace};
use crate::helpers::fq_as_scalar;
use crate::trace::{commit_ops, commits, gates, identity_point_terms, lemma_point_in_range_grow,
    lemma_terms_in_range_grow, minus, plus, point_const_terms, point_in_range, terms_in_range,
    CsOp, LcTerms, PointWires, Wire};

use curve25519_dalek_ng::ristretto::CompressedRistretto;
use zerocaf::edwards::EdwardsPoint;

verus! {

broadcast use crate::trace::lemma_gates_push, crate::trace::lemma_commits_push,
    crate::trace::lemma_terms_in_range_concat, crate::trace::lemma_neg_terms_in_range;

/// A point of the Doppio curve as the circuit sees it: each extended
/// coordinate is a linear combination over circuit wires.  Gadget calls
/// never mutate a point; every combinator returns a new one.
#[allow(non_snake_case)]
pub struct SonnyEdwardsPointGadget {
    pub X: Lc,
    pub Y: Lc,
    pub Z: Lc,
    pub T: Lc,
}

/// The coordinate wires of a point committed as four high-level variables,
/// starting at commitment index `c`.
pub open spec fn committed_point_wires(c: nat) -> PointWires {
    PointWires {
        x: seq![plus(Wire::Committed(c))],
        y: seq![plus(Wire::Committed(c + 1))],
        z: seq![plus(Wire::Committed(c + 2))],
        t: seq![plus(Wire::Committed(c + 3))],
    }
}

/// The operations the extended-coordinates addition gadget appends, for
/// operand coordinate wires `p1`, `p2` when the system holds `k` gates.
/// The curve parameters enter as constants, and each linear combination
/// reused as a gate input is first re-tied to gate wires by an explicit
/// constraint, as the unified addition law
/// `A = x1·x2, B = y1·y2, C = d·(t1·t2), D = z1·z2,
/// E = (x1+y1)·(x2+y2) + a·A + a·B, F = D−C, G = D+C, H = B+A` requires.
pub open spec fn edwards_add_trace(p1: PointWires, p2: PointWires, k: nat) -> Seq<CsOp> {
    Seq::empty().push(
        CsOp::Mul { left: p1.x, right: p2.x },
    ).push(
        CsOp::Mul { left: p1.y, right: p2.y },
    ).push(
        CsOp::Mul { left: p1.t, right: p2.t },
    ).push(
        CsOp::Mul { left: seq![plus(Wire::MulOut(k + 2))], right: seq![(Wire::One, d_coeff())] },
    ).push(
        CsOp::Mul { left: p1.z, right: p2.z },
    ).push(
        CsOp::Constrain {
            lc: p1.x + seq![
                plus(Wire::MulLeft(k + 1)), minus(Wire::MulLeft(k)), minus(Wire::MulLeft(k + 1)),
            ],
        },
    ).push(
        CsOp::Constrain {
            lc: p2.x + p2.y + seq![minus(Wire::MulRight(k)), minus(Wire::MulRight(k + 1))],
        },
    ).push(
        CsOp::Mul { left: p1.x + seq![plus(Wire::MulLeft(k + 1))], right: p2.x + p2.y },
    ).push(
        CsOp::Mul { left: seq![(Wire::One, a_coeff())], right: seq![plus(Wire::MulOut(k))] },
    ).push(
        CsOp::Mul { left: seq![(Wire::One, a_coeff())], right: seq![plus(Wire::MulOut(k + 1))] },
    ).push(
        CsOp::Constrain {
            lc: seq![
                plus(Wire::MulOut(k + 6)), plus(Wire::MulOut(k + 7)), plus(Wire::MulOut(k + 5)),
                minus(Wire::MulOut(k + 6)), minus(Wire::MulOut(k + 7)), minus(Wire::MulOut(k + 5)),
            ],
        },
    ).push(
        CsOp::Constrain {
            lc: seq![
                plus(Wire::MulOut(k + 4)), minus(Wire::MulOut(k + 3)),
                minus(Wire::MulOut(k + 4)), plus(Wire::MulOut(k + 3)),
            ],
        },
    ).push(
        CsOp::Constrain {
            lc: seq![
                plus(Wire::MulOut(k + 4)), plus(Wire::MulOut(k + 3)),
                minus(Wire::MulOut(k + 4)), minus(Wire::MulOut(k + 3)),
            ],
        },
    ).push(
        CsOp::Constrain {
            lc: seq![
                plus(Wire::MulOut(k + 1)), plus(Wire::MulOut(k)),
                minus(Wire::MulOut(k + 1)), minus(Wire::MulOut(k)),
            ],
        },
    ).push(
        CsOp::Mul {
            left: seq![
                plus(Wire::MulOut(k + 6)), plus(Wire::MulOut(k + 7)), plus(Wire::MulOut(k + 5)),
            ],
            right: seq![plus(Wire::MulOut(k + 4)), minus(Wire::MulOut(k + 3))],
        },
    ).push(
        CsOp::Mul {
            left: seq![plus(Wire::MulOut(k + 4)), plus(Wire::MulOut(k + 3))],
            right: seq![plus(Wire::MulOut(k + 1)), plus(Wire::MulOut(k))],
        },
    ).push(
        CsOp::Mul { left: seq![plus(Wire::MulRight(k + 8))], right: seq![plus(Wire::MulLeft(k + 9))] },
    ).push(
        CsOp::Mul { left: seq![plus(Wire::MulLeft(k + 8))], right: seq![plus(Wire::MulRight(k + 9))] },
    )
}

/// The coordinate wires of the point an addition gadget returns, when it
/// started with `k` gates in the system.
pub open spec fn add_out_wires(k: nat) -> PointWires {
    PointWires {
        x: seq![plus(Wire::MulOut(k + 8))],
        y: seq![plus(Wire::MulOut(k + 9))],
        z: seq![plus(Wire::MulOut(k + 10))],
        t: seq![plus(Wire::MulOut(k + 11))],
    }
}

/// The operations the doubling gadget appends, for coordinate wires `p`
/// when the system holds `k` gates, following the doubling law
/// `A = x², B = y², C = 2z², D = a·A, E = (x+y)² − A − B, G = D+B,
/// F = G−C, H = D−B`.
pub open spec fn edwards_double_trace(p: PointWires, k: nat) -> Seq<CsOp> {
    Seq::empty().push(
        CsOp::Mul { left: p.x, right: p.x },
    ).push(
        CsOp::Mul { left: p.y, right: p.y },
    ).push(
        CsOp::Mul { left: p.z, right: p.z },
    ).push(
        CsOp::Mul {
            left: seq![(Wire::One, scalar_of_u8(2))],
            right: seq![plus(Wire::MulOut(k + 2))],
        },
    ).push(
        CsOp::Mul { left: seq![(Wire::One, a_coeff())], right: seq![plus(Wire::MulOut(k))] },
    ).push(
        CsOp::Mul {
            left: seq![plus(Wire::MulLeft(k)), plus(Wire::MulLeft(k + 1))],
            right: seq![plus(Wire::MulLeft(k)), plus(Wire::MulLeft(k + 1))],
        },
    ).push(
        CsOp::Constrain {
            lc: seq![
                plus(Wire::MulOut(k + 5)), minus(Wire::MulOut(k)), minus(Wire::MulOut(k + 1)),
                minus(Wire::MulOut(k + 5)), plus(Wire::MulOut(k)), plus(Wire::MulOut(k + 1)),
            ],
        },
    ).push(
        CsOp::Constrain {
            lc: seq![
                plus(Wire::MulOut(k + 4)), plus(Wire::MulOut(k + 1)),
                minus(Wire::MulOut(k + 4)), minus(Wire::MulOut(k + 1)),
            ],
        },
    ).push(
        CsOp::Constrain {
            lc: seq![
                plus(Wire::MulOut(k + 4)), plus(Wire::MulOut(k + 1)), minus(Wire::MulOut(k + 3)),
                minus(Wire::MulOut(k + 4)), minus(Wire::MulOut(k + 1)), plus(Wire::MulOut(k + 3)),
            ],
        },
    ).push(
        CsOp::Constrain {
            lc: seq![
                plus(Wire::MulOut(k + 4)), minus(Wire::MulOut(k + 1)),
                minus(Wire::MulOut(k + 4)), plus(Wire::MulOut(k + 1)),
            ],
        },
    ).push(
        CsOp::Mul {
            left: seq![
                plus(Wire::MulOut(k + 5)), minus(Wire::MulOut(k)), minus(Wire::MulOut(k + 1)),
            ],
            right: seq![
                plus(Wire::MulOut(k + 4)), plus(Wire::MulOut(k + 1)), minus(Wire::MulOut(k + 3)),
            ],
        },
    ).push(
        CsOp::Mul {
            left: seq![plus(Wire::MulOut(k + 4)), plus(Wire::MulOut(k + 1))],
            right: seq![plus(Wire::MulOut(k + 4)), minus(Wire::MulOut(k + 1))],
        },
    ).push(
        CsOp::Mul {
            left: seq![
                plus(Wire::MulOut(k + 4)), plus(Wire::MulOut(k + 1)), minus(Wire::MulOut(k + 3)),
            ],
            right: seq![plus(Wire::MulOut(k + 4)), plus(Wire::MulOut(k + 1))],
        },
    ).push(
        CsOp::Mul {
            left: seq![
                plus(Wire::MulOut(k + 5)), minus(Wire::MulOut(k)), minus(Wire::MulOut(k + 1)),
            ],
            right: seq![plus(Wire::MulOut(k + 4)), minus(Wire::MulOut(k + 1))],
        },
    )
}

/// The coordinate wires of the point a doubling gadget returns, when it
/// started with `k` gates in the system.
pub open spec fn double_out_wires(k: nat) -> PointWires {
    PointWires {
        x: seq![plus(Wire::MulOut(k + 6))],
        y: seq![plus(Wire::MulOut(k + 7))],
        z: seq![plus(Wire::MulOut(k + 8))],
        t: seq![plus(Wire::MulOut(k + 9))],
    }
}

/// The operations the conditional-selection gadget appends, for point wires
/// `p` and selector combination `bit` when the system holds `k` gates:
/// `x' = x·bit`, `y' = bit·y + (1−bit)`, `z' = bit·z + (1−bit)`,
/// `t' = t·bit`, with the two affine coordinates re-tied by constraints.
pub open spec fn cond_select_trace(p: PointWires, bit: LcTerms, k: nat) -> Seq<CsOp> {
    Seq::empty().push(
        CsOp::Mul { left: p.x, right: bit },
    ).push(
        CsOp::Mul { left: seq![plus(Wire::MulRight(k))], right: p.y },
    ).push(
        CsOp::Constrain {
            lc: seq![
                plus(Wire::MulOut(k + 1)), plus(Wire::One), minus(Wire::MulLeft(k + 1)),
                minus(Wire::MulOut(k + 1)), minus(Wire::One), plus(Wire::MulLeft(k + 1)),
            ],
        },
    ).push(
        CsOp::Mul { left: seq![plus(Wire::MulLeft(k + 1))], right: p.z },
    ).push(
        CsOp::Constrain {
            lc: seq![
                plus(Wire::MulOut(k + 2)), plus(Wire::One), minus(Wire::MulLeft(k + 2)),
                minus(Wire::MulOut(k + 2)), minus(Wire::One), plus(Wire::MulLeft(k + 2)),
            ],
        },
    ).push(
        CsOp::Mul { left: p.t, right: seq![plus(Wire::MulLeft(k + 2))] },
    )
}

/// The coordinate wires of the point a conditional selection returns, when
/// it started with `k` gates in the system.
pub open spec fn select_out_wires(k: nat) -> PointWires {
    PointWires {
        x: seq![plus(Wire::MulOut(k))],
        y: seq![plus(Wire::MulOut(k + 1)), plus(Wire::One), minus(Wire::MulLeft(k + 1))],
        z: seq![plus(Wire::MulOut(k + 2)), plus(Wire::One), minus(Wire::MulLeft(k + 2))],
        t: seq![plus(Wire::MulOut(k + 3))],
    }
}

/// The operations the equality gadget appends: the cross-multiplied
/// equalities `x1·z2 = x2·z1` and `y1·z2 = y2·z1`.
pub open spec fn edwards_equal_trace(p1: PointWires, p2: PointWires, k: nat) -> Seq<CsOp> {
    Seq::empty().push(
        CsOp::Mul { left: p1.x, right: p2.z },
    ).push(
        CsOp::Mul { left: p2.x, right: p1.z },
    ).push(
        CsOp::Constrain { lc: seq![plus(Wire::MulOut(k)), minus(Wire::MulOut(k + 1))] },
    ).push(
        CsOp::Mul { left: p1.y, right: seq![plus(Wire::MulRight(k))] },
    ).push(
        CsOp::Mul { left: p2.y, right: seq![plus(Wire::MulRight(k + 1))] },
    ).push(
        CsOp::Constrain { lc: seq![plus(Wire::MulOut(k + 2)), minus(Wire::MulOut(k + 3))] },
    )
}

/// One round of the double-and-add ladder: boolean-constrain the bit,
/// double the accumulator, select the base point or the identity by the
/// bit, and add the selection to the accumulator.
pub open spec fn ladder_step_trace(p: PointWires, b: Wire, acc: PointWires, k: nat) -> Seq<
    CsOp,
> {
    binary_constrain_trace(b, k) + edwards_double_trace(acc, k + 1) + cond_select_trace(
        p,
        seq![plus(b)],
        k + 11,
    ) + edwards_add_trace(double_out_wires(k + 1), select_out_wires(k + 11), k + 15)
}

/// Gates one ladder round creates.
pub open spec fn ladder_step_gates() -> nat {
    27
}

/// The accumulator wires after one ladder round that started at `k` gates.
pub open spec fn ladder_step_out(k: nat) -> PointWires {
    add_out_wires(k + 15)
}

/// The operations of the whole ladder over the bit wires `bits`, processed
/// front first, with accumulator wires `acc` and `k` gates in the system.
pub open spec fn ladder_trace(p: PointWires, bits: Seq<Wire>, acc: PointWires, k: nat) -> Seq<
    CsOp,
>
    decreases bits.len(),
{
    if bits.len() == 0 {
        Seq::empty()
    } else {
        ladder_step_trace(p, bits[0], acc, k) + ladder_trace(
            p,
            bits.skip(1),
            ladder_step_out(k),
            k + ladder_step_gates(),
        )
    }
}

/// The accumulator wires after the whole ladder.
pub open spec fn ladder_out(bits: Seq<Wire>, acc: PointWires, k: nat) -> PointWires
    decreases bits.len(),
{
    if bits.len() == 0 {
        acc
    } else {
        ladder_out(bits.skip(1), ladder_step_out(k), k + ladder_step_gates())
    }
}

/// The wires an addition returns are in range once its twelve gates exist.
pub proof fn lemma_add_out_in_range(k: nat, g: nat, c: nat)
    requires
        k + 12 <= g,
    ensures
        point_in_range(add_out_wires(k), g, c),
{
}

/// The wires a doubling returns are in range once its ten gates exist.
pub proof fn lemma_double_out_in_range(k: nat, g: nat, c: nat)
    requires
        k + 10 <= g,
    ensures
        point_in_range(double_out_wires(k), g, c),
{
}

/// The wires a selection returns are in range once its four gates exist.
pub proof fn lemma_select_out_in_range(k: nat, g: nat, c: nat)
    requires
        k + 4 <= g,
    ensures
        point_in_range(select_out_wires(k), g, c),
{
}

/// The identity point `(0, 1, 1, 0)` as constant combinations on the
/// one-wire.
pub fn identity_point_gadget() -> (r: SonnyEdwardsPointGadget)
    ensures
        r.wires() == identity_point_terms(),
{
    SonnyEdwardsPointGadget {
        X: Lc::from_scalar(scalar_zero()),
        Y: Lc::from_scalar(scalar_one()),
        Z: Lc::from_scalar(scalar_one()),
        T: Lc::from_scalar(scalar_zero()),
    }
}

impl SonnyEdwardsPointGadget {
    /// The wires of the four coordinates.
    pub open spec fn wires(&self) -> PointWires {
        PointWires { x: self.X.terms(), y: self.Y.terms(), z: self.Z.terms(), t: self.T.terms() }
    }

    /// Builds the circuit point whose coordinates are the given point's,
    /// as constants: each coordinate becomes one term on the one-wire
    /// whose coefficient is the circuit-field image of that coordinate.
    /// Adds nothing to any constraint system.
    pub fn from_point(point: &EdwardsPoint) -> (r: SonnyEdwardsPointGadget)
        ensures
            r.wires() == point_const_terms(*point),
    {
        SonnyEdwardsPointGadget {
            X: Lc::from_scalar(fq_as_scalar(ed_x(point))),
            Y: Lc::from_scalar(fq_as_scalar(ed_y(point))),
            Z: Lc::from_scalar(fq_as_scalar(ed_z(point))),
            T: Lc::from_scalar(fq_as_scalar(ed_t(point))),
        }
    }

    /// Builds the addition circuit for `self + other` and returns the
    /// resulting circuit point.
    #[verifier::rlimit(50)]
    pub fn add<C: Cs>(&self, other: &SonnyEdwardsPointGadget, cs: &mut C) -> (r:
        SonnyEdwardsPointGadget)
        requires
            point_in_range(self.wires(), gates(old(cs).trace()), commits(old(cs).trace())),
            point_in_range(other.wires(), gates(old(cs).trace()), commits(old(cs).trace())),
        ensures
            final(cs).trace() == old(cs).trace() + edwards_add_trace(
                self.wires(),
                other.wires(),
                gates(old(cs).trace()),
            ),
            final(cs).allocs() == old(cs).allocs(),
        final(cs).has_witness() == old(cs).has_witness(),
            r.wires() == add_out_wires(gates(old(cs).trace())),
    {
        let a = Lc::from_scalar(edwards_a_scalar());
        let d = Lc::from_scalar(edwards_d_scalar());
        let (x_v, other_x_v, a_v) = cs.multiply(&self.X, &other.X);
        let (y_v, other_y_v, b_v) = cs.multiply(&self.Y, &other.Y);
        let (_tl, _tr, pt_v) = cs.multiply(&self.T, &other.T);
        let (_cl, _cr, c_v) = cs.multiply(&Lc::from_var(&pt_v), &d);
        let (_dl, _dr, d_v) = cs.multiply(&self.Z, &other.Z);
        let e1 = self.X.add(&Lc::from_var(&y_v));
        cs.constrain(&e1.sub(&Lc::from_var(&x_v)).sub(&Lc::from_var(&y_v)));
        let e2 = other.X.add(&other.Y);
        cs.constrain(&e2.sub(&Lc::from_var(&other_x_v)).sub(&Lc::from_var(&other_y_v)));
        let (_el, _er, e12_v) = cs.multiply(&e1, &e2);
        let (_ql, _qr, aa_v) = cs.multiply(&a, &Lc::from_var(&a_v));
        let (_rl, _rr, bb_v) = cs.multiply(&a, &Lc::from_var(&b_v));
        let lc_e = Lc::from_var(&aa_v).add(&Lc::from_var(&bb_v)).add(&Lc::from_var(&e12_v));
        cs.constrain(
            &lc_e.sub(&Lc::from_var(&aa_v)).sub(&Lc::from_var(&bb_v)).sub(&Lc::from_var(&e12_v)),
        );
        let lc_f = Lc::from_var(&d_v).sub(&Lc::from_var(&c_v));
        cs.constrain(&lc_f.sub(&Lc::from_var(&d_v)).add(&Lc::from_var(&c_v)));
        let lc_g = Lc::from_var(&d_v).add(&Lc::from_var(&c_v));
        cs.constrain(&lc_g.sub(&Lc::from_var(&d_v)).sub(&Lc::from_var(&c_v)));
        let lc_h = Lc::from_var(&b_v).add(&Lc::from_var(&a_v));
        cs.constrain(&lc_h.sub(&Lc::from_var(&b_v)).sub(&Lc::from_var(&a_v)));
        let (e_v, f_v, x3) = cs.multiply(&lc_e, &lc_f);
        let (g_v, h_v, y3) = cs.multiply(&lc_g, &lc_h);
        let (_zl, _zr, z3) = cs.multiply(&Lc::from_var(&f_v), &Lc::from_var(&g_v));
        let (_wl, _wr, t3) = cs.multiply(&Lc::from_var(&e_v), &Lc::from_var(&h_v));
        proof {
            assert(cs.trace() =~~= old(cs).trace() + edwards_add_trace(
                self.wires(),
                other.wires(),
                gates(old(cs).trace()),
            ));
        }
        SonnyEdwardsPointGadget {
            X: Lc::from_var(&x3),
            Y: Lc::from_var(&y3),
            Z: Lc::from_var(&z3),
            T: Lc::from_var(&t3),
        }
    }

    /// Builds the doubling circuit for `2 · self` and returns the resulting
    /// circuit point.
    pub fn double<C: Cs>(&self, cs: &mut C) -> (r: SonnyEdwardsPointGadget)
        requires
            point_in_range(self.wires(), gates(old(cs).trace()), commits(old(cs).trace())),
        ensures
            final(cs).trace() == old(cs).trace() + edwards_double_trace(
                self.wires(),
                gates(old(cs).trace()),
            ),
            final(cs).allocs() == old(cs).allocs(),
        final(cs).has_witness() == old(cs).has_witness(),
            r.wires() == double_out_wires(gates(old(cs).trace())),
    {
        let a = Lc::from_scalar(edwards_a_scalar());
        let (x_v, _xr, a_v) = cs.multiply(&self.X, &self.X);
        let (y_v, _yr, b_v) = cs.multiply(&self.Y, &self.Y);
        let (_zl, _zr, zsq_v) = cs.multiply(&self.Z, &self.Z);
        let two = Lc::from_scalar(scalar_from_u8(2u8));
        let (_cl, _cr, c_v) = cs.multiply(&two, &Lc::from_var(&zsq_v));
        let (_dl, _dr, d_v) = cs.multiply(&a, &Lc::from_var(&a_v));
        let xy = Lc::from_var(&x_v).add(&Lc::from_var(&y_v));
        let (_el, _er, xysq_v) = cs.multiply(&xy, &xy);
        let lc_e = Lc::from_var(&xysq_v).sub(&Lc::from_var(&a_v)).sub(&Lc::from_var(&b_v));
        cs.constrain(
            &lc_e.sub(&Lc::from_var(&xysq_v)).add(&Lc::from_var(&a_v)).add(&Lc::from_var(&b_v)),
        );
        let lc_g = Lc::from_var(&d_v).add(&Lc::from_var(&b_v));
        cs.constrain(&lc_g.sub(&Lc::from_var(&d_v)).sub(&Lc::from_var(&b_v)));
        let lc_f = lc_g.sub(&Lc::from_var(&c_v));
        cs.constrain(&lc_f.sub(&lc_g).add(&Lc::from_var(&c_v)));
        let lc_h = Lc::from_var(&d_v).sub(&Lc::from_var(&b_v));
        cs.constrain(&lc_h.sub(&Lc::from_var(&d_v)).add(&Lc::from_var(&b_v)));
        let (_x3l, _x3r, x3) = cs.multiply(&lc_e, &lc_f);
        let (_y3l, _y3r, y3) = cs.multiply(&lc_g, &lc_h);
        let (_z3l, _z3r, z3) = cs.multiply(&lc_f, &lc_g);
        let (_t3l, _t3r, t3) = cs.multiply(&lc_e, &lc_h);
        proof {
            assert(cs.trace() =~~= old(cs).trace() + edwards_double_trace(
                self.wires(),
                gates(old(cs).trace()),
            ));
        }
        SonnyEdwardsPointGadget {
            X: Lc::from_var(&x3),
            Y: Lc::from_var(&y3),
            Z: Lc::from_var(&z3),
            T: Lc::from_var(&t3),
        }
    }

    /// Builds the doubling circuit; the doubling gadget under its
    /// protocol-level name.
    pub fn point_doubling_gadget<C: Cs>(&self, cs: &mut C) -> (r: SonnyEdwardsPointGadget)
        requires
            point_in_range(self.wires(), gates(old(cs).trace()), commits(old(cs).trace())),
        ensures
            final(cs).trace() == old(cs).trace() + edwards_double_trace(
                self.wires(),
                gates(old(cs).trace()),
            ),
            final(cs).allocs() == old(cs).allocs(),
        final(cs).has_witness() == old(cs).has_witness(),
            r.wires() == double_out_wires(gates(old(cs).trace())),
    {
        self.double(cs)
    }

    /// Constrains `self` and `other` to name the same projective point:
    /// `x1·z2 = x2·z1` and `y1·z2 = y2·z1`.
    pub fn equal<C: Cs>(&self, other: &SonnyEdwardsPointGadget, cs: &mut C)
        requires
            point_in_range(self.wires(), gates(old(cs).trace()), commits(old(cs).trace())),
            point_in_range(other.wires(), gates(old(cs).trace()), commits(old(cs).trace())),
        ensures
            final(cs).trace() == old(cs).trace() + edwards_equal_trace(
                self.wires(),
                other.wires(),
                gates(old(cs).trace()),
            ),
            final(cs).allocs() == old(cs).allocs(),
        final(cs).has_witness() == old(cs).has_witness(),
    {
        let (_xl, other_z_v, a_v) = cs.multiply(&self.X, &other.Z);
        let (_ol, z_v, b_v) = cs.multiply(&other.X, &self.Z);
        cs.constrain(&Lc::from_var(&a_v).sub(&Lc::from_var(&b_v)));
        let (_yl, _yr, c_v) = cs.multiply(&self.Y, &Lc::from_var(&other_z_v));
        let (_pl, _pr, d_v) = cs.multiply(&other.Y, &Lc::from_var(&z_v));
        cs.constrain(&Lc::from_var(&c_v).sub(&Lc::from_var(&d_v)));
        proof {
            assert(cs.trace() =~~= old(cs).trace() + edwards_equal_trace(
                self.wires(),
                other.wires(),
                gates(old(cs).trace()),
            ));
        }
    }

    /// Builds the conditional-selection circuit: the result equals `self`
    /// when the (boolean-constrained) selector is 1 and the identity point
    /// `(0, 1, 1, 0)` when it is 0.
    pub fn conditionally_select<C: Cs>(&self, bit: &Lc, cs: &mut C) -> (r:
        SonnyEdwardsPointGadget)
        requires
            point_in_range(self.wires(), gates(old(cs).trace()), commits(old(cs).trace())),
            terms_in_range(bit.terms(), gates(old(cs).trace()), commits(old(cs).trace())),
        ensures
            final(cs).trace() == old(cs).trace() + cond_select_trace(
                self.wires(),
                bit.terms(),
                gates(old(cs).trace()),
            ),
            final(cs).allocs() == old(cs).allocs(),
        final(cs).has_witness() == old(cs).has_witness(),
            r.wires() == select_out_wires(gates(old(cs).trace())),
    {
        let one = Lc::from_scalar(scalar_one());
        let (_xl, bit1_v, x_prime) = cs.multiply(&self.X, bit);
        let (bit2_v, _yr, bit_t_y) = cs.multiply(&Lc::from_var(&bit1_v), &self.Y);
        let y_prime = Lc::from_var(&bit_t_y).add(&one).sub(&Lc::from_var(&bit2_v));
        cs.constrain(&y_prime.sub(&Lc::from_var(&bit_t_y)).sub(&one).add(&Lc::from_var(&bit2_v)));
        let (bit3_v, _zr, bit_t_z) = cs.multiply(&Lc::from_var(&bit2_v), &self.Z);
        let z_prime = Lc::from_var(&bit_t_z).add(&one).sub(&Lc::from_var(&bit3_v));
        cs.constrain(&z_prime.sub(&Lc::from_var(&bit_t_z)).sub(&one).add(&Lc::from_var(&bit3_v)));
        let (_tl, _tr, t_prime) = cs.multiply(&self.T, &Lc::from_var(&bit3_v));
        proof {
            assert(cs.trace() =~~= old(cs).trace() + cond_select_trace(
                self.wires(),
                bit.terms(),
                gates(old(cs).trace()),
            ));
        }
        SonnyEdwardsPointGadget {
            X: Lc::from_var(&x_prime),
            Y: y_prime,
            Z: z_prime,
            T: Lc::from_var(&t_prime),
        }
    }

    /// Builds the double-and-add ladder computing `scalar · point` for the
    /// scalar the bit wires `sk` encode, least-significant bit first; the
    /// ladder itself consumes the bits most-significant first.  Every bit
    /// runs the same boolean-constrain, double, select and add round, so
    /// the multiplier count and the whole constraint-graph shape depend
    /// only on the number of bits, never on their values.
    pub fn scalar_mul<C: Cs>(point: &SonnyEdwardsPointGadget, sk: &Vec<Var>, cs: &mut C) -> (r:
        SonnyEdwardsPointGadget)
        requires
            point_in_range(point.wires(), gates(old(cs).trace()), commits(old(cs).trace())),
            forall|m: int|
                0 <= m < sk@.len() ==> crate::trace::wire_in_range(
                    (#[trigger] sk@[m]).wire(),
                    gates(old(cs).trace()),
                    commits(old(cs).trace()),
                ),
        ensures
            final(cs).trace() == old(cs).trace() + ladder_trace(
                point.wires(),
                sk@.map_values(|v: Var| v.wire()).reverse(),
                identity_point_terms(),
                gates(old(cs).trace()),
            ),
            final(cs).allocs() == old(cs).allocs(),
        final(cs).has_witness() == old(cs).has_witness(),
            r.wires() == ladder_out(
                sk@.map_values(|v: Var| v.wire()).reverse(),
                identity_point_terms(),
                gates(old(cs).trace()),
            ),
    {
        let ghost bits = sk@.map_values(|v: Var| v.wire()).reverse();
        let ghost pw = point.wires();
        let mut q = identity_point_gadget();
        let n = sk.len();
        let mut i: usize = n;
        proof {
            assert(bits.skip(0) =~~= bits);
            assert(cs.trace() + ladder_trace(pw, bits.skip(0), q.wires(), gates(cs.trace()))
                =~~= old(cs).trace() + ladder_trace(
                pw,
                bits,
                identity_point_terms(),
                gates(old(cs).trace()),
            ));
            crate::trace::lemma_identity_point_in_range(gates(cs.trace()), commits(cs.trace()));
            assert forall|m: int| 0 <= m < bits.len() implies crate::trace::wire_in_range(
                #[trigger] bits[m],
                gates(cs.trace()),
                commits(cs.trace()),
            ) by {
                assert(bits[m] == sk@.map_values(|v: Var| v.wire())[n - 1 - m]);
            }
        }
        while i > 0
            invariant
                i <= n,
                n == sk@.len(),
                bits == sk@.map_values(|v: Var| v.wire()).reverse(),
                bits.len() == n,
                pw == point.wires(),
                cs.has_witness() == old(cs).has_witness(),
                cs.allocs() == old(cs).allocs(),
                cs.trace() + ladder_trace(pw, bits.skip(n - i), q.wires(), gates(cs.trace()))
                    == old(cs).trace() + ladder_trace(
                    pw,
                    bits,
                    identity_point_terms(),
                    gates(old(cs).trace()),
                ),
                ladder_out(bits.skip(n - i), q.wires(), gates(cs.trace())) == ladder_out(
                    bits,
                    identity_point_terms(),
                    gates(old(cs).trace()),
                ),
                point_in_range(pw, gates(cs.trace()), commits(cs.trace())),
                forall|m: int|
                    0 <= m < bits.len() ==> crate::trace::wire_in_range(
                        #[trigger] bits[m],
                        gates(cs.trace()),
                        commits(cs.trace()),
                    ),
                point_in_range(q.wires(), gates(cs.trace()), commits(cs.trace())),
            decreases i,
        {
            let ghost j = (n - i) as int;
            let ghost k_here = gates(cs.trace());
            let ghost c_here = commits(cs.trace());
            let ghost trace_here = cs.trace();
            let ghost q_here = q.wires();
            i = i - 1;
            let bit = &sk[i];
            proof {
                assert(bits[j] == sk@.map_values(|v: Var| v.wire())[n - 1 - j]);
                assert(bits[j] == bit.wire());
                assert(bits.skip(j)[0] == bits[j]);
            }
            binary_constrain_gadget(cs, bit);
            proof {
                crate::trace::lemma_gates_add(
                    trace_here,
                    binary_constrain_trace(bit.wire(), k_here),
                );
                crate::trace::lemma_commits_add(
                    trace_here,
                    binary_constrain_trace(bit.wire(), k_here),
                );
                lemma_binary_trace_gates(bit.wire(), k_here);
                lemma_point_in_range_grow(q_here, k_here, c_here, gates(cs.trace()), commits(
                    cs.trace(),
                ));
            }
            let ghost trace_b = cs.trace();
            q = q.double(cs);
            proof {
                crate::trace::lemma_gates_add(trace_b, edwards_double_trace(q_here, k_here + 1));
                crate::trace::lemma_commits_add(
                    trace_b,
                    edwards_double_trace(q_here, k_here + 1),
                );
                lemma_double_trace_gates(q_here, (k_here + 1) as nat);
                lemma_point_in_range_grow(pw, k_here, c_here, gates(cs.trace()), commits(
                    cs.trace(),
                ));
                assert(terms_in_range(
                    seq![plus(bit.wire())],
                    gates(cs.trace()),
                    commits(cs.trace()),
                ));
            }
            let ghost trace_d = cs.trace();
            let bit_lc = Lc::from_var(bit);
            let point_or_id = point.conditionally_select(&bit_lc, cs);
            proof {
                crate::trace::lemma_gates_add(
                    trace_d,
                    cond_select_trace(pw, seq![plus(bit.wire())], k_here + 11),
                );
                crate::trace::lemma_commits_add(
                    trace_d,
                    cond_select_trace(pw, seq![plus(bit.wire())], k_here + 11),
                );
                lemma_select_trace_gates(pw, seq![plus(bit.wire())], (k_here + 11) as nat);
                lemma_double_out_in_range((k_here + 1) as nat, gates(cs.trace()), commits(
                    cs.trace(),
                ));
                lemma_select_out_in_range((k_here + 11) as nat, gates(cs.trace()), commits(
                    cs.trace(),
                ));
            }
            q = q.add(&point_or_id, cs);
            proof {
                assert(cs.trace() =~~= trace_here + ladder_step_trace(pw, bits[j], q_here, k_here));
                crate::trace::lemma_gates_add(
                    trace_here,
                    ladder_step_trace(pw, bits[j], q_here, k_here),
                );
                crate::trace::lemma_commits_add(
                    trace_here,
                    ladder_step_trace(pw, bits[j], q_here, k_here),
                );
                lemma_ladder_step_gates(pw, bits[j], q_here, k_here);
                assert(gates(cs.trace()) == k_here + ladder_step_gates());
                assert(bits.skip(j).skip(1) =~~= bits.skip(j + 1));
                // Unfold one round of the remaining ladder.
                assert(ladder_trace(pw, bits.skip(j), q_here, k_here) == ladder_step_trace(
                    pw,
                    bits[j],
                    q_here,
                    k_here,
                ) + ladder_trace(pw, bits.skip(j + 1), ladder_step_out(k_here), k_here
                    + ladder_step_gates()));
                assert(q.wires() == ladder_step_out(k_here));
                assert(trace_here + (ladder_step_trace(pw, bits[j], q_here, k_here)
                    + ladder_trace(pw, bits.skip(j + 1), q.wires(), gates(cs.trace()))) =~~= (
                trace_here + ladder_step_trace(pw, bits[j], q_here, k_here)) + ladder_trace(
                    pw,
                    bits.skip(j + 1),
                    q.wires(),
                    gates(cs.trace()),
                ));
                assert(ladder_out(bits.skip(j), q_here, k_here) == ladder_out(
                    bits.skip(j + 1),
                    q.wires(),
                    gates(cs.trace()),
                ));
                lemma_point_in_range_grow(pw, k_here, c_here, gates(cs.trace()), commits(
                    cs.trace(),
                ));
                assert forall|m: int| 0 <= m < bits.len() implies crate::trace::wire_in_range(
                    #[trigger] bits[m],
                    gates(cs.trace()),
                    commits(cs.trace()),
                ) by {
                    assert(crate::trace::wire_in_range(bits[m], k_here, c_here));
                }
                lemma_add_out_in_range((k_here + 15) as nat, gates(cs.trace()), commits(
                    cs.trace(),
                ));
            }
        }
        proof {
            assert(bits.skip(n - i).len() == 0);
            assert(ladder_trace(pw, bits.skip(n - i), q.wires(), gates(cs.trace()))
                == Seq::<CsOp>::empty());
            assert(ladder_out(bits.skip(n - i), q.wires(), gates(cs.trace())) == q.wires());
            assert(cs.trace() + Seq::<CsOp>::empty() =~~= cs.trace());
        }
        q
    }

    /// Commits the four coordinates of a point as high-level variables,
    /// under fresh random blinding factors, and returns the circuit point
    /// over the committed wires together with the four commitments.
    pub fn prover_commit_to_sonny_edwards_point(prover: &mut CsProver, p: &EdwardsPoint) -> (r: (
        SonnyEdwardsPointGadget,
        Vec<CompressedRistretto>,
    ))
        ensures
            final(prover).trace() == old(prover).trace() + commit_ops(4),
            r.0.wires() == committed_point_wires(commits(old(prover).trace())),
            r.1@.len() == 4,
    {
        let (c_x, v_x) = prover.commit(fq_as_scalar(ed_x(p)), scalar_random());
        let (c_y, v_y) = prover.commit(fq_as_scalar(ed_y(p)), scalar_random());
        let (c_z, v_z) = prover.commit(fq_as_scalar(ed_z(p)), scalar_random());
        let (c_t, v_t) = prover.commit(fq_as_scalar(ed_t(p)), scalar_random());
        let gadget = SonnyEdwardsPointGadget {
            X: Lc::from_var(&v_x),
            Y: Lc::from_var(&v_y),
            Z: Lc::from_var(&v_z),
            T: Lc::from_var(&v_t),
        };
        let mut commitments: Vec<CompressedRistretto> = Vec::new();
        commitments.push(c_x);
        commitments.push(c_y);
        commitments.push(c_z);
        commitments.push(c_t);
        proof {
            reveal_with_fuel(commit_ops, 5);
            assert(prover.trace() =~~= old(prover).trace() + commit_ops(4));
        }
        (gadget, commitments)
    }

    /// Receives the four coordinate commitments of a point and returns the
    /// circuit point over the committed wires.
    pub fn verifier_commit_to_sonny_edwards_point(
        verifier: &mut CsVerifier,
        commitments: &Vec<CompressedRistretto>,
    ) -> (r: SonnyEdwardsPointGadget)
        requires
            commitments@.len() == 4,
        ensures
            final(verifier).trace() == old(verifier).trace() + commit_ops(4),
            r.wires() == committed_point_wires(commits(old(verifier).trace())),
    {
        let v_x = verifier.commit(commitments[0]);
        let v_y = verifier.commit(commitments[1]);
        let v_z = verifier.commit(commitments[2]);
        let v_t = verifier.commit(commitments[3]);
        proof {
            reveal_with_fuel(commit_ops, 5);
            assert(verifier.trace() =~~= old(verifier).trace() + commit_ops(4));
        }
        SonnyEdwardsPointGadget {
            X: Lc::from_var(&v_x),
            Y: Lc::from_var(&v_y),
            Z: Lc::from_var(&v_z),
            T: Lc::from_var(&v_t),
        }
    }
}

/// The boolean gadget creates exactly one gate.
pub proof fn lemma_binary_trace_gates(b: Wire, k: nat)
    ensures
        gates(binary_constrain_trace(b, k)) == 1,
{
}

/// The doubling gadget creates exactly ten gates.
pub proof fn lemma_double_trace_gates(p: PointWires, k: nat)
    ensures
        gates(edwards_double_trace(p, k)) == 10,
{
}

/// The conditional-selection gadget creates exactly four gates.
pub proof fn lemma_select_trace_gates(p: PointWires, bit: LcTerms, k: nat)
    ensures
        gates(cond_select_trace(p, bit, k)) == 4,
{
}

/// The addition gadget creates exactly twelve gates.
pub proof fn lemma_add_trace_gates(p1: PointWires, p2: PointWires, k: nat)
    ensures
        gates(edwards_add_trace(p1, p2, k)) == 12,
{
}

/// The equality gadget creates exactly four gates.
pub proof fn lemma_equal_trace_gates(p1: PointWires, p2: PointWires, k: nat)
    ensures
        gates(edwards_equal_trace(p1, p2, k)) == 4,
{
}

/// One ladder round creates exactly [`ladder_step_gates`] gates.
pub proof fn lemma_ladder_step_gates(p: PointWires, b: Wire, acc: PointWires, k: nat)
    ensures
        gates(ladder_step_trace(p, b, acc, k)) == ladder_step_gates(),
{
    lemma_binary_trace_gates(b, k);
    lemma_double_trace_gates(acc, k + 1);
    lemma_select_trace_gates(p, seq![plus(b)], k + 11);
    lemma_add_trace_gates(double_out_wires(k + 1), select_out_wires(k + 11), k + 15);
    crate::trace::lemma_gates_add(
        binary_constrain_trace(b, k),
        edwards_double_trace(acc, k + 1),
    );
    crate::trace::lemma_gates_add(
        binary_constrain_trace(b, k) + edwards_double_trace(acc, k + 1),
        cond_select_trace(p, seq![plus(b)], k + 11),
    );
    crate::trace::lemma_gates_add(
        binary_constrain_trace(b, k) + edwards_double_trace(acc, k + 1) + cond_select_trace(
            p,
            seq![plus(b)],
            k + 11,
        ),
        edwards_add_trace(double_out_wires(k + 1), select_out_wires(k + 11), k + 15),
    );
}

/// The whole ladder creates exactly 27 multipliers per bit: how many the
/// scalar-multiplication circuit allocates is linear in the bit length and
/// independent of the bit values.
pub proof fn lemma_ladder_trace_gates(p: PointWires, bits: Seq<Wire>, acc: PointWires, k: nat)
    ensures
        gates(ladder_trace(p, bits, acc, k)) == bits.len() * ladder_step_gates(),
    decreases bits.len(),
{
    if bits.len() == 0 {
    } else {
        lemma_ladder_step_gates(p, bits[0], acc, k);
        lemma_ladder_trace_gates(p, bits.skip(1), ladder_step_out(k), k + ladder_step_gates());
        crate::trace::lemma_gates_add(
            ladder_step_trace(p, bits[0], acc, k),
            ladder_trace(p, bits.skip(1), ladder_step_out(k), k + ladder_step_gates()),
        );
        assert(bits.len() * ladder_step_gates() == ladder_step_gates() + bits.skip(1).len()
            * ladder_step_gates()) by (nonlinear_arith)
            requires bits.len() >= 1 && bits.skip(1).len() == bits.len() - 1 {};
    }
}

} // verus!
