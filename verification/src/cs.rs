//! The constraint-system interface the gadgets are written against, and its
//! prover-side and verifier-side implementations.
//!
//! Both implementations wrap the corresponding bulletproofs object together
//! with a ghost trace of every operation performed on it.  The raw calls into
//! bulletproofs stand behind small trusted functions with no behavioural
//! contract; the methods of [`Cs`] are verified code that makes exactly one
//! raw call each and extends the ghost trace in step, so the contracts that
//! the gadgets rely on are checked, not believed.
//!
//! The trusted correspondence this module carries is exactly this: the ghost
//! wires and coefficients mirror bulletproofs' real sequential variable
//! indices and term vectors, because the raw calls hand both back in order
//! and [`Lc`] and [`Var`] are constructible only through this module.  The
//! in-range preconditions on [`Cs::multiply`] and [`Cs::constrain`] therefore
//! guarantee that the engine never reads an out-of-bounds index, at the call
//! and when it later flattens the recorded constraints.

use vstd::prelude::*;

use crate::error::GadgetError;
use crate::ext::scalar_of_u8;
use crate::trace::{commits, gates, neg_terms, terms_in_range, CsOp, LcTerms, Wire};

use bulletproofs::r1cs::ConstraintSystem;
use bulletproofs::r1cs::LinearCombination;
use bulletproofs::r1cs::Prover;
use bulletproofs::r1cs::R1CSError;
use bulletproofs::r1cs::R1CSProof;
use bulletproofs::r1cs::Variable;
use bulletproofs::r1cs::Verifier;
use bulletproofs::BulletproofGens;
use bulletproofs::PedersenGens;
use curve25519_dalek_ng::ristretto::CompressedRistretto;
use curve25519_dalek_ng::scalar::Scalar;
use merlin::Transcript;

verus! {

/// Holds the bulletproofs prover; its type parameters name a trait Verus
/// has no declaration for, so the whole struct is opaque to the verifier.
#[verifier::external_body]
struct ProverInner<'g> {
    p: Prover<'g, Transcript>,
}

/// Holds the bulletproofs verifier, opaque for the same reason.
#[verifier::external_body]
struct VerifierInner {
    v: Verifier<Transcript>,
}

/// A wire handle: the bulletproofs variable together with its ghost identity
/// in the trace model.  Values of this type are created only by the methods
/// of this module, which tie the ghost wire to the variable they return.
pub struct Var {
    v: Variable,
    w: Ghost<Wire>,
}

impl Var {
    /// The wire this variable stands for.
    pub closed spec fn wire(&self) -> Wire {
        self.w@
    }
}

/// A linear combination: the bulletproofs value together with the ghost
/// sequence of its terms — each wire with its scalar coefficient, in
/// order.  Values of this type are created only by the constructors of
/// this module, which keep the ghost sequence in step with the term
/// vector bulletproofs holds.
pub struct Lc {
    inner: LinearCombination,
    ts: Ghost<LcTerms>,
}

/// Relies on bulletproofs' `From<Variable> for LinearCombination`: a
/// combination of the one term `(v, 1)`.
#[verifier::external_body]
fn lc_of_var(v: &Variable) -> LinearCombination {
    (*v).into()
}

/// Relies on bulletproofs' `From<Scalar> for LinearCombination`: a
/// combination of the one constant term `(One, s)`.
#[verifier::external_body]
fn lc_of_scalar(s: Scalar) -> LinearCombination {
    s.into()
}

/// Relies on bulletproofs' `Add for LinearCombination`: the terms of the
/// right operand are appended to those of the left, in order.
#[verifier::external_body]
fn lc_add(a: &LinearCombination, b: &LinearCombination) -> LinearCombination {
    a.clone() + b.clone()
}

/// Relies on bulletproofs' `Sub for LinearCombination`: the terms of the
/// right operand are appended to those of the left with negated
/// coefficients, so term wires concatenate exactly as under `Add`.
#[verifier::external_body]
fn lc_sub(a: &LinearCombination, b: &LinearCombination) -> LinearCombination {
    a.clone() - b.clone()
}

impl Lc {
    /// The terms of this combination — wire and coefficient — in order.
    pub closed spec fn terms(&self) -> LcTerms {
        self.ts@
    }

    /// The combination holding the single term `v`, with coefficient one.
    pub fn from_var(v: &Var) -> (r: Lc)
        ensures
            r.terms() == seq![(v.wire(), scalar_of_u8(1))],
    {
        let ghost ts: LcTerms = seq![(v.w@, scalar_of_u8(1))];
        Lc { inner: lc_of_var(&v.v), ts: Ghost(ts) }
    }

    /// The constant combination `s`, a single term on the one-wire.
    pub fn from_scalar(s: Scalar) -> (r: Lc)
        ensures
            r.terms() == seq![(Wire::One, s)],
    {
        let ghost ts: LcTerms = seq![(Wire::One, s)];
        Lc { inner: lc_of_scalar(s), ts: Ghost(ts) }
    }

    /// The sum of two combinations; its terms are the left operand's
    /// followed by the right operand's.
    pub fn add(&self, other: &Lc) -> (r: Lc)
        ensures
            r.terms() == self.terms() + other.terms(),
    {
        Lc { inner: lc_add(&self.inner, &other.inner), ts: Ghost(self.ts@ + other.ts@) }
    }

    /// The difference of two combinations; its terms are the left operand's
    /// followed by the right operand's with negated coefficients.
    pub fn sub(&self, other: &Lc) -> (r: Lc)
        ensures
            r.terms() == self.terms() + neg_terms(other.terms()),
    {
        Lc { inner: lc_sub(&self.inner, &other.inner), ts: Ghost(self.ts@ + neg_terms(other.ts@)) }
    }
}

/// The capability interface of a constraint system under construction.
///
/// The prover-side and the verifier-side implementation allocate multipliers and
/// constraints identically; only the handling of witness assignments
/// differs, which `has_witness` captures.  Gadgets are written once against
/// this trait, and their contracts pin the exact operation sequence they
/// append, so the two sides are guaranteed to build structurally identical
/// constraint graphs when driven by the same calls.
pub trait Cs: Sized {
    /// The ghost trace of every operation performed so far.
    spec fn trace(&self) -> Seq<CsOp>;

    /// The ghost log of the assignments handed to every allocated gate so
    /// far, in order: witness data beside the trace, which stays free of
    /// values so that the prover's and the verifier's graphs compare.
    spec fn allocs(&self) -> Seq<Option<(Scalar, Scalar)>>;

    /// Whether this side holds witness values (true of the prover).
    spec fn has_witness(&self) -> bool;

    /// Tells the two sides apart at run time.
    fn is_prover(&self) -> (r: bool)
        ensures
            r == self.has_witness(),
    ;

    /// Creates one multiplication gate whose input wires are tied to the two
    /// given combinations, and returns the new multiplier's left, right and
    /// output wires.  Every wire of both combinations must already exist in
    /// this system: the engine reads the wires a combination names, so a
    /// foreign or not-yet-allocated wire would make it index out of bounds.
    fn multiply(&mut self, left: &Lc, right: &Lc) -> (vars: (Var, Var, Var))
        requires
            terms_in_range(
                left.terms(),
                gates(old(self).trace()),
                commits(old(self).trace()),
            ),
            terms_in_range(
                right.terms(),
                gates(old(self).trace()),
                commits(old(self).trace()),
            ),
        ensures
            final(self).trace() == old(self).trace().push(
                CsOp::Mul { left: left.terms(), right: right.terms() },
            ),
            final(self).allocs() == old(self).allocs(),
            final(self).has_witness() == old(self).has_witness(),
            vars.0.wire() == Wire::MulLeft(gates(old(self).trace())),
            vars.1.wire() == Wire::MulRight(gates(old(self).trace())),
            vars.2.wire() == Wire::MulOut(gates(old(self).trace())),
    ;

    /// Asserts that the given linear combination vanishes.  Every wire of
    /// the combination must already exist in this system, as for
    /// [`Cs::multiply`]: a recorded out-of-range wire would make the
    /// engine's final flattening index out of bounds.
    fn constrain(&mut self, lc: &Lc)
        requires
            terms_in_range(lc.terms(), gates(old(self).trace()), commits(old(self).trace())),
        ensures
            final(self).trace() == old(self).trace().push(CsOp::Constrain { lc: lc.terms() }),
            final(self).allocs() == old(self).allocs(),
            final(self).has_witness() == old(self).has_witness(),
    ;

    /// Creates one multiplication gate with no tying constraints.  On the
    /// prover side the assignment is mandatory: its absence is the one
    /// failure, and it leaves the system unchanged.
    fn allocate_multiplier(&mut self, assignment: Option<(Scalar, Scalar)>) -> (r: Result<
        (Var, Var, Var),
        GadgetError,
    >)
        ensures
            r is Ok <==> (assignment is Some || !old(self).has_witness()),
            final(self).has_witness() == old(self).has_witness(),
            r matches Ok(vars) ==> {
                &&& final(self).trace() == old(self).trace().push(CsOp::Alloc)
                &&& final(self).allocs() == old(self).allocs().push(assignment)
                &&& vars.0.wire() == Wire::MulLeft(gates(old(self).trace()))
                &&& vars.1.wire() == Wire::MulRight(gates(old(self).trace()))
                &&& vars.2.wire() == Wire::MulOut(gates(old(self).trace()))
            },
            r is Err ==> final(self).trace() == old(self).trace() && final(self).allocs()
                == old(self).allocs() && r == Err::<(Var, Var, Var), GadgetError>(
                GadgetError::MissingAssignment,
            ),
    ;
}

/// Relies on bulletproofs' `Prover::multiply`: appends one multiplication
/// gate, ties its input wires to the two combinations, and returns its
/// left, right and output variables.  It evaluates the combinations, so the
/// callers — the `Cs` methods — require every named wire to exist in this
/// prover.
#[verifier::external_body]
fn prover_multiply<'g>(
    p: &mut ProverInner<'g>,
    left: &LinearCombination,
    right: &LinearCombination,
) -> (Variable, Variable, Variable) {
    p.p.multiply(left.clone(), right.clone())
}

/// Relies on bulletproofs' `Prover::constrain`: appends the combination to
/// the constraint list, whose wires `prove` later reads; the callers — the
/// `Cs` methods — require every named wire to exist in this prover.
#[verifier::external_body]
fn prover_constrain<'g>(p: &mut ProverInner<'g>, lc: &LinearCombination) {
    p.p.constrain(lc.clone());
}

/// Relies on bulletproofs' `Prover::allocate_multiplier`: with an assignment
/// it appends one multiplication gate and returns its variables; without one
/// it fails with `MissingAssignment` and leaves the system untouched.
#[verifier::external_body]
fn prover_allocate_multiplier<'g>(
    p: &mut ProverInner<'g>,
    assignment: Option<(Scalar, Scalar)>,
) -> (r: Result<(Variable, Variable, Variable), GadgetError>)
    ensures
        r is Ok <==> assignment is Some,
{
    p.p.allocate_multiplier(assignment).map_err(|_| GadgetError::MissingAssignment)
}

/// Relies on bulletproofs' `Verifier::multiply`: as `Prover::multiply`, with
/// no witness evaluation; the recorded wires are read by `verify`, so the
/// callers — the `Cs` methods — require every named wire to exist in this
/// verifier.
#[verifier::external_body]
fn verifier_multiply(
    v: &mut VerifierInner,
    left: &LinearCombination,
    right: &LinearCombination,
) -> (Variable, Variable, Variable) {
    v.v.multiply(left.clone(), right.clone())
}

/// Relies on bulletproofs' `Verifier::constrain`: appends the combination to
/// the constraint list.
#[verifier::external_body]
fn verifier_constrain(v: &mut VerifierInner, lc: &LinearCombination) {
    v.v.constrain(lc.clone());
}

/// Relies on bulletproofs' `Verifier::allocate_multiplier`: appends one
/// multiplication gate and returns its variables; the verifier carries no
/// assignments, so the call always succeeds.
#[verifier::external_body]
fn verifier_allocate_multiplier(
    v: &mut VerifierInner,
    assignment: Option<(Scalar, Scalar)>,
) -> (r: Result<(Variable, Variable, Variable), GadgetError>)
    ensures
        r is Ok,
{
    v.v.allocate_multiplier(assignment).map_err(|_| GadgetError::MissingAssignment)
}

/// Relies on bulletproofs' `Prover::new`: a fresh prover with no multipliers,
/// constraints or commitments.
#[verifier::external_body]
fn prover_new<'g>(pc_gens: &'g PedersenGens, transcript: Transcript) -> ProverInner<'g> {
    ProverInner { p: Prover::new(pc_gens, transcript) }
}

/// Relies on bulletproofs' `Prover::commit`: Pedersen-commits the value
/// under the blinding factor and returns the commitment together with the
/// variable of the next committed high-level wire.
#[verifier::external_body]
fn prover_commit<'g>(
    p: &mut ProverInner<'g>,
    v: Scalar,
    v_blinding: Scalar,
) -> (CompressedRistretto, Variable) {
    p.p.commit(v, v_blinding)
}

/// Relies on bulletproofs' `Prover::prove`: consumes the system and produces
/// a proof, or fails; nothing is promised of which outcome comes.  An
/// undersized generator capacity fails with the engine's
/// `InvalidGeneratorsLength` and is reported as `CapacityExceeded`; every
/// other failure as `Proving`.
#[verifier::external_body]
fn prover_prove<'g>(
    p: ProverInner<'g>,
    bp_gens: &BulletproofGens,
) -> (r: Result<R1CSProof, GadgetError>)
    ensures
        r is Err ==> r->Err_0 == GadgetError::Proving || r->Err_0
            == GadgetError::CapacityExceeded,
{
    p.p.prove(bp_gens).map_err(|e| match e {
        R1CSError::InvalidGeneratorsLength => GadgetError::CapacityExceeded,
        _ => GadgetError::Proving,
    })
}

/// Relies on bulletproofs' `Verifier::new`: a fresh verifier with no multipliers,
/// constraints or commitments.
#[verifier::external_body]
fn verifier_new(transcript: Transcript) -> VerifierInner {
    VerifierInner { v: Verifier::new(transcript) }
}

/// Relies on bulletproofs' `Verifier::commit`: records the commitment and
/// returns the variable of the next committed high-level wire.
#[verifier::external_body]
fn verifier_commit(v: &mut VerifierInner, commitment: CompressedRistretto) -> Variable {
    v.v.commit(commitment)
}

/// Relies on bulletproofs' `Verifier::verify`: consumes the system and
/// checks the proof against it; nothing is promised of which outcome
/// comes.  An undersized generator capacity fails with the engine's
/// `InvalidGeneratorsLength` and is reported as `CapacityExceeded`; every
/// other failure as `Verification`.
#[verifier::external_body]
fn verifier_verify(
    v: VerifierInner,
    proof: &R1CSProof,
    pc_gens: &PedersenGens,
    bp_gens: &BulletproofGens,
) -> (r: Result<(), GadgetError>)
    ensures
        r is Err ==> r->Err_0 == GadgetError::Verification || r->Err_0
            == GadgetError::CapacityExceeded,
{
    v.v.verify(proof, pc_gens, bp_gens).map_err(|e| match e {
        R1CSError::InvalidGeneratorsLength => GadgetError::CapacityExceeded,
        _ => GadgetError::Verification,
    })
}

/// The prover-side constraint system: a bulletproofs `Prover` together with
/// the ghost trace of the operations performed on it.
pub struct CsProver<'g> {
    inner: ProverInner<'g>,
    ops: Ghost<Seq<CsOp>>,
    asg: Ghost<Seq<Option<(Scalar, Scalar)>>>,
}

/// The verifier-side constraint system: a bulletproofs `Verifier` together
/// with the ghost trace of the operations performed on it.
pub struct CsVerifier {
    inner: VerifierInner,
    ops: Ghost<Seq<CsOp>>,
    asg: Ghost<Seq<Option<(Scalar, Scalar)>>>,
}

impl<'g> Cs for CsProver<'g> {
    closed spec fn trace(&self) -> Seq<CsOp> {
        self.ops@
    }

    closed spec fn allocs(&self) -> Seq<Option<(Scalar, Scalar)>> {
        self.asg@
    }

    open spec fn has_witness(&self) -> bool {
        true
    }

    fn is_prover(&self) -> bool {
        true
    }

    fn multiply(&mut self, left: &Lc, right: &Lc) -> (Var, Var, Var) {
        let ghost k = gates(self.ops@);
        let (l, r, o) = prover_multiply(&mut self.inner, &left.inner, &right.inner);
        self.ops = Ghost(self.ops@.push(CsOp::Mul { left: left.terms(), right: right.terms() }));
        (
            Var { v: l, w: Ghost(Wire::MulLeft(k)) },
            Var { v: r, w: Ghost(Wire::MulRight(k)) },
            Var { v: o, w: Ghost(Wire::MulOut(k)) },
        )
    }

    fn constrain(&mut self, lc: &Lc) {
        prover_constrain(&mut self.inner, &lc.inner);
        self.ops = Ghost(self.ops@.push(CsOp::Constrain { lc: lc.terms() }));
    }

    fn allocate_multiplier(&mut self, assignment: Option<(Scalar, Scalar)>) -> Result<
        (Var, Var, Var),
        GadgetError,
    > {
        let ghost k = gates(self.ops@);
        match prover_allocate_multiplier(&mut self.inner, assignment) {
            Ok((l, r, o)) => {
                self.ops = Ghost(self.ops@.push(CsOp::Alloc));
                self.asg = Ghost(self.asg@.push(assignment));
                Ok((
                    Var { v: l, w: Ghost(Wire::MulLeft(k)) },
                    Var { v: r, w: Ghost(Wire::MulRight(k)) },
                    Var { v: o, w: Ghost(Wire::MulOut(k)) },
                ))
            },
            Err(_) => Err(GadgetError::MissingAssignment),
        }
    }
}

impl<'g> CsProver<'g> {
    /// A fresh prover-side constraint system over the given transcript.
    pub fn new(pc_gens: &'g PedersenGens, transcript: Transcript) -> (r: CsProver<'g>)
        ensures
            r.trace() == Seq::<CsOp>::empty(),
            r.allocs() == Seq::<Option<(Scalar, Scalar)>>::empty(),
            r.has_witness(),
    {
        CsProver {
            inner: prover_new(pc_gens, transcript),
            ops: Ghost(Seq::empty()),
            asg: Ghost(Seq::empty()),
        }
    }

    /// Pedersen-commits a high-level variable and returns the commitment
    /// together with its wire.
    pub fn commit(&mut self, v: Scalar, v_blinding: Scalar) -> (r: (CompressedRistretto, Var))
        ensures
            final(self).trace() == old(self).trace().push(CsOp::Commit),
            final(self).allocs() == old(self).allocs(),
            final(self).has_witness() == old(self).has_witness(),
            r.1.wire() == Wire::Committed(commits(old(self).trace())),
    {
        let ghost c = commits(self.ops@);
        let (comm, var) = prover_commit(&mut self.inner, v, v_blinding);
        self.ops = Ghost(self.ops@.push(CsOp::Commit));
        (comm, Var { v: var, w: Ghost(Wire::Committed(c)) })
    }

    /// Consumes the system and produces a proof of the constraints built
    /// so far, or reports that the engine could not produce one: an
    /// undersized generator capacity is `CapacityExceeded`, anything else
    /// the engine refuses is `Proving`.
    pub fn prove(self, bp_gens: &BulletproofGens) -> (r: Result<R1CSProof, GadgetError>)
        ensures
            r is Err ==> r->Err_0 == GadgetError::Proving || r->Err_0
                == GadgetError::CapacityExceeded,
    {
        prover_prove(self.inner, bp_gens)
    }
}

impl Cs for CsVerifier {
    closed spec fn trace(&self) -> Seq<CsOp> {
        self.ops@
    }

    closed spec fn allocs(&self) -> Seq<Option<(Scalar, Scalar)>> {
        self.asg@
    }

    open spec fn has_witness(&self) -> bool {
        false
    }

    fn is_prover(&self) -> bool {
        false
    }

    fn multiply(&mut self, left: &Lc, right: &Lc) -> (Var, Var, Var) {
        let ghost k = gates(self.ops@);
        let (l, r, o) = verifier_multiply(&mut self.inner, &left.inner, &right.inner);
        self.ops = Ghost(self.ops@.push(CsOp::Mul { left: left.terms(), right: right.terms() }));
        (
            Var { v: l, w: Ghost(Wire::MulLeft(k)) },
            Var { v: r, w: Ghost(Wire::MulRight(k)) },
            Var { v: o, w: Ghost(Wire::MulOut(k)) },
        )
    }

    fn constrain(&mut self, lc: &Lc) {
        verifier_constrain(&mut self.inner, &lc.inner);
        self.ops = Ghost(self.ops@.push(CsOp::Constrain { lc: lc.terms() }));
    }

    fn allocate_multiplier(&mut self, assignment: Option<(Scalar, Scalar)>) -> Result<
        (Var, Var, Var),
        GadgetError,
    > {
        let ghost k = gates(self.ops@);
        match verifier_allocate_multiplier(&mut self.inner, assignment) {
            Ok((l, r, o)) => {
                self.ops = Ghost(self.ops@.push(CsOp::Alloc));
                self.asg = Ghost(self.asg@.push(assignment));
                Ok((
                    Var { v: l, w: Ghost(Wire::MulLeft(k)) },
                    Var { v: r, w: Ghost(Wire::MulRight(k)) },
                    Var { v: o, w: Ghost(Wire::MulOut(k)) },
                ))
            },
            Err(_) => Err(GadgetError::MissingAssignment),
        }
    }
}

impl CsVerifier {
    /// A fresh verifier-side constraint system over the given transcript.
    pub fn new(transcript: Transcript) -> (r: CsVerifier)
        ensures
            r.trace() == Seq::<CsOp>::empty(),
            r.allocs() == Seq::<Option<(Scalar, Scalar)>>::empty(),
            !r.has_witness(),
    {
        CsVerifier {
            inner: verifier_new(transcript),
            ops: Ghost(Seq::empty()),
            asg: Ghost(Seq::empty()),
        }
    }

    /// Records a received commitment and returns its high-level wire.
    pub fn commit(&mut self, commitment: CompressedRistretto) -> (r: Var)
        ensures
            final(self).trace() == old(self).trace().push(CsOp::Commit),
            final(self).allocs() == old(self).allocs(),
            final(self).has_witness() == old(self).has_witness(),
            r.wire() == Wire::Committed(commits(old(self).trace())),
    {
        let ghost c = commits(self.ops@);
        let var = verifier_commit(&mut self.inner, commitment);
        self.ops = Ghost(self.ops@.push(CsOp::Commit));
        Var { v: var, w: Ghost(Wire::Committed(c)) }
    }

    /// Consumes the system and checks the proof against the constraints
    /// built so far: an undersized generator capacity is
    /// `CapacityExceeded`, anything else the engine refuses is
    /// `Verification`.
    pub fn verify(
        self,
        proof: &R1CSProof,
        pc_gens: &PedersenGens,
        bp_gens: &BulletproofGens,
    ) -> (r: Result<(), GadgetError>)
        ensures
            r is Err ==> r->Err_0 == GadgetError::Verification || r->Err_0
                == GadgetError::CapacityExceeded,
    {
        verifier_verify(self.inner, proof, pc_gens, bp_gens)
    }
}

} // verus!
