//! Error type shared by all gadgets and proof drivers.

use vstd::prelude::*;

verus! {

/// Why a gadget call or a proof round failed.
///
/// A hostile or buggy witness must surface as a recoverable error, never as
/// an abort: gadgets check witness values before handing them to the field
/// arithmetic that would reject them.
#[derive(Clone, Copy, PartialEq, Eq, Structural, Debug)]
pub enum GadgetError {
    /// A supplied witness value violates the gadget's algebraic
    /// precondition (a non-zero witness was zero, for instance).
    WitnessInvalid,
    /// A prover-side allocation was attempted without a witness assignment.
    MissingAssignment,
    /// The proof engine could not produce a proof.
    Proving,
    /// The circuit holds more multiplication gates than the generator
    /// capacity handed to the engine covers: a fatal configuration error,
    /// reported before a proof is produced or checked.
    CapacityExceeded,
    /// The completed proof did not satisfy the verifier's check.
    Verification,
}

impl GadgetError {
    /// A short human-readable description.
    pub fn describe(&self) -> (r: String)
        ensures
            r@.len() > 0,
    {
        let s = match self {
            GadgetError::WitnessInvalid => "witness value violates a gadget precondition",
            GadgetError::MissingAssignment => "prover-side allocation without an assignment",
            GadgetError::Proving => "proof generation failed",
            GadgetError::CapacityExceeded => "circuit exceeds the generator capacity",
            GadgetError::Verification => "proof verification failed",
        };
        let r = s.to_string();
        proof {
            reveal_strlit("witness value violates a gadget precondition");
            reveal_strlit("prover-side allocation without an assignment");
            reveal_strlit("proof generation failed");
            reveal_strlit("circuit exceeds the generator capacity");
            reveal_strlit("proof verification failed");
        }
        r
    }
}

} // verus!
