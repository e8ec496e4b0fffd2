//! R1CS gadgets for the Doppio ("Sonny") twisted Edwards curve, built on the
//! bulletproofs rank-1 constraint system.
//!
//! Every gadget appends a fixed, witness-independent sequence of
//! multiplication gates and linear constraints to the constraint system it is
//! given.  The verified contracts pin that sequence down exactly, over the
//! ghost trace model in [`trace`]: every recorded combination carries its
//! terms — wire and coefficient — so both the shape and the algebraic
//! content of each constraint are stated, and a prover and a verifier that
//! run the same gadget calls on the same public inputs are guaranteed to
//! build identical constraint graphs, which is what the proof system
//! requires for a proof to be accepted.
//!
//! Coefficients are opaque circuit-field scalars pinned through named
//! conversions, so the model stops short of field arithmetic: which values
//! satisfy a recorded constraint — the group law itself — remains with the
//! proof engine and the curve library, and is exercised by the crate's
//! round-trip tests.

pub mod cs;
pub mod error;
pub mod ext;
pub mod gadgets;
pub mod helpers;
pub mod laws;
pub mod ristretto_point;
pub mod trace;
pub mod util;
