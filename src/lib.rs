//! A verified model of an algebraic proof that `a + b` was computed correctly:
//! the execution trace, its transition and boundary constraints, and the public
//! inputs that bind a claimed sum to the trace.
pub mod air;
pub mod field;
pub mod laws;
pub mod prover;
pub mod trace;
