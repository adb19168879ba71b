//! The prover's side: proof parameters, the trace it builds, and the public
//! inputs it reads off that trace; and the end-to-end example's claims.
use vstd::prelude::*;
use crate::air::AirPublicInputs;
use crate::field::{element, field_add, add_spec, reduce, lemma_reduce_is_element};
use crate::trace::{build_trace, built_rows, valid_length, ExecutionTrace};

verus! {

/// How the proof engine extends the base field.
#[derive(Clone, Copy, PartialEq, Eq, Structural, Debug)]
pub enum FieldExtension {
    Base,
    Quadratic,
    Cubic,
}

/// The parameters handed to the proof engine, unchanged from prover to verifier.
#[derive(Clone, Copy, PartialEq, Eq, Structural, Debug)]
pub struct ProofConfig {
    pub num_queries: usize,
    pub blowup_factor: usize,
    pub grinding_factor: u32,
    pub field_extension: FieldExtension,
    pub fri_folding_factor: usize,
    pub fri_remainder_max_degree: usize,
}

/// The fixed parameters of the example, over the base field or its quadratic
/// extension.
pub fn build_proof_options(use_extension_field: bool) -> (r: ProofConfig)
    ensures
        r.num_queries == 28,
        r.blowup_factor == 8,
        r.grinding_factor == 0,
        r.field_extension == (if use_extension_field {
            FieldExtension::Quadratic
        } else {
            FieldExtension::Base
        }),
        r.fri_folding_factor == 4,
        r.fri_remainder_max_degree == 7,
{
    let extension = if use_extension_field {
        FieldExtension::Quadratic
    } else {
        FieldExtension::Base
    };
    ProofConfig {
        num_queries: 28,
        blowup_factor: 8,
        grinding_factor: 0,
        field_extension: extension,
        fri_folding_factor: 4,
        fri_remainder_max_degree: 7,
    }
}

/// The prover of the addition.
pub struct AddProver {
    pub options: ProofConfig,
}

impl AddProver {
    pub fn new(options: ProofConfig) -> (r: AddProver)
        ensures
            r.options == options,
    {
        AddProver { options }
    }

    /// The parameters the proof is made with.
    pub fn options(&self) -> (r: &ProofConfig)
        ensures
            *r == self.options,
    {
        &self.options
    }

    /// The trace of `a + b` for a sequence of `length` steps: `length / 2` rows
    /// of `[a, b, a + b]`.
    pub fn build_trace(&self, length: usize, a: u128, b: u128) -> (r: ExecutionTrace)
        requires
            valid_length(length as nat),
        ensures
            r@ == built_rows(length as nat, a, b),
    {
        build_trace(length, a, b)
    }

    /// The claim the trace proves: column 2 of its last row.
    pub fn get_pub_inputs(&self, trace: &ExecutionTrace) -> (r: AirPublicInputs)
        requires
            trace@.len() >= 1,
            trace@[trace@.len() - 1].len() > 2,
        ensures
            r.result == trace@[trace@.len() - 1][2],
    {
        let last_step = trace.length() - 1;
        AirPublicInputs { result: trace.get(2, last_step) }
    }
}

/// The end-to-end example: two operands and their sum.
pub struct AddExample {
    pub options: ProofConfig,
    pub a: u128,
    pub b: u128,
    pub result: u128,
}

impl AddExample {
    /// The example for `a + b`; the operands are taken modulo the field modulus.
    pub fn new(options: ProofConfig, a: u128, b: u128) -> (r: AddExample)
        ensures
            r.options == options,
            r.a as int == reduce(a as int),
            r.b as int == reduce(b as int),
            r.result as int == add_spec(reduce(a as int), reduce(b as int)),
    {
        let a = element(a);
        let b = element(b);
        proof {
            lemma_reduce_is_element(a as int);
            lemma_reduce_is_element(b as int);
        }
        let result = field_add(a, b);
        AddExample { options, a, b, result }
    }

    /// The honest claim handed to the verifier: the sum.
    pub fn claimed_inputs(&self) -> (r: AirPublicInputs)
        ensures
            r.result == self.result,
    {
        AirPublicInputs { result: self.result }
    }

    /// A tampered claim: the sum plus one.
    pub fn wrong_inputs(&self) -> (r: AirPublicInputs)
        ensures
            r.result as int == add_spec(reduce(self.result as int), 1),
    {
        let s = element(self.result);
        proof {
            lemma_reduce_is_element(self.result as int);
        }
        AirPublicInputs { result: field_add(s, 1) }
    }
}

} // verus!
